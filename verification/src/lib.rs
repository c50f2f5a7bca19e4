//! `dev.mcpg.observability.otlp`: an OpenTelemetry OTLP sink for gateway traces.
//!
//! The sink pairs the gateway's span starts with their ends, puts each pair together into an
//! OpenTelemetry span, and holds the tracer provider through which spans are exported. It
//! exports traces only; metrics and logs that reach it are ignored.
//!
//! # Lifecycle
//!
//! 1. [`sink::OtlpSink::from_config_json`] settles on a configuration. No provider is built
//!    yet.
//! 2. [`sink::OtlpSink::span_started`] keeps the start under `(trace_id, span_id)`.
//! 3. [`sink::OtlpSink::span_ended`] takes the matching start and assembles the span. The
//!    provider is built on the first event; while there is none, spans are dropped.
//! 4. [`sink::OtlpSink::flush`] says what has to be drained, and [`flush::settle_flush`] what
//!    the caller of the flush is told.
//! 5. [`sink::OtlpSink::shutdown`] names the provider that has to be stopped.
//!
//! What holds of the sink as a whole is stated in [`laws`].

pub mod config;
pub mod convert;
pub mod flush;
pub mod json;
pub mod key_order;
pub mod laws;
pub mod ordmap;
pub mod pipeline;
pub mod protocol;
pub mod provider;
pub mod sink;
