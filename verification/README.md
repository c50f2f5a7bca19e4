# OpenTelemetry OTLP sink

Ships gateway traces to an OpenTelemetry collector over OTLP/gRPC. The library under `src/`
is verified with Verus; `app/` is the plain Rust around it.

## Library

| Module | Holds |
|---|---|
| `sink` | `OtlpSink`: pending spans, the provider, what becomes of a span |
| `convert` | from gateway events to OpenTelemetry spans |
| `json` | reading JSON attribute values |
| `provider` | resource attributes, and building the tracer provider |
| `pipeline` | exporter, resource and provider behind the OpenTelemetry crates |
| `flush` | planning and settling a flush |
| `config` | the operator's configuration and when it is refused |
| `protocol` | the gateway's events and the plugin manifest |
| `ordmap`, `key_order` | a map sorted by key, and the order of string keys |
| `laws` | what holds of the sink as a whole |

Calls into `serde_json`, `opentelemetry_sdk`, `opentelemetry_otlp`, `tokio` and the standard
library stand behind small trusted items, each with a comment that says what is taken on
trust.

## App

`app/` decodes the `config:` block, guards the sink with a lock, sends finished spans through
the OpenTelemetry SDK, waits for flushes, and logs and counts outcomes:
`mcpg_otlp_spans_total` (`exported`, `dropped_orphan`, `dropped_no_provider`) and
`mcpg_otlp_flushes_total` (`success`, `error`, `timeout`, `no_provider`).
