use mcpg_plugin_observability_otlp::config::OtlpSinkConfig;
use mcpg_plugin_observability_otlp::flush::{settle_flush, FlushEvent, FlushPlan};
use mcpg_plugin_observability_otlp::protocol::{
    Attributes, LogRecord, MetricPoint, PluginClass, SpanEnd, SpanKind, SpanStart, SpanStatus,
};
use mcpg_plugin_observability_otlp::provider::{
    build_provider, resource_attributes, settle_provider,
};
use mcpg_plugin_observability_otlp::sink::{
    settle_span, IgnoredSignal, OtlpSink, ProviderStatus, SpanOutcome, DESCRIPTOR_YAML, PLUGIN_ID,
};

fn config_with_url() -> OtlpSinkConfig {
    OtlpSinkConfig {
        url: "http://127.0.0.1:4317".into(),
        service_name: "mcpg-test".into(),
        ..Default::default()
    }
}

fn span_start(trace_id: &str, span_id: &str) -> SpanStart {
    SpanStart {
        trace_id: trace_id.into(),
        span_id: span_id.into(),
        parent_id: None,
        name: "test.span".into(),
        kind: SpanKind::Internal,
        start_ns: 1_000_000,
        attributes: Attributes::new(),
    }
}

fn span_end(trace_id: &str, span_id: &str) -> SpanEnd {
    SpanEnd {
        trace_id: trace_id.into(),
        span_id: span_id.into(),
        end_ns: 2_000_000,
        status: SpanStatus::Okay,
        events: Vec::new(),
        additional_attributes: Attributes::new(),
    }
}

fn runtime() -> tokio::runtime::Runtime {
    tokio::runtime::Builder::new_multi_thread()
        .worker_threads(1)
        .enable_all()
        .build()
        .unwrap()
}

#[test]
fn manifest_carries_telemetry_sink_class_and_capability() {
    let sink = OtlpSink::with_config(config_with_url());
    assert_eq!(sink.manifest().id, PLUGIN_ID);
    assert_eq!(sink.manifest().plugin_class, PluginClass::TelemetrySink);
}

#[test]
fn manifest_says_nothing_further() {
    let sink = OtlpSink::with_config(config_with_url());
    let manifest = sink.manifest();
    assert_eq!(manifest.name, "OpenTelemetry OTLP Exporter");
    assert_eq!(manifest.protocol_version, "1.0");
    assert_eq!(manifest.module_path_prefix, "mcpg_plugin_observability_otlp");
    assert_eq!(manifest.license, None);
    assert_eq!(manifest.backend_profile, None);
    assert!(manifest.required_capabilities.is_empty());
    assert!(manifest.tags.is_empty());
    assert!(manifest.provides.is_empty());
    assert!(manifest.provides_schemes.is_empty());
}

#[test]
fn descriptor_yaml_id_matches_plugin_id_const() {
    assert!(
        DESCRIPTOR_YAML.contains(&format!("id: {PLUGIN_ID}")),
        "descriptor YAML id should match PLUGIN_ID const"
    );
    assert!(
        DESCRIPTOR_YAML.contains("class: telemetry_sink"),
        "descriptor YAML class should be telemetry_sink"
    );
    assert!(
        DESCRIPTOR_YAML.contains("network_outbound"),
        "descriptor YAML must declare outbound_network capability"
    );
}

#[test]
fn pending_map_is_empty_after_construction() {
    let sink = OtlpSink::with_config(config_with_url());
    assert_eq!(sink.pending_count(), 0);
}

#[test]
fn span_started_stashes_into_pending_map() {
    let mut sink = OtlpSink::with_config(config_with_url());
    let status = sink.span_started(&span_start("a", "b"));
    assert!(matches!(status, ProviderStatus::NoRuntime));
    assert_eq!(sink.pending_count(), 1);
}

#[test]
fn span_ended_without_matching_start_drops_silently() {
    let mut sink = OtlpSink::with_config(config_with_url());
    let outcome = sink.span_ended(&span_end("never", "started"));
    assert!(matches!(outcome, SpanOutcome::DroppedOrphan));
    assert_eq!(outcome.label(), "dropped_orphan");
    assert_eq!(sink.pending_count(), 0);
}

#[test]
fn span_started_then_ended_clears_pending() {
    let runtime = runtime();
    let _entered = runtime.enter();
    let mut sink = OtlpSink::with_config(config_with_url());
    assert!(matches!(
        sink.span_started(&span_start("trace-1", "span-1")),
        ProviderStatus::Ready
    ));
    assert_eq!(sink.pending_count(), 1);
    let outcome = sink.span_ended(&span_end("trace-1", "span-1"));
    assert_eq!(outcome.label(), "exported");
    match outcome {
        SpanOutcome::Exported(span) => assert_eq!(span.name, "test.span"),
        other => panic!("expected an export, got {:?}", other),
    }
    assert_eq!(sink.pending_count(), 0);
    let provider = sink.shutdown().unwrap();
    let _ = provider.shutdown();
}

#[test]
fn flush_returns_ok_when_provider_uninitialized() {
    let sink = OtlpSink::with_config(config_with_url());
    assert_eq!(sink.flush(1000), FlushPlan::Skip);
    assert!(settle_flush(FlushEvent::Skipped).1.is_ok());
}

#[test]
fn flush_with_provider_has_to_drain() {
    let runtime = runtime();
    let _entered = runtime.enter();
    let mut sink = OtlpSink::with_config(config_with_url());
    assert!(matches!(sink.ensure_provider(), ProviderStatus::Ready));
    assert_eq!(sink.flush(0), FlushPlan::DrainFully);
    assert_eq!(sink.flush(250), FlushPlan::DrainWithin(250));
}

#[test]
fn missing_url_drops_spans() {
    let runtime = runtime();
    let _entered = runtime.enter();
    let mut sink = OtlpSink::with_config(OtlpSinkConfig::default());
    assert!(matches!(
        sink.span_started(&span_start("a", "b")),
        ProviderStatus::MissingUrl
    ));
    let outcome = sink.span_ended(&span_end("a", "b"));
    assert_eq!(outcome.label(), "dropped_no_provider");
    assert!(matches!(
        outcome,
        SpanOutcome::DroppedNoProvider(ProviderStatus::MissingUrl)
    ));
    assert_eq!(sink.pending_count(), 0);
    assert!(sink.pipeline().is_none());
    assert!(sink.shutdown().is_none());
}

#[test]
fn absent_runtime_drops_spans() {
    let mut sink = OtlpSink::with_config(config_with_url());
    sink.span_started(&span_start("a", "b"));
    assert!(matches!(
        sink.span_ended(&span_end("a", "b")),
        SpanOutcome::DroppedNoProvider(ProviderStatus::NoRuntime)
    ));
    assert!(matches!(
        sink.span_ended(&span_end("a", "b")),
        SpanOutcome::DroppedOrphan
    ));
}

#[test]
fn unusable_url_fails_the_build() {
    let runtime = runtime();
    let mut sink = OtlpSink::with_config(OtlpSinkConfig {
        url: "not a url".into(),
        ..Default::default()
    });
    match sink.ensure_provider_in(Some(runtime.handle().clone())) {
        ProviderStatus::BuildFailed(reason) => {
            assert!(reason.starts_with("OTLP exporter build failed: "));
            assert!(reason.len() > "OTLP exporter build failed: ".len());
        }
        other => panic!("expected a failed build, got {:?}", other),
    }
    assert!(sink.pipeline().is_none());
}

#[test]
fn failed_build_is_reported_with_its_reason() {
    let error = opentelemetry::trace::TraceError::from("invalid uri");
    match settle_provider(&config_with_url(), Err(error)) {
        Ok(_) => panic!("expected a failed build"),
        Err(message) => assert_eq!(message, "OTLP exporter build failed: invalid uri"),
    }
    let mut sink = OtlpSink::with_config(config_with_url());
    match sink.adopt_provider(Err("no".to_string())) {
        ProviderStatus::BuildFailed(reason) => assert_eq!(reason, "no"),
        other => panic!("expected a failed build, got {:?}", other),
    }
}

#[test]
fn provider_is_built_once() {
    let runtime = runtime();
    let mut sink = OtlpSink::with_config(config_with_url());
    assert!(matches!(
        sink.ensure_provider_in(Some(runtime.handle().clone())),
        ProviderStatus::Ready
    ));
    assert!(matches!(sink.ensure_provider_in(None), ProviderStatus::Ready));
    assert!(matches!(
        sink.adopt_provider(Err("no".to_string())),
        ProviderStatus::Ready
    ));
    assert!(sink.pipeline().is_some());
}

#[test]
fn pipeline_is_built_from_the_configuration() {
    let runtime = runtime();
    let mut config = config_with_url();
    config.service_version = Some("2.4.0".to_string());
    config.batch_export_timeout_ms = 1_500;
    config
        .resource_attributes
        .insert("deployment.environment".to_string(), "prod".to_string());
    let pipeline = build_provider(&config, runtime.handle()).unwrap_or_else(|e| panic!("{}", e));
    assert_eq!(pipeline.endpoint(), "http://127.0.0.1:4317");
    assert_eq!(pipeline.timeout_ms(), 1_500);
    let held = |key: &'static str| {
        pipeline
            .resource()
            .get(&opentelemetry::Key::from_static_str(key))
            .map(|value| value.as_str().into_owned())
    };
    assert_eq!(held("service.name"), Some("mcpg-test".to_string()));
    assert_eq!(held("service.version"), Some("2.4.0".to_string()));
    assert_eq!(held("deployment.environment"), Some("prod".to_string()));
}

#[test]
fn documented_configuration_builds() {
    let runtime = runtime();
    let mut config = OtlpSinkConfig {
        url: "http://otel-collector:4317".into(),
        service_name: "mcpg".into(),
        service_version: Some("2.4.0".into()),
        batch_export_timeout_ms: 30_000,
        ..Default::default()
    };
    config
        .resource_attributes
        .insert("deployment.environment".to_string(), "prod".to_string());
    assert_eq!(
        resource_attributes(&config),
        vec![
            ("service.name".to_string(), "mcpg".to_string()),
            ("service.version".to_string(), "2.4.0".to_string()),
            ("deployment.environment".to_string(), "prod".to_string()),
        ]
    );
    let pipeline = build_provider(&config, runtime.handle()).unwrap_or_else(|e| panic!("{}", e));
    assert_eq!(pipeline.endpoint(), "http://otel-collector:4317");
    assert_eq!(pipeline.timeout_ms(), 30_000);
}

#[test]
fn declared_attribute_overrides_the_service_name() {
    let runtime = runtime();
    let mut config = config_with_url();
    config
        .resource_attributes
        .insert("service.name".to_string(), "edge".to_string());
    assert_eq!(
        resource_attributes(&config),
        vec![
            ("service.name".to_string(), "mcpg-test".to_string()),
            ("service.name".to_string(), "edge".to_string()),
        ]
    );
    let pipeline = build_provider(&config, runtime.handle()).unwrap_or_else(|e| panic!("{}", e));
    let name = pipeline
        .resource()
        .get(&opentelemetry::Key::from_static_str("service.name"));
    assert_eq!(name, Some(opentelemetry::Value::from("edge")));
}

#[test]
fn later_start_of_a_span_counts() {
    let runtime = runtime();
    let _entered = runtime.enter();
    let mut sink = OtlpSink::with_config(config_with_url());
    sink.span_started(&span_start("t", "s"));
    let mut again = span_start("t", "s");
    again.name = "again".to_string();
    sink.span_started(&again);
    sink.span_started(&span_start("t", "other"));
    assert_eq!(sink.pending_count(), 2);
    match sink.span_ended(&span_end("t", "s")) {
        SpanOutcome::Exported(span) => assert_eq!(span.name, "again"),
        other => panic!("expected an export, got {:?}", other),
    }
    assert_eq!(sink.pending_count(), 1);
}

#[test]
fn met_span_is_settled_by_the_provider_status() {
    let start = span_start("t", "s");
    let end = span_end("t", "s");
    assert!(matches!(
        settle_span(&start, &end, ProviderStatus::Ready),
        SpanOutcome::Exported(_)
    ));
    assert!(matches!(
        settle_span(&start, &end, ProviderStatus::NoRuntime),
        SpanOutcome::DroppedNoProvider(ProviderStatus::NoRuntime)
    ));
}

#[test]
fn metrics_and_logs_are_ignored() {
    let sink = OtlpSink::with_config(config_with_url());
    let metric = MetricPoint {
        name: "requests".to_string(),
    };
    match sink.metric_recorded(&metric) {
        IgnoredSignal::Metric { name } => assert_eq!(name, "requests"),
        other => panic!("expected a metric, got {:?}", other),
    }
    let record = LogRecord {
        target: "gateway".to_string(),
        level: "warn".to_string(),
    };
    match sink.log_recorded(&record) {
        IgnoredSignal::Log { target, level } => {
            assert_eq!(target, "gateway");
            assert_eq!(level, "warn");
        }
        other => panic!("expected a log, got {:?}", other),
    }
    assert_eq!(sink.pending_count(), 0);
}
