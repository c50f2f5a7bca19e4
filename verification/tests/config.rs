use mcpg_plugin_observability_otlp::config::{is_opt_out, settle_config, OtlpSinkConfig};
use mcpg_plugin_observability_otlp::sink::OtlpSink;

fn undecodable() -> Result<OtlpSinkConfig, String> {
    Err("expected value at line 1 column 1".to_string())
}

#[test]
fn config_default_has_mcpg_service_name() {
    let cfg: OtlpSinkConfig = Default::default();
    assert_eq!(cfg.service_name, "mcpg");
    assert_eq!(cfg.batch_export_timeout_ms, 30_000);
}

#[test]
fn config_default_leaves_the_rest_unset() {
    let cfg = OtlpSinkConfig::default();
    assert_eq!(cfg.url, "");
    assert_eq!(cfg.service_version, None);
    assert_eq!(cfg.resource_attributes.len(), 0);
}

#[test]
fn from_config_json_empty_block_yields_defaults() {
    for empty in ["", "   ", "{}", "null"] {
        let sink = match OtlpSink::from_config_json(empty, undecodable()) {
            Ok(sink) => sink,
            Err(refused) => panic!("{}", refused.message),
        };
        assert!(sink.config().url.is_empty());
        assert_eq!(sink.config().service_name, "mcpg");
        assert_eq!(sink.config().batch_export_timeout_ms, 30_000);
    }
}

#[test]
#[should_panic(expected = "failing closed")]
fn from_config_json_fails_closed_on_malformed() {
    let decoded = match serde_json::from_str::<serde_json::Value>("not json") {
        Ok(_) => Ok(OtlpSinkConfig::default()),
        Err(error) => Err(error.to_string()),
    };
    if let Err(refused) = OtlpSink::from_config_json("not json", decoded) {
        panic!("{}", refused.message);
    }
}

#[test]
fn refusal_carries_the_reason() {
    let refused = match settle_config("{\"url\": 7}", Err("invalid type".to_string())) {
        Ok(_) => panic!("expected a refusal"),
        Err(refused) => refused,
    };
    assert_eq!(
        refused.message,
        "invalid plugin config, failing closed: invalid type"
    );
}

#[test]
fn decoded_block_is_taken_over() {
    let decoded = OtlpSinkConfig {
        url: "http://collector:4317".to_string(),
        ..Default::default()
    };
    let sink = match OtlpSink::from_config_json("{\"url\": \"http://collector:4317\"}", Ok(decoded)) {
        Ok(sink) => sink,
        Err(refused) => panic!("{}", refused.message),
    };
    assert_eq!(sink.config().url, "http://collector:4317");
}

#[test]
fn opt_out_ignores_surrounding_white_space() {
    assert!(is_opt_out("\n\t null \u{3000}"));
    assert!(is_opt_out("\u{a0}{}\r\n"));
    assert!(!is_opt_out("{ }"));
    assert!(!is_opt_out("nul l"));
    assert!(!is_opt_out("\"\""));
}

#[test]
fn cloned_config_says_the_same() {
    let mut config = OtlpSinkConfig {
        url: "http://collector:4317".to_string(),
        service_version: Some("2.4.0".to_string()),
        ..Default::default()
    };
    config
        .resource_attributes
        .insert("deployment.environment".to_string(), "prod".to_string());
    let copy = config.clone();
    assert_eq!(copy.url, "http://collector:4317");
    assert_eq!(copy.service_name, "mcpg");
    assert_eq!(copy.service_version, Some("2.4.0".to_string()));
    assert_eq!(copy.resource_attributes.len(), 1);
    assert_eq!(copy.resource_attributes.entry(0).1, "prod");
}
