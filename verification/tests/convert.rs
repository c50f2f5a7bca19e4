use std::time::{Duration, UNIX_EPOCH};

use mcpg_plugin_observability_otlp::convert::{
    assemble_span, convert_kind, convert_status, convert_value, ns_to_systemtime,
    serde_json_to_otel_value, OtelSpanKind, OtelStatus, OtelValue,
};
use mcpg_plugin_observability_otlp::json::{read_json, JsonValue};
use mcpg_plugin_observability_otlp::protocol::{
    Attributes, SpanEnd, SpanKind, SpanStart, SpanStatus,
};

fn text(value: OtelValue) -> String {
    match value {
        OtelValue::String(s) => s,
        other => panic!("expected string, got {:?}", other),
    }
}

#[test]
fn serde_json_value_to_otel_handles_primitives() {
    assert!(matches!(
        serde_json_to_otel_value(&serde_json::Value::from(true)),
        OtelValue::Bool(true)
    ));
    assert!(matches!(
        serde_json_to_otel_value(&serde_json::Value::from(42i64)),
        OtelValue::I64(42)
    ));
    assert!(matches!(
        serde_json_to_otel_value(&serde_json::Value::from(2.5)),
        OtelValue::F64(_)
    ));
    match serde_json_to_otel_value(&serde_json::Value::from("hello")) {
        OtelValue::String(s) => assert_eq!(s, "hello"),
        _ => panic!("expected string"),
    }
}

#[test]
fn float_keeps_its_value() {
    match serde_json_to_otel_value(&serde_json::Value::from(2.5)) {
        OtelValue::F64(bits) => assert_eq!(f64::from_bits(bits), 2.5),
        other => panic!("expected float, got {:?}", other),
    }
}

#[test]
fn integer_beyond_i64_becomes_a_float() {
    match serde_json_to_otel_value(&serde_json::Value::from(u64::MAX)) {
        OtelValue::F64(bits) => assert_eq!(f64::from_bits(bits), 18446744073709551615.0),
        other => panic!("expected float, got {:?}", other),
    }
    assert!(matches!(
        serde_json_to_otel_value(&serde_json::Value::from(i64::MAX as u64)),
        OtelValue::I64(i64::MAX)
    ));
    assert!(matches!(
        serde_json_to_otel_value(&serde_json::Value::from(i64::MIN)),
        OtelValue::I64(i64::MIN)
    ));
}

#[test]
fn null_becomes_the_empty_string() {
    assert_eq!(text(serde_json_to_otel_value(&serde_json::Value::Null)), "");
}

#[test]
fn nested_values_become_json_text() {
    let array: serde_json::Value = serde_json::from_str("[1, \"a\\\"b\", null]").unwrap();
    assert_eq!(text(serde_json_to_otel_value(&array)), "[1,\"a\\\"b\",null]");
    let object: serde_json::Value = serde_json::from_str("{ \"k\": [true, {}] }").unwrap();
    assert_eq!(text(serde_json_to_otel_value(&object)), "{\"k\":[true,{}]}");
}

#[test]
fn number_is_read_in_all_its_forms() {
    match read_json(&serde_json::Value::from(-7)) {
        JsonValue::Number {
            integer,
            float_bits,
            text,
        } => {
            assert_eq!(integer, Some(-7));
            assert_eq!(float_bits.map(f64::from_bits), Some(-7.0));
            assert_eq!(text, "-7");
        }
        other => panic!("expected number, got {:?}", other),
    }
}

#[test]
fn number_without_a_representation_stays_text() {
    let number = JsonValue::Number {
        integer: None,
        float_bits: None,
        text: "1e999".to_string(),
    };
    assert_eq!(text(convert_value(&number)), "1e999");
}

#[test]
fn convert_status_round_trips_variants() {
    assert!(matches!(convert_status(&SpanStatus::Okay), OtelStatus::Okay));
    assert!(matches!(
        convert_status(&SpanStatus::Unset),
        OtelStatus::Unset
    ));
    match convert_status(&SpanStatus::Error {
        message: "oops".into(),
    }) {
        OtelStatus::Error { description } => assert_eq!(description, "oops"),
        other => panic!("expected error, got {:?}", other),
    }
}

#[test]
fn kinds_keep_their_names() {
    assert_eq!(convert_kind(SpanKind::Internal), OtelSpanKind::Internal);
    assert_eq!(convert_kind(SpanKind::Server), OtelSpanKind::Server);
    assert_eq!(convert_kind(SpanKind::Client), OtelSpanKind::Client);
    assert_eq!(convert_kind(SpanKind::Producer), OtelSpanKind::Producer);
    assert_eq!(convert_kind(SpanKind::Consumer), OtelSpanKind::Consumer);
}

#[test]
fn timestamps_count_from_the_epoch() {
    assert_eq!(ns_to_systemtime(0), UNIX_EPOCH);
    assert_eq!(
        ns_to_systemtime(1_700_000_000_123_456_789)
            .duration_since(UNIX_EPOCH)
            .unwrap(),
        Duration::new(1_700_000_000, 123_456_789)
    );
    assert_eq!(
        ns_to_systemtime(u64::MAX).duration_since(UNIX_EPOCH).unwrap(),
        Duration::new(18_446_744_073, 709_551_615)
    );
}

#[test]
fn span_lists_both_attribute_sets_in_key_order() {
    let mut opened = Attributes::new();
    opened.insert("b".to_string(), JsonValue::Bool(true));
    opened.insert("a".to_string(), JsonValue::String("x".to_string()));
    let mut closed = Attributes::new();
    closed.insert("a".to_string(), JsonValue::Null);
    let start = SpanStart {
        trace_id: "t".to_string(),
        span_id: "s".to_string(),
        parent_id: Some("p".to_string()),
        name: "tools/call".to_string(),
        kind: SpanKind::Server,
        start_ns: 5,
        attributes: opened,
    };
    let end = SpanEnd {
        trace_id: "t".to_string(),
        span_id: "s".to_string(),
        end_ns: 9,
        status: SpanStatus::Error {
            message: "late".to_string(),
        },
        events: Vec::new(),
        additional_attributes: closed,
    };
    let span = assemble_span(&start, &end);
    assert_eq!(span.name, "tools/call");
    assert_eq!(span.kind, OtelSpanKind::Server);
    assert_eq!(span.start_time, UNIX_EPOCH + Duration::from_nanos(5));
    assert_eq!(span.end_time, UNIX_EPOCH + Duration::from_nanos(9));
    assert!(matches!(span.status, OtelStatus::Error { description } if description == "late"));
    let listed: Vec<(String, String)> = span
        .attributes
        .into_iter()
        .map(|(key, value)| (key, format!("{:?}", value)))
        .collect();
    assert_eq!(
        listed,
        vec![
            ("a".to_string(), "String(\"x\")".to_string()),
            ("b".to_string(), "Bool(true)".to_string()),
            ("a".to_string(), "String(\"\")".to_string()),
        ]
    );
}
