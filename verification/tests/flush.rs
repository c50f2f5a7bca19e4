use mcpg_plugin_observability_otlp::flush::{
    plan_flush, settle_flush, timeout_from_nanos, FlushEvent, FlushOutcome, FlushPlan,
};
use mcpg_plugin_observability_otlp::protocol::TelemetryError;

#[test]
fn plan_depends_on_provider_and_timeout() {
    assert_eq!(plan_flush(false, 0), FlushPlan::Skip);
    assert_eq!(plan_flush(false, 1000), FlushPlan::Skip);
    assert_eq!(plan_flush(true, 0), FlushPlan::DrainFully);
    assert_eq!(plan_flush(true, 1000), FlushPlan::DrainWithin(1000));
}

#[test]
fn skipped_flush_succeeds() {
    let (outcome, reply) = settle_flush(FlushEvent::Skipped);
    assert_eq!(outcome, FlushOutcome::NoProvider);
    assert_eq!(outcome.label(), "no_provider");
    assert!(!outcome.is_timed());
    assert!(reply.is_ok());
}

#[test]
fn drained_flush_succeeds() {
    let (outcome, reply) = settle_flush(FlushEvent::Drained(Ok(())));
    assert_eq!(outcome, FlushOutcome::Success);
    assert_eq!(outcome.label(), "success");
    assert!(outcome.is_timed());
    assert!(reply.is_ok());
}

#[test]
fn failed_drain_is_a_backend_error() {
    let (outcome, reply) = settle_flush(FlushEvent::Drained(Err("Timeout(5s)".to_string())));
    assert_eq!(outcome, FlushOutcome::Error);
    assert_eq!(outcome.label(), "error");
    assert!(outcome.is_timed());
    match reply {
        Err(TelemetryError::Backend { reason }) => {
            assert_eq!(reason, "force_flush failed: Timeout(5s)")
        }
        other => panic!("expected backend error, got {:?}", other),
    }
}

#[test]
fn overrun_flush_times_out() {
    let (outcome, reply) = settle_flush(FlushEvent::DeadlinePassed);
    assert_eq!(outcome, FlushOutcome::Timeout);
    assert_eq!(outcome.label(), "timeout");
    assert!(outcome.is_timed());
    assert!(matches!(reply, Err(TelemetryError::Timeout)));
}

#[test]
fn timeout_is_in_whole_milliseconds_and_capped() {
    assert_eq!(timeout_from_nanos(0), 0);
    assert_eq!(timeout_from_nanos(1_000_000), 1);
    assert_eq!(timeout_from_nanos(1_999_999), 1);
    assert_eq!(timeout_from_nanos(1_500_000_000), 1500);
    assert_eq!(timeout_from_nanos(u64::MAX as u128 * 1_000_000), u64::MAX);
    assert_eq!(timeout_from_nanos((u64::MAX as u128 + 1) * 1_000_000), u64::MAX);
    assert_eq!(timeout_from_nanos(u128::MAX), u64::MAX);
}

#[test]
fn shortest_timeout_is_a_deadline() {
    for nanos in [1, 500_000, 999_999] {
        let timeout_ms = timeout_from_nanos(nanos);
        assert_eq!(timeout_ms, 1);
        assert_eq!(plan_flush(true, timeout_ms), FlushPlan::DrainWithin(1));
    }
    let micros = std::time::Duration::from_micros(500);
    assert_eq!(timeout_from_nanos(micros.as_nanos()), 1);
}
