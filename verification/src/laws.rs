//! What holds of the sink as a whole.

use opentelemetry::trace::TraceError;
use tokio::runtime::Handle;
use vstd::prelude::*;
use vstd::string::to_string_from_display_ensures;

use crate::config::{ConfigView, OtlpSinkConfig};
use crate::convert::{epoch_plus_nanos, otel_attributes, otel_kind, otel_value, span_of};
use crate::convert::{span_has_its_parts, OtelValue, OtelView};
use crate::flush::{can_follow, flush_outcome, flush_plan, is_flush_reply, FlushEvent};
use crate::flush::{timeout_of, FlushOutcome, FlushPlan};
use crate::json::{bits_of, integer_of, reading, rounded_bits, JsonNumber, JsonView};
use crate::key_order::MapKey;
use crate::ordmap::{ascending, has_key};
use crate::protocol::{SpanEnd, SpanEndView, SpanKind, SpanStart, SpanStartView, TelemetryError};
use crate::pipeline::{came_of_asking, last_pair_of_a_key_is_held, last_value, provider_resource};
use crate::pipeline::{OtlpExporter, PipelineView, TracePipeline};
use crate::provider::{built_from, came_of_building, configured_attributes};
use crate::provider::{SERVICE_NAME_KEY, SERVICE_VERSION_KEY};
use crate::sink::{ProviderStatus, SinkView, SpanOutcome};

verus! {

/// A sink that has just been set up is consistent.
pub proof fn fresh_is_consistent(sink: SinkView, config: ConfigView)
    requires
        sink.is_fresh(config),
    ensures
        sink.is_consistent(),
{
}

/// Looking for a provider keeps the sink consistent.
pub proof fn ensuring_keeps_consistency(before: SinkView, status: ProviderStatus, after: SinkView)
    requires
        before.is_consistent(),
        before.after_ensuring(status, after),
    ensures
        after.is_consistent(),
{
}

/// Opening a span keeps the sink consistent.
pub proof fn start_keeps_consistency(
    before: SinkView,
    span: SpanStartView,
    status: ProviderStatus,
    after: SinkView,
)
    requires
        before.is_consistent(),
        before.after_start(span, status, after),
    ensures
        after.is_consistent(),
{
    let ensured = after.with_pending(before.pending);
    ensuring_keeps_consistency(before, status, ensured);
    assert(ensured.pipeline == after.pipeline && ensured.config == after.config);
}

/// Closing a span keeps the sink consistent.
pub proof fn end_keeps_consistency(
    before: SinkView,
    span: SpanEndView,
    outcome: SpanOutcome,
    after: SinkView,
)
    requires
        before.is_consistent(),
        before.after_end(span, outcome, after),
    ensures
        after.is_consistent(),
{
    let taken = before.with_pending(before.pending.remove(span.key()));
    assert(taken.is_consistent());
}

/// The end of a span meets its start: once a span was opened, closing it exports the span
/// that the two make or drops it for want of a provider, and either way it is no longer
/// pending, nor is anything else changed among the pending spans.
pub proof fn end_meets_start(
    before: SinkView,
    start: SpanStartView,
    status: ProviderStatus,
    between: SinkView,
    end: SpanEndView,
    outcome: SpanOutcome,
    after: SinkView,
)
    requires
        start.key() == end.key(),
        before.after_start(start, status, between),
        between.after_end(end, outcome, after),
    ensures
        !(outcome is DroppedOrphan),
        outcome matches SpanOutcome::Exported(record) ==> record@ == span_of(start, end),
        after.pending == before.pending.remove(start.key()),
        !before.pending.dom().contains(start.key()) ==> after.pending == before.pending,
{
    assert(after.pending == between.pending.remove(end.key()));
    assert(after.pending =~= before.pending.remove(start.key()));
    if !before.pending.dom().contains(start.key()) {
        assert(after.pending =~= before.pending);
    }
}

/// A span ends once: whatever came of it, a second end of the same span is an orphan and
/// changes nothing.
pub proof fn span_ends_once(
    before: SinkView,
    end: SpanEndView,
    outcome: SpanOutcome,
    between: SinkView,
    again: SpanEndView,
    second: SpanOutcome,
    after: SinkView,
)
    requires
        again.key() == end.key(),
        before.after_end(end, outcome, between),
        between.after_end(again, second, after),
    ensures
        second is DroppedOrphan,
        after == between,
{
    assert(between.pending == before.pending.remove(end.key()) || between == before);
}

/// The end of a span always clears it, with a provider and without: a degraded sink keeps no
/// finished span waiting.
pub proof fn end_always_clears(
    before: SinkView,
    span: SpanEndView,
    outcome: SpanOutcome,
    after: SinkView,
)
    requires
        before.after_end(span, outcome, after),
    ensures
        after.pending == before.pending.remove(span.key()),
{
    assert(after.pending =~= before.pending.remove(span.key()));
}

/// Of two starts of one span the later one counts.
pub proof fn later_start_counts(
    before: SinkView,
    first: SpanStartView,
    first_status: ProviderStatus,
    between: SinkView,
    second: SpanStartView,
    second_status: ProviderStatus,
    after: SinkView,
)
    requires
        first.key() == second.key(),
        before.after_start(first, first_status, between),
        between.after_start(second, second_status, after),
    ensures
        after.pending == before.pending.insert(second.key(), second),
{
    assert(after.pending =~= before.pending.insert(second.key(), second));
}

/// Opening a span leaves every other pending span as it is.
pub proof fn start_leaves_others(
    before: SinkView,
    span: SpanStartView,
    status: ProviderStatus,
    after: SinkView,
    other: (Seq<char>, Seq<char>),
)
    requires
        before.after_start(span, status, after),
        other != span.key(),
    ensures
        after.pending.dom().contains(other) == before.pending.dom().contains(other),
        before.pending.dom().contains(other) ==> after.pending[other] == before.pending[other],
{
}

/// Closing a span leaves every other pending span as it is.
pub proof fn end_leaves_others(
    before: SinkView,
    span: SpanEndView,
    outcome: SpanOutcome,
    after: SinkView,
    other: (Seq<char>, Seq<char>),
)
    requires
        before.after_end(span, outcome, after),
        other != span.key(),
    ensures
        after.pending.dom().contains(other) == before.pending.dom().contains(other),
        before.pending.dom().contains(other) ==> after.pending[other] == before.pending[other],
{
}

/// A provider is put in place at most once: whatever span opens, the one that is there stays.
pub proof fn start_keeps_provider(
    before: SinkView,
    span: SpanStartView,
    status: ProviderStatus,
    after: SinkView,
)
    requires
        before.after_start(span, status, after),
        before.pipeline is Some,
    ensures
        after.pipeline == before.pipeline,
        status is Ready,
{
    assert(after.with_pending(before.pending).pipeline == after.pipeline);
}

/// A provider is put in place at most once: whatever span closes, the one that is there stays.
pub proof fn end_keeps_provider(
    before: SinkView,
    span: SpanEndView,
    outcome: SpanOutcome,
    after: SinkView,
)
    requires
        before.after_end(span, outcome, after),
        before.pipeline is Some,
    ensures
        after.pipeline == before.pipeline,
{
}

/// The configuration and the manifest stay as they are when a span opens.
pub proof fn start_keeps_identity(
    before: SinkView,
    span: SpanStartView,
    status: ProviderStatus,
    after: SinkView,
)
    requires
        before.after_start(span, status, after),
    ensures
        after.config == before.config,
        after.manifest == before.manifest,
{
    let ensured = after.with_pending(before.pending);
    assert(ensured.config == after.config && ensured.manifest == after.manifest);
}

/// The configuration and the manifest stay as they are when a span closes.
pub proof fn end_keeps_identity(
    before: SinkView,
    span: SpanEndView,
    outcome: SpanOutcome,
    after: SinkView,
)
    requires
        before.after_end(span, outcome, after),
    ensures
        after.config == before.config,
        after.manifest == before.manifest,
{
}

/// What the gateway reports of a span.
pub enum SpanOp {
    Opened(SpanStartView),
    Closed(SpanEndView),
}

impl SpanOp {
    /// The key of the span that is reported on.
    pub open spec fn key(self) -> (Seq<char>, Seq<char>) {
        match self {
            SpanOp::Opened(start) => start.key(),
            SpanOp::Closed(end) => end.key(),
        }
    }

    /// The sink can go from `before` to `after` on this report.
    pub open spec fn leads(self, before: SinkView, after: SinkView) -> bool {
        match self {
            SpanOp::Opened(start) => exists|status: ProviderStatus|
                before.after_start(start, status, after),
            SpanOp::Closed(end) => exists|outcome: SpanOutcome|
                before.after_end(end, outcome, after),
        }
    }
}

/// `states` is a course that the sink can take on the reports `ops`.
pub open spec fn is_course(states: Seq<SinkView>, ops: Seq<SpanOp>) -> bool {
    &&& states.len() == ops.len() + 1
    &&& forall|i: int|
        0 <= i < ops.len() ==> (#[trigger] ops[i]).leads(states[i], states[i + 1])
}

/// The last report on the span with the key `k`, if there is one.
pub open spec fn last_report(ops: Seq<SpanOp>, k: (Seq<char>, Seq<char>)) -> Option<SpanOp>
    decreases ops.len(),
{
    if ops.len() == 0 {
        None
    } else if ops.last().key() == k {
        Some(ops.last())
    } else {
        last_report(ops.drop_last(), k)
    }
}

/// A course without its last step is a course, and the last report makes that step.
proof fn last_step_of_course(states: Seq<SinkView>, ops: Seq<SpanOp>)
    requires
        is_course(states, ops),
        ops.len() > 0,
    ensures
        is_course(states.drop_last(), ops.drop_last()),
        ops.last().leads(states.drop_last().last(), states.last()),
{
    let before = states.drop_last();
    assert forall|i: int| 0 <= i < ops.drop_last().len() implies (
    #[trigger] ops.drop_last()[i]).leads(before[i], before[i + 1]) by {
        assert(ops[i].leads(states[i], states[i + 1]));
    }
    assert(ops[ops.len() - 1].leads(states[ops.len() - 1], states[ops.len() as int]));
}

/// After any sequence of reports a span is pending exactly if the last report on it opened
/// it, and then with that very start; a span with no report is as it was at first.
pub proof fn pending_is_what_was_opened_last(
    states: Seq<SinkView>,
    ops: Seq<SpanOp>,
    k: (Seq<char>, Seq<char>),
)
    requires
        is_course(states, ops),
    ensures
        match last_report(ops, k) {
            Some(SpanOp::Opened(start)) => {
                &&& states.last().pending.dom().contains(k)
                &&& states.last().pending[k] == start
            },
            Some(SpanOp::Closed(_)) => !states.last().pending.dom().contains(k),
            None => {
                &&& states.last().pending.dom().contains(k) == states[0].pending.dom().contains(k)
                &&& states[0].pending.dom().contains(k) ==> states.last().pending[k]
                    == states[0].pending[k]
            },
        },
    decreases ops.len(),
{
    if ops.len() > 0 {
        let before = states.drop_last();
        let op = ops.last();
        last_step_of_course(states, ops);
        pending_is_what_was_opened_last(before, ops.drop_last(), k);
        match op {
            SpanOp::Opened(start) => {
                let status = choose|status: ProviderStatus|
                    before.last().after_start(start, status, states.last());
                assert(before.last().after_start(start, status, states.last()));
            },
            SpanOp::Closed(end) => {
                let outcome = choose|outcome: SpanOutcome|
                    before.last().after_end(end, outcome, states.last());
                end_always_clears(before.last(), end, outcome, states.last());
            },
        }
    }
}

/// Every state on a course that begins consistent is consistent, and has the configuration
/// and the manifest of the first; a provider that is there at first is there to the end.
pub proof fn course_keeps_consistency(states: Seq<SinkView>, ops: Seq<SpanOp>)
    requires
        is_course(states, ops),
        states[0].is_consistent(),
    ensures
        states.last().is_consistent(),
        states.last().config == states[0].config,
        states.last().manifest == states[0].manifest,
        states[0].pipeline is Some ==> states.last().pipeline == states[0].pipeline,
    decreases ops.len(),
{
    if ops.len() > 0 {
        let before = states.drop_last();
        let last = states.last();
        last_step_of_course(states, ops);
        course_keeps_consistency(before, ops.drop_last());
        match ops.last() {
            SpanOp::Opened(start) => {
                let status = choose|status: ProviderStatus|
                    before.last().after_start(start, status, last);
                start_keeps_consistency(before.last(), start, status, last);
                start_keeps_identity(before.last(), start, status, last);
                if before.last().pipeline is Some {
                    start_keeps_provider(before.last(), start, status, last);
                }
            },
            SpanOp::Closed(end) => {
                let outcome = choose|outcome: SpanOutcome|
                    before.last().after_end(end, outcome, last);
                end_keeps_consistency(before.last(), end, outcome, last);
                end_keeps_identity(before.last(), end, outcome, last);
            },
        }
    }
}

/// With a provider in place every span whose start is pending is exported when it ends.
pub proof fn matched_span_is_exported(
    before: SinkView,
    span: SpanEndView,
    outcome: SpanOutcome,
    after: SinkView,
)
    requires
        before.after_end(span, outcome, after),
        before.pipeline is Some,
        before.pending.dom().contains(span.key()),
    ensures
        outcome matches SpanOutcome::Exported(record) && record@ == span_of(
            before.pending[span.key()],
            span,
        ),
{
}

/// Without an endpoint the sink stays degraded: opening a span puts no provider in place.
pub proof fn start_without_endpoint(
    before: SinkView,
    span: SpanStartView,
    status: ProviderStatus,
    after: SinkView,
)
    requires
        before.after_start(span, status, after),
        before.pipeline is None,
        before.config.url.len() == 0,
    ensures
        status is MissingUrl,
        after.pipeline is None,
{
    assert(after.with_pending(before.pending).pipeline == after.pipeline);
}

/// Without an endpoint the sink stays degraded: spans are dropped when they end.
pub proof fn end_without_endpoint(
    before: SinkView,
    span: SpanEndView,
    outcome: SpanOutcome,
    after: SinkView,
)
    requires
        before.after_end(span, outcome, after),
        before.pipeline is None,
        before.config.url.len() == 0,
    ensures
        outcome is DroppedOrphan || outcome == SpanOutcome::DroppedNoProvider(
            ProviderStatus::MissingUrl,
        ),
        after.pipeline is None,
{
}

/// An exported span went through a provider: where one is exported there is a provider.
pub proof fn export_needs_provider(
    before: SinkView,
    span: SpanEndView,
    outcome: SpanOutcome,
    after: SinkView,
)
    requires
        before.after_end(span, outcome, after),
    ensures
        outcome is Exported ==> after.pipeline is Some,
        outcome is DroppedNoProvider ==> after.pipeline is None,
{
}

/// The three span outcomes are counted under three different labels.
pub proof fn span_labels_differ(a: SpanOutcome, b: SpanOutcome)
    requires
        a.spec_label() == b.spec_label(),
    ensures
        a is Exported == b is Exported,
        a is DroppedOrphan == b is DroppedOrphan,
        a is DroppedNoProvider == b is DroppedNoProvider,
{
    reveal_strlit("exported");
    reveal_strlit("dropped_orphan");
    reveal_strlit("dropped_no_provider");
    assert("exported"@.len() == 8);
    assert("dropped_orphan"@.len() == 14);
    assert("dropped_no_provider"@.len() == 19);
}

/// The four flush outcomes are counted under four different labels.
pub proof fn flush_labels_differ(a: FlushOutcome, b: FlushOutcome)
    requires
        a.spec_label() == b.spec_label(),
    ensures
        a == b,
{
    reveal_strlit("no_provider");
    reveal_strlit("success");
    reveal_strlit("error");
    reveal_strlit("timeout");
    assert("no_provider"@.len() == 11);
    assert("error"@.len() == 5);
    assert("success"@[0] == 's');
    assert("timeout"@[0] == 't');
}

/// Span kinds map one for one.
pub proof fn kinds_map_one_for_one(a: SpanKind, b: SpanKind)
    requires
        otel_kind(a) == otel_kind(b),
    ensures
        a == b,
{
}

/// A JSON integer that fits an `i64` is exported as that integer.
pub proof fn fitting_integer_stays_exact(number: JsonNumber, text: Seq<char>)
    requires
        integer_of(number) is Some,
    ensures
        otel_value(reading(JsonView::Number { number, text })) == OtelView::I64(
            integer_of(number)->0,
        ),
        match number {
            JsonNumber::PosInt(n) => integer_of(number)->0 == n,
            JsonNumber::NegInt(n) => integer_of(number)->0 == n,
            JsonNumber::Float(_) => false,
        },
{
}

/// Any other JSON number is exported as a float, never as text.
pub proof fn other_number_becomes_float(number: JsonNumber, text: Seq<char>)
    requires
        integer_of(number) is None,
    ensures
        otel_value(reading(JsonView::Number { number, text })) == OtelView::F64(bits_of(number)),
{
}

/// A JSON boolean is exported as that boolean.
pub proof fn boolean_stays_itself(b: bool)
    ensures
        otel_value(reading(JsonView::Bool(b))) == OtelView::Bool(b),
{
}

/// A JSON string is exported as that string.
pub proof fn string_stays_itself(s: Seq<char>)
    ensures
        otel_value(reading(JsonView::String(s))) == OtelView::String(s),
{
}

/// `null` is exported as the empty string.
pub proof fn null_becomes_the_empty_string()
    ensures
        otel_value(reading(JsonView::Null)) == OtelView::String(Seq::empty()),
{
}

/// A JSON number is exported as an integer exactly if it is one from the least to the greatest
/// `i64`, and then as itself; a float is exported with its own bits, and an integer beyond that
/// range as the float that it rounds to. The text of a number plays no part.
pub proof fn number_stays_itself(number: JsonNumber, text: Seq<char>)
    ensures
        match number {
            JsonNumber::PosInt(n) => if n < 0x8000_0000_0000_0000 {
                otel_value(reading(JsonView::Number { number, text })) matches OtelView::I64(i)
                    && i == n
            } else {
                otel_value(reading(JsonView::Number { number, text })) == OtelView::F64(
                    rounded_bits(n as int),
                )
            },
            JsonNumber::NegInt(n) => otel_value(reading(JsonView::Number { number, text }))
                == OtelView::I64(n),
            JsonNumber::Float(bits) => otel_value(reading(JsonView::Number { number, text }))
                == OtelView::F64(bits),
        },
{
}

/// Values of different kinds are never mixed up: only a boolean is exported as a boolean, only
/// a number as a number, and two booleans, two strings or two nested values that are exported
/// alike are the same.
pub proof fn exported_alike_was_alike(a: JsonView, b: JsonView)
    requires
        otel_value(reading(a)) == otel_value(reading(b)),
    ensures
        a is Bool <==> b is Bool,
        a is Number <==> b is Number,
        a is Bool ==> a == b,
        a is String && b is String ==> a == b,
        a is Nested && b is Nested ==> a == b,
{
}

/// What a JSON value is exported as, value by value.
pub proof fn exported_value_is_exact(json: JsonView, value: OtelValue)
    requires
        value@ == otel_value(reading(json)),
    ensures
        match json {
            JsonView::Null => value matches OtelValue::String(t) && t@.len() == 0,
            JsonView::Bool(b) => value matches OtelValue::Bool(c) && c == b,
            JsonView::Number { number: JsonNumber::PosInt(n), .. } => {
                if n < 0x8000_0000_0000_0000 {
                    value matches OtelValue::I64(i) && i == n
                } else {
                    value matches OtelValue::F64(bits) && bits == rounded_bits(n as int)
                }
            },
            JsonView::Number { number: JsonNumber::NegInt(n), .. } => value
                matches OtelValue::I64(i) && i == n,
            JsonView::Number { number: JsonNumber::Float(own), .. } => value
                matches OtelValue::F64(bits) && bits == own,
            JsonView::String(s) => value matches OtelValue::String(t) && t@ == s,
            JsonView::Nested(text) => value matches OtelValue::String(t) && t@ == text,
        },
{
}

/// Arrays and objects are exported as the JSON text that they print as.
pub proof fn nested_value_becomes_its_text(text: Seq<char>)
    ensures
        otel_value(reading(JsonView::Nested(text))) == OtelView::String(text),
{
}

/// No attribute is dropped, merged or moved: the exported span lists every attribute of the
/// start and then every one of the end, each under its key and by itself.
pub proof fn no_attribute_is_dropped(start: SpanStartView, end: SpanEndView)
    ensures
        span_of(start, end).attributes.len() == start.attributes.len()
            + end.additional_attributes.len(),
        forall|i: int|
            0 <= i < start.attributes.len() ==> (#[trigger] span_of(start, end).attributes[i]) == (
                start.attributes[i].0,
                otel_value(start.attributes[i].1),
            ),
        forall|i: int|
            0 <= i < end.additional_attributes.len() ==> span_of(start, end).attributes[start.attributes.len()
                + i] == (
                (#[trigger] end.additional_attributes[i]).0,
                otel_value(end.additional_attributes[i].1),
            ),
{
    let opened = otel_attributes(start.attributes);
    let closed = otel_attributes(end.additional_attributes);
    assert forall|i: int| 0 <= i < end.additional_attributes.len() implies span_of(
        start,
        end,
    ).attributes[start.attributes.len() + i] == (
        (#[trigger] end.additional_attributes[i]).0,
        otel_value(end.additional_attributes[i].1),
    ) by {
        assert((opened + closed)[opened.len() + i] == closed[i]);
    }
}

/// A later list decides where it has the key.
proof fn last_value_of_concatenation<A, B>(a: Seq<(A, B)>, b: Seq<(A, B)>, k: A)
    ensures
        has_key(b, k) ==> last_value(a + b, k) == last_value(b, k),
        !has_key(b, k) ==> last_value(a + b, k) == last_value(a, k),
    decreases b.len(),
{
    if b.len() == 0 {
        assert(a + b =~= a);
    } else {
        assert((a + b).last() == b.last());
        assert((a + b).drop_last() =~= a + b.drop_last());
        if b.last().0 == k {
            assert(b[b.len() - 1].0 == k);
        } else {
            last_value_of_concatenation(a, b.drop_last(), k);
            if has_key(b, k) {
                let i = choose|i: int| 0 <= i < b.len() && (#[trigger] b[i]).0 == k;
                assert(b.drop_last()[i].0 == k);
            }
            if has_key(b.drop_last(), k) {
                let i = choose|i: int|
                    0 <= i < b.drop_last().len() && (#[trigger] b.drop_last()[i]).0 == k;
                assert(b[i].0 == k);
            }
        }
    }
}

/// In an ascending list every value is the last one under its key.
proof fn last_value_of_ascending<K: MapKey, B>(s: Seq<(K::V, B)>, i: int)
    requires
        ascending::<K, B>(s),
        0 <= i < s.len(),
    ensures
        last_value(s, s[i].0) == s[i].1,
    decreases s.len(),
{
    if i < s.len() - 1 {
        K::before_irreflexive(s[i].0);
        assert(K::before(s[i].0, s[s.len() - 1].0));
        assert(ascending::<K, B>(s.drop_last())) by {
            assert forall|p: int, q: int| 0 <= p < q < s.drop_last().len() implies K::before(
                (#[trigger] s.drop_last()[p]).0,
                (#[trigger] s.drop_last()[q]).0,
            ) by {
                assert(s.drop_last()[p] == s[p] && s.drop_last()[q] == s[q]);
            }
        }
        last_value_of_ascending::<K, B>(s.drop_last(), i);
    }
}

/// Every resource attribute that the operator declares is on every span, with its value.
pub proof fn declared_attribute_is_stamped(
    pipeline: PipelineView,
    config: ConfigView,
    i: int,
)
    requires
        ascending::<String, Seq<char>>(config.resource_attributes),
        built_from(pipeline, config),
        0 <= i < config.resource_attributes.len(),
    ensures
        provider_resource(pipeline.provider).contains_pair(
            config.resource_attributes[i].0,
            config.resource_attributes[i].1,
        ),
{
    let all = configured_attributes(config);
    let declared = config.resource_attributes;
    let fixed = all.take(all.len() - declared.len());
    assert(all =~= fixed + declared);
    let k = declared[i].0;
    assert(has_key(declared, k));
    assert(all[fixed.len() + i].0 == k);
    assert(has_key(all, k));
    last_value_of_concatenation(fixed, declared, k);
    last_value_of_ascending::<String, Seq<char>>(declared, i);
}

/// The service's name is on every span, unless the operator declares a resource attribute
/// under its key.
pub proof fn service_name_is_stamped(pipeline: PipelineView, config: ConfigView)
    requires
        built_from(pipeline, config),
        !has_key(config.resource_attributes, SERVICE_NAME_KEY@),
    ensures
        provider_resource(pipeline.provider).contains_pair(SERVICE_NAME_KEY@, config.service_name),
{
    reveal_strlit("service.name");
    reveal_strlit("service.version");
    let all = configured_attributes(config);
    let declared = config.resource_attributes;
    let name = seq![(SERVICE_NAME_KEY@, config.service_name)];
    let version = all.subrange(1, all.len() - declared.len());
    assert(all =~= name + version + declared);
    assert(all[0].0 == SERVICE_NAME_KEY@);
    assert(has_key(all, SERVICE_NAME_KEY@));
    assert(SERVICE_NAME_KEY@.len() == 12 && SERVICE_VERSION_KEY@.len() == 15);
    assert(!has_key(version, SERVICE_NAME_KEY@));
    last_value_of_concatenation(name + version, declared, SERVICE_NAME_KEY@);
    last_value_of_concatenation(name, version, SERVICE_NAME_KEY@);
}

/// The service's version, where one is configured, is on every span, unless the operator
/// declares a resource attribute under its key.
pub proof fn service_version_is_stamped(
    pipeline: PipelineView,
    config: ConfigView,
    version: Seq<char>,
)
    requires
        built_from(pipeline, config),
        config.service_version == Some(version),
        !has_key(config.resource_attributes, SERVICE_VERSION_KEY@),
    ensures
        provider_resource(pipeline.provider).contains_pair(SERVICE_VERSION_KEY@, version),
{
    let all = configured_attributes(config);
    let declared = config.resource_attributes;
    let fixed = all.take(2);
    assert(all =~= fixed + declared);
    assert(all[1].0 == SERVICE_VERSION_KEY@);
    assert(has_key(all, SERVICE_VERSION_KEY@));
    last_value_of_concatenation(fixed, declared, SERVICE_VERSION_KEY@);
    assert(fixed.last() == (SERVICE_VERSION_KEY@, version));
}

/// Every configured attribute is on every span and in the pipeline's resource, unless a later
/// one with the same key replaces it there.
pub proof fn last_configured_attribute_is_stamped(
    pipeline: PipelineView,
    config: ConfigView,
    i: int,
)
    requires
        built_from(pipeline, config),
        0 <= i < configured_attributes(config).len(),
        forall|j: int|
            i < j < configured_attributes(config).len() ==> (
            #[trigger] configured_attributes(config)[j]).0 != configured_attributes(config)[i].0,
    ensures
        provider_resource(pipeline.provider).contains_pair(
            configured_attributes(config)[i].0,
            configured_attributes(config)[i].1,
        ),
        pipeline.resource.contains_pair(
            configured_attributes(config)[i].0,
            configured_attributes(config)[i].1,
        ),
{
    let all = configured_attributes(config);
    last_pair_of_a_key_is_held(provider_resource(pipeline.provider), all, i);
    last_pair_of_a_key_is_held(pipeline.resource, all, i);
}

/// Without a provider a flush succeeds, whatever its timeout.
pub proof fn flush_without_provider_succeeds(
    timeout_ms: u64,
    event: FlushEvent,
    reply: Result<(), TelemetryError>,
)
    requires
        can_follow(flush_plan(false, timeout_ms), event),
        is_flush_reply(event, reply),
    ensures
        reply is Ok,
        flush_outcome(event) == FlushOutcome::NoProvider,
{
}

/// A flush times out only where its caller set a deadline: with a timeout of zero it never
/// does.
pub proof fn timeout_needs_deadline(
    has_provider: bool,
    timeout_ms: u64,
    event: FlushEvent,
    reply: Result<(), TelemetryError>,
)
    requires
        can_follow(flush_plan(has_provider, timeout_ms), event),
        is_flush_reply(event, reply),
        reply matches Err(TelemetryError::Timeout),
    ensures
        has_provider,
        timeout_ms > 0,
        flush_outcome(event) == FlushOutcome::Timeout,
{
}

/// A deadline is honoured however short it is: a flush that is given any time but zero waits
/// for the drain only so long, and its caller is told of a timeout when the time is up.
pub proof fn nonzero_duration_is_a_deadline(
    nanos: nat,
    timeout_ms: u64,
    reply: Result<(), TelemetryError>,
)
    requires
        nanos > 0,
        timeout_ms == timeout_of(nanos),
        is_flush_reply(FlushEvent::DeadlinePassed, reply),
    ensures
        flush_plan(true, timeout_ms) == FlushPlan::DrainWithin(timeout_ms),
        can_follow(flush_plan(true, timeout_ms), FlushEvent::DeadlinePassed),
        reply matches Err(TelemetryError::Timeout),
{
}

/// The caller of a flush is told of success exactly when it is counted as a success or as
/// having had no provider.
pub proof fn flush_reply_matches_count(event: FlushEvent, reply: Result<(), TelemetryError>)
    requires
        is_flush_reply(event, reply),
    ensures
        reply is Ok <==> flush_outcome(event) == FlushOutcome::Success || flush_outcome(event)
            == FlushOutcome::NoProvider,
{
}

/// A sink that has just been set up has the configuration it was given, no provider and nothing
/// pending, so the end of any span is an orphan to it and changes nothing.
pub proof fn fresh_sink_knows_no_span(
    sink: SinkView,
    config: OtlpSinkConfig,
    span: SpanEnd,
    outcome: SpanOutcome,
    after: SinkView,
)
    requires
        sink.is_fresh(config@),
        sink.after_end(span@, outcome, after),
    ensures
        sink.config == config@,
        sink.pipeline is None,
        forall|k: (Seq<char>, Seq<char>)| !(#[trigger] sink.pending.dom().contains(k)),
        outcome is DroppedOrphan,
        after == sink,
{
}

/// Looking for a provider touches nothing but the provider. One that is there stays; an empty
/// endpoint, and nothing else, is reported as such; a provider is reported exactly if there is
/// one afterwards, a new one goes to the configured endpoint with the configured timeout, and
/// a failed build is reported with the fixed words and then those of the exporter's error.
pub proof fn ensuring_is_exact(before: SinkView, status: ProviderStatus, after: SinkView)
    requires
        before.after_ensuring(status, after),
    ensures
        after.pending == before.pending,
        after.config == before.config,
        after.manifest == before.manifest,
        before.pipeline is Some ==> status is Ready && after.pipeline == before.pipeline,
        status is Ready <==> after.pipeline is Some,
        status is MissingUrl <==> before.pipeline is None && before.config.url.len() == 0,
        before.pipeline is None && status is Ready ==> after.pipeline->0.endpoint
            == before.config.url && after.pipeline->0.timeout_ms
            == before.config.batch_export_timeout_ms,
        status matches ProviderStatus::BuildFailed(reason) ==> exists|
            error: TraceError,
            text: String,
        | #[trigger]
            to_string_from_display_ensures(&error, text) && reason@
                == "OTLP exporter build failed: "@ + text@,
{
}

/// Without a provider and with an endpoint, the runtime that the calling thread is in decides,
/// and then the exporter, whatever else is configured: outside of any runtime there is no
/// provider for want of one, and for no other reason; inside of one, an exporter was asked for
/// there with the configured endpoint and timeout, and there is a provider exactly if it could
/// be built.
pub proof fn runtime_then_exporter_decide(
    before: SinkView,
    runtime: Option<Handle>,
    status: ProviderStatus,
    after: SinkView,
)
    requires
        before.pipeline is None,
        before.config.url.len() > 0,
        before.ensured_in(runtime, status, after),
    ensures
        runtime is None <==> status is NoRuntime,
        runtime matches Some(handle) ==> exists|built: Result<OtlpExporter, TraceError>| #[trigger]
            came_of_asking(
                handle,
                before.config.url,
                before.config.batch_export_timeout_ms,
                built,
            ) && (built is Ok <==> status is Ready) && (built is Err <==> status is BuildFailed)
                && (built is Ok ==> after.pipeline is Some),
{
    if let Some(handle) = runtime {
        let settled = choose|settled: Result<TracePipeline, String>| #[trigger]
            came_of_building(before.config, handle, settled) && match settled {
                Ok(pipeline) => status is Ready && after.pipeline == Some(pipeline@),
                Err(reason) => status matches ProviderStatus::BuildFailed(told) && told@
                    == reason@,
            };
        assert(came_of_building(before.config, handle, settled));
    }
}

/// Whether the want of a runtime is reported depends on the runtime alone: of two sinks that
/// each need a provider and name an endpoint, in one runtime or outside of any, both report it
/// or neither does.
pub proof fn want_of_runtime_is_the_runtimes(
    a: SinkView,
    a_status: ProviderStatus,
    a_after: SinkView,
    b: SinkView,
    b_status: ProviderStatus,
    b_after: SinkView,
    runtime: Option<Handle>,
)
    requires
        a.pipeline is None && a.config.url.len() > 0,
        b.pipeline is None && b.config.url.len() > 0,
        a.ensured_in(runtime, a_status, a_after),
        b.ensured_in(runtime, b_status, b_after),
    ensures
        a_status is NoRuntime <==> b_status is NoRuntime,
{
    runtime_then_exporter_decide(a, runtime, a_status, a_after);
    runtime_then_exporter_decide(b, runtime, b_status, b_after);
}

/// What an end came to for want of a provider is what looking for one came to, and an exported
/// span had one.
pub proof fn outcome_tells_the_status(outcome: SpanOutcome)
    ensures
        outcome is Exported ==> outcome.provider_status() is Ready,
        outcome matches SpanOutcome::DroppedNoProvider(status) ==> outcome.provider_status()
            == status,
{
}

/// Opening a span puts its start under its trace id and span id and touches no other pending
/// start; a provider is looked for first, and reported exactly if there is one afterwards.
pub proof fn start_waits_under_its_ids(
    before: SinkView,
    span: SpanStart,
    status: ProviderStatus,
    after: SinkView,
)
    requires
        before.after_start(span@, status, after),
    ensures
        after.pending == before.pending.insert((span.trace_id@, span.span_id@), span@),
        status is Ready <==> after.pipeline is Some,
        status is MissingUrl <==> before.pipeline is None && before.config.url.len() == 0,
        before.pipeline is Some ==> after.pipeline == before.pipeline,
{
    let ensured = after.with_pending(before.pending);
    ensuring_is_exact(before, status, ensured);
    assert(ensured.pipeline == after.pipeline);
}

/// Opening a span leaves the start of every span with another trace id or another span id as it
/// is.
pub proof fn start_leaves_other_ids(
    before: SinkView,
    span: SpanStart,
    status: ProviderStatus,
    after: SinkView,
    trace_id: Seq<char>,
    span_id: Seq<char>,
)
    requires
        before.after_start(span@, status, after),
        trace_id != span.trace_id@ || span_id != span.span_id@,
    ensures
        after.pending.dom().contains((trace_id, span_id)) <==> before.pending.dom().contains(
            (trace_id, span_id),
        ),
        before.pending.dom().contains((trace_id, span_id)) ==> after.pending[(trace_id, span_id)]
            == before.pending[(trace_id, span_id)],
{
}

/// Two spans with different ids wait side by side, each with its own start.
pub proof fn two_spans_wait_side_by_side(
    before: SinkView,
    a: SpanStart,
    a_status: ProviderStatus,
    between: SinkView,
    b: SpanStart,
    b_status: ProviderStatus,
    after: SinkView,
)
    requires
        before.after_start(a@, a_status, between),
        between.after_start(b@, b_status, after),
        a.trace_id@ != b.trace_id@ || a.span_id@ != b.span_id@,
    ensures
        after.pending.contains_pair((a.trace_id@, a.span_id@), a@),
        after.pending.contains_pair((b.trace_id@, b.span_id@), b@),
{
}

/// Closing a span takes the start under its trace id and span id and touches no other. It is
/// an orphan exactly if none waits there, and then nothing changes. Otherwise it is exported
/// exactly if there is a provider afterwards; one that was there before stays.
pub proof fn end_takes_the_start_of_its_ids(
    before: SinkView,
    span: SpanEnd,
    outcome: SpanOutcome,
    after: SinkView,
)
    requires
        before.after_end(span@, outcome, after),
    ensures
        after.pending == before.pending.remove((span.trace_id@, span.span_id@)),
        outcome is DroppedOrphan <==> !before.pending.dom().contains(
            (span.trace_id@, span.span_id@),
        ),
        outcome is DroppedOrphan ==> after == before,
        !(outcome is DroppedOrphan) ==> (outcome is Exported <==> after.pipeline is Some),
        before.pipeline is Some ==> after.pipeline == before.pipeline,
        outcome == SpanOutcome::DroppedNoProvider(ProviderStatus::MissingUrl) ==> before.pipeline
            is None && before.config.url.len() == 0,
        after.config == before.config,
        after.manifest == before.manifest,
{
    assert(after.pending =~= before.pending.remove((span.trace_id@, span.span_id@)));
}

/// Closing a span leaves the start of every span with another trace id or another span id as it
/// is.
pub proof fn end_leaves_other_ids(
    before: SinkView,
    span: SpanEnd,
    outcome: SpanOutcome,
    after: SinkView,
    trace_id: Seq<char>,
    span_id: Seq<char>,
)
    requires
        before.after_end(span@, outcome, after),
        trace_id != span.trace_id@ || span_id != span.span_id@,
    ensures
        after.pending.dom().contains((trace_id, span_id)) <==> before.pending.dom().contains(
            (trace_id, span_id),
        ),
        before.pending.dom().contains((trace_id, span_id)) ==> after.pending[(trace_id, span_id)]
            == before.pending[(trace_id, span_id)],
{
}

/// A span that was opened and is closed while there is a provider is exported, with the name,
/// kind, start time and attributes of its start and the end time, status and further attributes
/// of its end.
pub proof fn opened_then_closed_is_exported(
    before: SinkView,
    start: SpanStart,
    status: ProviderStatus,
    between: SinkView,
    end: SpanEnd,
    outcome: SpanOutcome,
    after: SinkView,
)
    requires
        start.trace_id@ == end.trace_id@,
        start.span_id@ == end.span_id@,
        before.after_start(start@, status, between),
        between.after_end(end@, outcome, after),
    ensures
        outcome is Exported <==> after.pipeline is Some,
        between.pipeline is Some ==> outcome is Exported,
        !(outcome is DroppedOrphan),
        outcome matches SpanOutcome::Exported(record) ==> {
            &&& record.name@ == start.name@
            &&& record.kind == otel_kind(start.kind)
            &&& record.start_time == epoch_plus_nanos(start.start_ns)
            &&& record.end_time == epoch_plus_nanos(end.end_ns)
            &&& record.status@ == end.status@
            &&& record.attributes@.len() == start.attributes.pairs().len()
                + end.additional_attributes.pairs().len()
        },
        !after.pending.dom().contains((start.trace_id@, start.span_id@)),
{
    end_meets_start(before, start@, status, between, end@, outcome, after);
    if let SpanOutcome::Exported(record) = outcome {
        span_has_its_parts(start, end, record);
    }
}

/// A consistent sink keeps every start under its own trace id and span id, and a provider that
/// goes to the configured endpoint with the configured timeout.
pub proof fn consistent_means_filed_by_ids(sink: SinkView, trace_id: Seq<char>, span_id: Seq<char>)
    requires
        sink.is_consistent(),
    ensures
        sink.pending.dom().contains((trace_id, span_id)) ==> sink.pending[(
            trace_id,
            span_id,
        )].trace_id == trace_id && sink.pending[(trace_id, span_id)].span_id == span_id,
        sink.pipeline matches Some(pipeline) ==> pipeline.endpoint == sink.config.url
            && pipeline.timeout_ms == sink.config.batch_export_timeout_ms,
{
}

/// Each span outcome is counted under its own name.
pub proof fn span_labels_name_the_outcome(outcome: SpanOutcome)
    ensures
        outcome is Exported ==> outcome.spec_label() == "exported"@,
        outcome is DroppedOrphan ==> outcome.spec_label() == "dropped_orphan"@,
        outcome is DroppedNoProvider ==> outcome.spec_label() == "dropped_no_provider"@,
{
}

} // verus!
