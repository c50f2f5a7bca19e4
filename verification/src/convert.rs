//! From gateway events to OpenTelemetry spans.

use std::time::SystemTime;

use vstd::prelude::*;

use crate::json::{json_view, read_json, reading, JsonReading, JsonValue};
use crate::protocol::{Attributes, SpanEnd, SpanKind, SpanStart, SpanStatus};
use crate::protocol::{SpanEndView, SpanStartView, StatusView};

verus! {

/// `std::time::SystemTime`, carried from the clock conversion to the exporter.
#[verifier::external_type_specification]
#[verifier::external_body]
pub struct ExSystemTime(SystemTime);

/// The system time that lies `ns` nanoseconds after the Unix epoch, as precisely as the
/// platform's `SystemTime` can say it.
pub uninterp spec fn epoch_plus_nanos(ns: u64) -> SystemTime;

/// `SystemTime::UNIX_EPOCH + Duration`: the point in time that lies the given duration after
/// the epoch. No `u64` of nanoseconds reaches beyond what a `SystemTime` holds.
#[verifier::external_body]
fn after_epoch(ns: u64) -> (time: SystemTime)
    ensures
        time == epoch_plus_nanos(ns),
{
    std::time::UNIX_EPOCH + std::time::Duration::from_nanos(ns)
}

/// The system time of a timestamp in nanoseconds since the Unix epoch.
pub fn ns_to_systemtime(ns: u64) -> (time: SystemTime)
    ensures
        time == epoch_plus_nanos(ns),
{
    after_epoch(ns)
}

/// The status of an exported span.
#[derive(Debug)]
pub enum OtelStatus {
    Unset,
    Okay,
    Error { description: String },
}

impl View for OtelStatus {
    type V = StatusView;

    open spec fn view(&self) -> StatusView {
        match self {
            OtelStatus::Unset => StatusView::Unset,
            OtelStatus::Okay => StatusView::Okay,
            OtelStatus::Error { description } => StatusView::Error(description@),
        }
    }
}

/// The status under which a span is exported: its own, with the message of an error as the
/// description.
pub fn convert_status(status: &SpanStatus) -> (converted: OtelStatus)
    ensures
        converted@ == status@,
{
    match status {
        SpanStatus::Okay => OtelStatus::Okay,
        SpanStatus::Error { message } => OtelStatus::Error { description: message.clone() },
        SpanStatus::Unset => OtelStatus::Unset,
    }
}

/// The kind of an exported span.
#[derive(Clone, Copy, Debug, PartialEq, Eq, Structural)]
pub enum OtelSpanKind {
    Internal,
    Server,
    Client,
    Producer,
    Consumer,
}

/// The OpenTelemetry kind of the same name.
pub open spec fn otel_kind(kind: SpanKind) -> OtelSpanKind {
    match kind {
        SpanKind::Internal => OtelSpanKind::Internal,
        SpanKind::Server => OtelSpanKind::Server,
        SpanKind::Client => OtelSpanKind::Client,
        SpanKind::Producer => OtelSpanKind::Producer,
        SpanKind::Consumer => OtelSpanKind::Consumer,
    }
}

/// The kind under which a span is exported.
pub fn convert_kind(kind: SpanKind) -> (converted: OtelSpanKind)
    ensures
        converted == otel_kind(kind),
{
    match kind {
        SpanKind::Internal => OtelSpanKind::Internal,
        SpanKind::Server => OtelSpanKind::Server,
        SpanKind::Client => OtelSpanKind::Client,
        SpanKind::Producer => OtelSpanKind::Producer,
        SpanKind::Consumer => OtelSpanKind::Consumer,
    }
}

/// The value of an exported attribute. A float is held by its bits.
#[derive(Debug)]
pub enum OtelValue {
    Bool(bool),
    I64(i64),
    F64(u64),
    String(String),
}

/// What an [`OtelValue`] says.
pub enum OtelView {
    Bool(bool),
    I64(i64),
    F64(u64),
    String(Seq<char>),
}

impl View for OtelValue {
    type V = OtelView;

    open spec fn view(&self) -> OtelView {
        match self {
            OtelValue::Bool(b) => OtelView::Bool(*b),
            OtelValue::I64(i) => OtelView::I64(*i),
            OtelValue::F64(bits) => OtelView::F64(*bits),
            OtelValue::String(s) => OtelView::String(s@),
        }
    }
}

/// The attribute value that a JSON value becomes: booleans and strings as they are, `null`
/// the empty string, a number an integer where it is one in range and else a float, an array
/// or an object its JSON text.
pub open spec fn otel_value(json: JsonReading) -> OtelView {
    match json {
        JsonReading::Null => OtelView::String(Seq::empty()),
        JsonReading::Bool(b) => OtelView::Bool(b),
        JsonReading::Number { integer: Some(i), .. } => OtelView::I64(i),
        JsonReading::Number { integer: None, float_bits: Some(bits), .. } => OtelView::F64(bits),
        JsonReading::Number { integer: None, float_bits: None, text } => OtelView::String(text),
        JsonReading::String(s) => OtelView::String(s),
        JsonReading::Nested(text) => OtelView::String(text),
    }
}

/// Converts what was read of a JSON value.
pub fn convert_value(json: &JsonValue) -> (value: OtelValue)
    ensures
        value@ == otel_value(json@),
{
    match json {
        JsonValue::Null => OtelValue::String(String::new()),
        JsonValue::Bool(b) => OtelValue::Bool(*b),
        JsonValue::Number { integer, float_bits, text } => {
            if let Some(i) = integer {
                OtelValue::I64(*i)
            } else if let Some(bits) = float_bits {
                OtelValue::F64(*bits)
            } else {
                OtelValue::String(text.clone())
            }
        },
        JsonValue::String(s) => OtelValue::String(s.clone()),
        JsonValue::Nested(text) => OtelValue::String(text.clone()),
    }
}

/// Converts a JSON value.
pub fn serde_json_to_otel_value(value: &serde_json::Value) -> (converted: OtelValue)
    ensures
        converted@ == otel_value(reading(json_view(*value))),
{
    convert_value(&read_json(value))
}

/// A finished span, ready to be handed to the exporter.
#[derive(Debug)]
pub struct SpanRecord {
    pub name: String,
    pub kind: OtelSpanKind,
    pub start_time: SystemTime,
    pub end_time: SystemTime,
    pub status: OtelStatus,
    pub attributes: Vec<(String, OtelValue)>,
}

/// What a [`SpanRecord`] says.
pub struct SpanRecordView {
    pub name: Seq<char>,
    pub kind: OtelSpanKind,
    pub start_time: SystemTime,
    pub end_time: SystemTime,
    pub status: StatusView,
    pub attributes: Seq<(Seq<char>, OtelView)>,
}

/// The attributes that a vector of pairs lists.
pub open spec fn attribute_list(pairs: Seq<(String, OtelValue)>) -> Seq<(Seq<char>, OtelView)> {
    pairs.map_values(|pair: (String, OtelValue)| (pair.0@, pair.1@))
}

impl View for SpanRecord {
    type V = SpanRecordView;

    open spec fn view(&self) -> SpanRecordView {
        SpanRecordView {
            name: self.name@,
            kind: self.kind,
            start_time: self.start_time,
            end_time: self.end_time,
            status: self.status@,
            attributes: attribute_list(self.attributes@),
        }
    }
}

/// The attributes of an event, converted one by one.
pub open spec fn otel_attributes(attributes: Seq<(Seq<char>, JsonReading)>) -> Seq<
    (Seq<char>, OtelView),
> {
    attributes.map_values(|pair: (Seq<char>, JsonReading)| (pair.0, otel_value(pair.1)))
}

/// The span that a start and its end make: name, kind and start time of the start, end time
/// and status of the end, the attributes of the start and then those of the end.
pub open spec fn span_of(start: SpanStartView, end: SpanEndView) -> SpanRecordView {
    SpanRecordView {
        name: start.name,
        kind: otel_kind(start.kind),
        start_time: epoch_plus_nanos(start.start_ns),
        end_time: epoch_plus_nanos(end.end_ns),
        status: end.status,
        attributes: otel_attributes(start.attributes) + otel_attributes(end.additional_attributes),
    }
}

/// Appends the converted attributes of an event, in key order.
fn append_attributes(list: &mut Vec<(String, OtelValue)>, attributes: &Attributes)
    ensures
        attribute_list(final(list)@) == attribute_list(old(list)@) + otel_attributes(
            attributes.pairs(),
        ),
{
    let ghost before = attribute_list(list@);
    let ghost added = otel_attributes(attributes.pairs());
    let count = attributes.len();
    let mut at: usize = 0;
    assert(before + added.take(0) =~= before);
    while at < count
        invariant
            at <= count,
            count == attributes.pairs().len(),
            added == otel_attributes(attributes.pairs()),
            attribute_list(list@) == before + added.take(at as int),
        decreases count - at,
    {
        let (key, value) = attributes.entry(at);
        let ghost listed = list@;
        let converted = convert_value(value);
        let ghost pair = (key@, converted@);
        list.push((key.clone(), converted));
        proof {
            assert(pair == added[at as int]);
            assert(attribute_list(list@) =~= attribute_list(listed).push(pair));
            assert(added.take(at + 1) =~= added.take(at as int).push(pair));
        }
        at = at + 1;
    }
    assert(added.take(count as int) =~= added);
}

/// Puts a span together from its start and its end.
pub fn assemble_span(start: &SpanStart, end: &SpanEnd) -> (span: SpanRecord)
    ensures
        span@ == span_of(start@, end@),
        span.name@ == start.name@,
        span.kind == otel_kind(start.kind),
        span.start_time == epoch_plus_nanos(start.start_ns),
        span.end_time == epoch_plus_nanos(end.end_ns),
        span.status@ == end.status@,
        span.attributes@.len() == start.attributes.pairs().len()
            + end.additional_attributes.pairs().len(),
{
    let mut attributes: Vec<(String, OtelValue)> = Vec::new();
    append_attributes(&mut attributes, &start.attributes);
    append_attributes(&mut attributes, &end.additional_attributes);
    assert(attribute_list(attributes@) =~= otel_attributes(start.attributes.pairs())
        + otel_attributes(end.additional_attributes.pairs()));
    assert(attributes@.len() == attribute_list(attributes@).len());
    SpanRecord {
        name: start.name.clone(),
        kind: convert_kind(start.kind),
        start_time: ns_to_systemtime(start.start_ns),
        end_time: ns_to_systemtime(end.end_ns),
        status: convert_status(&end.status),
        attributes,
    }
}

/// A status is exported as what it is, an error with its message.
pub proof fn status_stays_itself(status: SpanStatus, converted: OtelStatus)
    requires
        converted@ == status@,
    ensures
        status is Unset <==> converted is Unset,
        status is Okay <==> converted is Okay,
        status is Error <==> converted is Error,
        status matches SpanStatus::Error { message } ==> converted
            matches OtelStatus::Error { description } && description@ == message@,
{
}

/// A kind is exported under its own name.
pub proof fn kind_keeps_its_name(kind: SpanKind)
    ensures
        kind is Internal <==> otel_kind(kind) is Internal,
        kind is Server <==> otel_kind(kind) is Server,
        kind is Client <==> otel_kind(kind) is Client,
        kind is Producer <==> otel_kind(kind) is Producer,
        kind is Consumer <==> otel_kind(kind) is Consumer,
{
}

/// What a value that was read is exported as: a boolean or a string as it is, `null` as the
/// empty string, a number as its integer if it has one, else as its float if it has one, else
/// as its text, and an array or an object as its text.
pub proof fn value_keeps_what_it_holds(json: JsonValue, value: OtelValue)
    requires
        value@ == otel_value(json@),
    ensures
        match json {
            JsonValue::Null => value matches OtelValue::String(t) && t@.len() == 0,
            JsonValue::Bool(b) => value matches OtelValue::Bool(c) && c == b,
            JsonValue::Number { integer, float_bits, text } => {
                &&& value is I64 <==> integer is Some
                &&& value is F64 <==> integer is None && float_bits is Some
                &&& value is String <==> integer is None && float_bits is None
                &&& value matches OtelValue::I64(i) ==> integer == Some(i)
                &&& value matches OtelValue::F64(bits) ==> float_bits == Some(bits)
                &&& value matches OtelValue::String(t) ==> t@ == text@
            },
            JsonValue::String(s) => value matches OtelValue::String(t) && t@ == s@,
            JsonValue::Nested(s) => value matches OtelValue::String(t) && t@ == s@,
        },
{
}

/// A span has the name and the kind of its start, begins when the start says and ends when the
/// end says, has the status of the end, and lists the attributes of the start and then those of
/// the end, each by itself under its key.
pub proof fn span_has_its_parts(start: SpanStart, end: SpanEnd, span: SpanRecord)
    requires
        span@ == span_of(start@, end@),
    ensures
        span.name@ == start.name@,
        span.kind == otel_kind(start.kind),
        span.start_time == epoch_plus_nanos(start.start_ns),
        span.end_time == epoch_plus_nanos(end.end_ns),
        span.status@ == end.status@,
        span.attributes@.len() == start.attributes.pairs().len()
            + end.additional_attributes.pairs().len(),
        forall|i: int|
            0 <= i < start.attributes.pairs().len() ==> {
                &&& (#[trigger] span.attributes@[i]).0@ == start.attributes.pairs()[i].0
                &&& span.attributes@[i].1@ == otel_value(start.attributes.pairs()[i].1)
            },
        forall|i: int|
            start.attributes.pairs().len() <= i < span.attributes@.len() ==> {
                let from = end.additional_attributes.pairs()[i - start.attributes.pairs().len()];
                &&& (#[trigger] span.attributes@[i]).0@ == from.0
                &&& span.attributes@[i].1@ == otel_value(from.1)
            },
{
    let listed = attribute_list(span.attributes@);
    assert(listed == span@.attributes);
    assert(listed.len() == span.attributes@.len());
    assert forall|i: int| 0 <= i < listed.len() implies (#[trigger] span.attributes@[i]).0@
        == span@.attributes[i].0 && span.attributes@[i].1@ == span@.attributes[i].1 by {
        assert(listed[i] == (span.attributes@[i].0@, span.attributes@[i].1@));
    }
}

/// The two times of a span depend on nothing but the two timestamps: a start with the same
/// timestamp begins a span at the same time, and an end with the same timestamp ends one at the
/// same time, whatever else differs.
pub proof fn times_follow_the_timestamps(
    start: SpanStartView,
    end: SpanEndView,
    other_start: SpanStartView,
    other_end: SpanEndView,
)
    ensures
        start.start_ns == other_start.start_ns ==> span_of(start, end).start_time == span_of(
            other_start,
            other_end,
        ).start_time,
        end.end_ns == other_end.end_ns ==> span_of(start, end).end_time == span_of(
            other_start,
            other_end,
        ).end_time,
        span_of(start, end).start_time == epoch_plus_nanos(start.start_ns),
        span_of(start, end).end_time == epoch_plus_nanos(end.end_ns),
        span_of(start, end).name == start.name,
        span_of(start, end).kind == otel_kind(start.kind),
        span_of(start, end).status == end.status,
{
}

} // verus!
