//! The telemetry events that the gateway hands to the sink, and what the sink says of itself.

use vstd::prelude::*;

use crate::json::{JsonValue, JsonReading};
use crate::key_order::{order_text, text_before, text_before_irreflexive};
use crate::key_order::{text_before_transitive, KeyOrder, MapKey};
use crate::ordmap::{clone_keeps_view, OrdMap};

verus! {

/// The role of a span in its trace.
#[derive(Clone, Copy, Debug, PartialEq, Eq, Structural)]
pub enum SpanKind {
    Internal,
    Server,
    Client,
    Producer,
    Consumer,
}

/// How the operation that a span describes went.
#[derive(Debug)]
pub enum SpanStatus {
    Unset,
    Okay,
    Error { message: String },
}

/// A span status, with the message of an error.
pub enum StatusView {
    Unset,
    Okay,
    Error(Seq<char>),
}

impl View for SpanStatus {
    type V = StatusView;

    open spec fn view(&self) -> StatusView {
        match self {
            SpanStatus::Unset => StatusView::Unset,
            SpanStatus::Okay => StatusView::Okay,
            SpanStatus::Error { message } => StatusView::Error(message@),
        }
    }
}

/// Attributes of a span, by key.
pub type Attributes = OrdMap<String, JsonValue>;

/// What identifies a span: the pair of its trace id and its span id.
#[derive(Debug)]
pub struct SpanKey {
    pub trace_id: String,
    pub span_id: String,
}

impl View for SpanKey {
    type V = (Seq<char>, Seq<char>);

    open spec fn view(&self) -> (Seq<char>, Seq<char>) {
        (self.trace_id@, self.span_id@)
    }
}

impl MapKey for SpanKey {
    open spec fn before(a: (Seq<char>, Seq<char>), b: (Seq<char>, Seq<char>)) -> bool {
        text_before(a.0, b.0) || (a.0 == b.0 && text_before(a.1, b.1))
    }

    proof fn before_irreflexive(a: (Seq<char>, Seq<char>)) {
        text_before_irreflexive(a.0);
        text_before_irreflexive(a.1);
    }

    proof fn before_transitive(
        a: (Seq<char>, Seq<char>),
        b: (Seq<char>, Seq<char>),
        c: (Seq<char>, Seq<char>),
    ) {
        if text_before(a.0, b.0) && text_before(b.0, c.0) {
            text_before_transitive(a.0, b.0, c.0);
        }
        if text_before(a.1, b.1) && text_before(b.1, c.1) {
            text_before_transitive(a.1, b.1, c.1);
        }
    }

    fn order(&self, other: &SpanKey) -> (order: KeyOrder) {
        let order = match order_text(self.trace_id.as_str(), other.trace_id.as_str()) {
            KeyOrder::Same => order_text(self.span_id.as_str(), other.span_id.as_str()),
            decided => decided,
        };
        proof {
            text_before_irreflexive(self.trace_id@);
        }
        order
    }
}

/// A span has been opened.
#[derive(Debug)]
pub struct SpanStart {
    pub trace_id: String,
    pub span_id: String,
    pub parent_id: Option<String>,
    pub name: String,
    pub kind: SpanKind,
    /// Nanoseconds since the Unix epoch.
    pub start_ns: u64,
    pub attributes: Attributes,
}

/// What a [`SpanStart`] says; attributes in ascending key order.
pub struct SpanStartView {
    pub trace_id: Seq<char>,
    pub span_id: Seq<char>,
    pub parent_id: Option<Seq<char>>,
    pub name: Seq<char>,
    pub kind: SpanKind,
    pub start_ns: u64,
    pub attributes: Seq<(Seq<char>, JsonReading)>,
}

/// The text of an optional string.
pub open spec fn optional_text(text: Option<String>) -> Option<Seq<char>> {
    match text {
        Some(t) => Some(t@),
        None => None,
    }
}

impl View for SpanStart {
    type V = SpanStartView;

    open spec fn view(&self) -> SpanStartView {
        SpanStartView {
            trace_id: self.trace_id@,
            span_id: self.span_id@,
            parent_id: optional_text(self.parent_id),
            name: self.name@,
            kind: self.kind,
            start_ns: self.start_ns,
            attributes: self.attributes.pairs(),
        }
    }
}

impl SpanStartView {
    /// The key under which the span is found again.
    pub open spec fn key(self) -> (Seq<char>, Seq<char>) {
        (self.trace_id, self.span_id)
    }
}

impl Clone for SpanStart {
    fn clone(&self) -> (copy: Self)
        ensures
            copy@ == self@,
    {
        let parent_id = match &self.parent_id {
            Some(id) => Some(id.clone()),
            None => None,
        };
        let attributes = self.attributes.clone();
        assert(clone_keeps_view::<String>());
        assert(clone_keeps_view::<JsonValue>());
        SpanStart {
            trace_id: self.trace_id.clone(),
            span_id: self.span_id.clone(),
            parent_id,
            name: self.name.clone(),
            kind: self.kind,
            start_ns: self.start_ns,
            attributes,
        }
    }
}

/// Something that happened while a span was open. The sink exports none of these.
#[derive(Debug)]
pub struct SpanEvent {
    pub name: String,
    /// Nanoseconds since the Unix epoch.
    pub time_ns: u64,
    pub attributes: Attributes,
}

/// A span has been closed.
#[derive(Debug)]
pub struct SpanEnd {
    pub trace_id: String,
    pub span_id: String,
    /// Nanoseconds since the Unix epoch.
    pub end_ns: u64,
    pub status: SpanStatus,
    pub events: Vec<SpanEvent>,
    pub additional_attributes: Attributes,
}

/// What the sink reads of a [`SpanEnd`]; attributes in ascending key order.
pub struct SpanEndView {
    pub trace_id: Seq<char>,
    pub span_id: Seq<char>,
    pub end_ns: u64,
    pub status: StatusView,
    pub additional_attributes: Seq<(Seq<char>, JsonReading)>,
}

impl View for SpanEnd {
    type V = SpanEndView;

    open spec fn view(&self) -> SpanEndView {
        SpanEndView {
            trace_id: self.trace_id@,
            span_id: self.span_id@,
            end_ns: self.end_ns,
            status: self.status@,
            additional_attributes: self.additional_attributes.pairs(),
        }
    }
}

impl SpanEndView {
    /// The key of the span that is closed.
    pub open spec fn key(self) -> (Seq<char>, Seq<char>) {
        (self.trace_id, self.span_id)
    }
}

/// A recorded metric, by its name.
#[derive(Debug)]
pub struct MetricPoint {
    pub name: String,
}

/// A log line, by its target and its level.
#[derive(Debug)]
pub struct LogRecord {
    pub target: String,
    pub level: String,
}

/// Why a telemetry request was not carried out.
#[derive(Debug)]
pub enum TelemetryError {
    /// The deadline passed first.
    Timeout,
    /// The backend failed.
    Backend { reason: String },
}

/// The kinds of plugin that the gateway loads.
#[derive(Clone, Copy, Debug, PartialEq, Eq, Structural)]
pub enum PluginClass {
    TelemetrySink,
}

/// What a plugin says of itself.
#[derive(Debug)]
pub struct PluginManifest {
    pub id: String,
    pub version: String,
    pub name: String,
    pub plugin_class: PluginClass,
    pub protocol_version: String,
    pub license: Option<String>,
    pub required_capabilities: Vec<String>,
    pub tags: Vec<String>,
    pub provides: Vec<String>,
    pub provides_schemes: Vec<String>,
    pub module_path_prefix: String,
    pub backend_profile: Option<String>,
}

/// Two reports are on one span exactly if both their trace ids and their span ids agree,
/// whether they open it or close it.
pub proof fn ids_identify_a_span(a: SpanStart, b: SpanStart, e: SpanEnd, f: SpanEnd)
    ensures
        a@.key() == b@.key() <==> a.trace_id@ == b.trace_id@ && a.span_id@ == b.span_id@,
        a@.key() == e@.key() <==> a.trace_id@ == e.trace_id@ && a.span_id@ == e.span_id@,
        e@.key() == f@.key() <==> e.trace_id@ == f.trace_id@ && e.span_id@ == f.span_id@,
{
}

/// The keys of spans tell apart whatever their ids tell apart.
pub proof fn keys_tell_ids_apart(a: SpanStartView, b: SpanStartView, e: SpanEndView)
    ensures
        a.key() == b.key() <==> a.trace_id == b.trace_id && a.span_id == b.span_id,
        a.key() == e.key() <==> a.trace_id == e.trace_id && a.span_id == e.span_id,
{
}

/// Two keys are the same exactly if they hold the same trace id and the same span id.
pub proof fn key_holds_both_ids(a: SpanKey, b: SpanKey)
    ensures
        a@ == b@ <==> a.trace_id@ == b.trace_id@ && a.span_id@ == b.span_id@,
{
}

/// The model of a start says of each field what the field holds.
pub proof fn start_is_seen_whole(start: SpanStart)
    ensures
        start@.trace_id == start.trace_id@,
        start@.span_id == start.span_id@,
        start@.name == start.name@,
        start@.kind == start.kind,
        start@.start_ns == start.start_ns,
        start@.attributes == start.attributes.pairs(),
        start@.parent_id is Some <==> start.parent_id is Some,
        start.parent_id matches Some(id) ==> start@.parent_id->0 == id@,
{
}

/// The model of an end says of each field that is exported what the field holds.
pub proof fn end_is_seen_whole(end: SpanEnd)
    ensures
        end@.trace_id == end.trace_id@,
        end@.span_id == end.span_id@,
        end@.end_ns == end.end_ns,
        end@.status == end.status@,
        end@.additional_attributes == end.additional_attributes.pairs(),
{
}

} // verus!
