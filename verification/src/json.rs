//! JSON attribute values, and what the sink reads of them.

use vstd::prelude::*;

verus! {

/// `serde_json::Value`. What one holds is named by [`json_view`].
#[verifier::external_type_specification]
#[verifier::external_body]
pub struct ExJson(serde_json::Value);

/// A JSON number: an integer, not negative or negative, or a float by its bits.
pub enum JsonNumber {
    PosInt(u64),
    NegInt(i64),
    Float(u64),
}

/// What a JSON value holds, as far as the sink can tell values apart.
pub enum JsonView {
    Null,
    Bool(bool),
    /// The number, and the JSON text that it prints as.
    Number { number: JsonNumber, text: Seq<char> },
    String(Seq<char>),
    /// An array or an object, by the compact JSON text that it prints as.
    Nested(Seq<char>),
}

/// The number as an `i64`, if it is an integer in range.
pub open spec fn integer_of(number: JsonNumber) -> Option<i64> {
    match number {
        JsonNumber::PosInt(n) => if n <= i64::MAX {
            Some(n as i64)
        } else {
            None
        },
        JsonNumber::NegInt(n) => Some(n),
        JsonNumber::Float(_) => None,
    }
}

/// The bits of the `f64` that an integer converts to.
pub uninterp spec fn rounded_bits(n: int) -> u64;

/// The bits of the number as an `f64`: its own, or those that the integer rounds to.
pub open spec fn bits_of(number: JsonNumber) -> u64 {
    match number {
        JsonNumber::PosInt(n) => rounded_bits(n as int),
        JsonNumber::NegInt(n) => rounded_bits(n as int),
        JsonNumber::Float(bits) => bits,
    }
}

/// What the sink reads of a JSON value.
pub enum JsonReading {
    Null,
    Bool(bool),
    /// The number as an `i64` and as the bits of an `f64`, where it can be represented so,
    /// and as JSON text.
    Number { integer: Option<i64>, float_bits: Option<u64>, text: Seq<char> },
    String(Seq<char>),
    Nested(Seq<char>),
}

/// What is read of a value that holds `json`.
pub open spec fn reading(json: JsonView) -> JsonReading {
    match json {
        JsonView::Null => JsonReading::Null,
        JsonView::Bool(b) => JsonReading::Bool(b),
        JsonView::Number { number, text } => JsonReading::Number {
            integer: integer_of(number),
            float_bits: Some(bits_of(number)),
            text,
        },
        JsonView::String(s) => JsonReading::String(s),
        JsonView::Nested(text) => JsonReading::Nested(text),
    }
}

/// A JSON value, reduced to what the sink reads of it.
#[derive(Debug)]
pub enum JsonValue {
    Null,
    Bool(bool),
    Number { integer: Option<i64>, float_bits: Option<u64>, text: String },
    String(String),
    Nested(String),
}

impl View for JsonValue {
    type V = JsonReading;

    open spec fn view(&self) -> JsonReading {
        match self {
            JsonValue::Null => JsonReading::Null,
            JsonValue::Bool(b) => JsonReading::Bool(*b),
            JsonValue::Number { integer, float_bits, text } => JsonReading::Number {
                integer: *integer,
                float_bits: *float_bits,
                text: text@,
            },
            JsonValue::String(s) => JsonReading::String(s@),
            JsonValue::Nested(text) => JsonReading::Nested(text@),
        }
    }
}

impl Clone for JsonValue {
    fn clone(&self) -> (copy: Self)
        ensures
            copy@ == self@,
    {
        match self {
            JsonValue::Null => JsonValue::Null,
            JsonValue::Bool(b) => JsonValue::Bool(*b),
            JsonValue::Number { integer, float_bits, text } => JsonValue::Number {
                integer: *integer,
                float_bits: *float_bits,
                text: text.clone(),
            },
            JsonValue::String(s) => JsonValue::String(s.clone()),
            JsonValue::Nested(text) => JsonValue::Nested(text.clone()),
        }
    }
}

/// What a `serde_json::Value` holds.
pub uninterp spec fn json_view(value: serde_json::Value) -> JsonView;

/// `serde_json::Value::is_null`: whether the value is `null`.
pub assume_specification[ serde_json::Value::is_null ](value: &serde_json::Value) -> (is_null: bool)
    ensures
        is_null == (json_view(*value) is Null),
;

/// `serde_json::Value::as_bool`: the boolean, if the value is one.
pub assume_specification[ serde_json::Value::as_bool ](value: &serde_json::Value) -> (b: Option<
    bool,
>)
    ensures
        b == match json_view(*value) {
            JsonView::Bool(b) => Some(b),
            _ => None,
        },
;

/// `serde_json::Value::is_number`: whether the value is a number.
pub assume_specification[ serde_json::Value::is_number ](value: &serde_json::Value) -> (number:
    bool)
    ensures
        number == (json_view(*value) is Number),
;

/// `serde_json::Value::as_i64`: the number as an `i64`, if the value is a number that is an
/// integer in range.
pub assume_specification[ serde_json::Value::as_i64 ](value: &serde_json::Value) -> (integer: Option<
    i64,
>)
    ensures
        integer == match json_view(*value) {
            JsonView::Number { number, .. } => integer_of(number),
            _ => None,
        },
;

/// `serde_json::Value::as_str`: the string, if the value is one.
pub assume_specification[ serde_json::Value::as_str ](value: &serde_json::Value) -> (text: Option<
    &str,
>)
    ensures
        match json_view(*value) {
            JsonView::String(s) => text is Some && text->0@ == s,
            _ => text is None,
        },
;

/// `serde_json::Value::as_f64`: the number as an `f64`, here by its bits, if the value is a
/// number. Every number has such a representation; an integer may be rounded, to the float
/// that [`rounded_bits`] names.
#[verifier::external_body]
fn float_bits_of(value: &serde_json::Value) -> (bits: Option<u64>)
    ensures
        bits == match json_view(*value) {
            JsonView::Number { number: JsonNumber::PosInt(n), .. } => Some(rounded_bits(n as int)),
            JsonView::Number { number: JsonNumber::NegInt(n), .. } => Some(rounded_bits(n as int)),
            JsonView::Number { number: JsonNumber::Float(own), .. } => Some(own),
            _ => None,
        },
{
    value.as_f64().map(|float| float.to_bits())
}

/// `serde_json::Value::to_string`: the value as compact JSON text. The contract says so of
/// numbers, arrays and objects only.
#[verifier::external_body]
fn text_of(value: &serde_json::Value) -> (text: String)
    ensures
        match json_view(*value) {
            JsonView::Number { text: t, .. } => text@ == t,
            JsonView::Nested(t) => text@ == t,
            _ => true,
        },
{
    value.to_string()
}

/// Reads off a JSON value what the sink needs of it.
pub fn read_json(value: &serde_json::Value) -> (read: JsonValue)
    ensures
        read@ == reading(json_view(*value)),
{
    if value.is_null() {
        return JsonValue::Null;
    }
    if let Some(b) = value.as_bool() {
        return JsonValue::Bool(b);
    }
    if value.is_number() {
        return JsonValue::Number {
            integer: value.as_i64(),
            float_bits: float_bits_of(value),
            text: text_of(value),
        };
    }
    match value.as_str() {
        Some(s) => JsonValue::String(s.to_owned()),
        None => JsonValue::Nested(text_of(value)),
    }
}

/// Reading a value keeps its kind and what it holds: a boolean, a string, or the text of an
/// array or an object as it is, and a number as an integer where it fits and as a float.
pub proof fn reading_keeps_the_value(json: JsonView, read: JsonValue)
    requires
        read@ == reading(json),
    ensures
        json is Null <==> read is Null,
        match json {
            JsonView::Null => true,
            JsonView::Bool(b) => read matches JsonValue::Bool(c) && c == b,
            JsonView::Number { number: JsonNumber::PosInt(n), text } => {
                &&& read matches JsonValue::Number { integer, float_bits, text: told }
                &&& integer is Some <==> n < 0x8000_0000_0000_0000
                &&& integer is Some ==> integer->0 == n
                &&& float_bits == Some(rounded_bits(n as int))
                &&& told@ == text
            },
            JsonView::Number { number: JsonNumber::NegInt(n), text } => {
                &&& read matches JsonValue::Number { integer, float_bits, text: told }
                &&& integer == Some(n)
                &&& float_bits == Some(rounded_bits(n as int))
                &&& told@ == text
            },
            JsonView::Number { number: JsonNumber::Float(bits), text } => {
                &&& read matches JsonValue::Number { integer, float_bits, text: told }
                &&& integer is None
                &&& float_bits == Some(bits)
                &&& told@ == text
            },
            JsonView::String(s) => read matches JsonValue::String(t) && t@ == s,
            JsonView::Nested(text) => read matches JsonValue::Nested(t) && t@ == text,
        },
{
}

/// Two values that are seen alike hold the same.
pub proof fn seen_alike_holds_the_same(a: JsonValue, b: JsonValue)
    requires
        a@ == b@,
    ensures
        match a {
            JsonValue::Null => b is Null,
            JsonValue::Bool(x) => b matches JsonValue::Bool(y) && x == y,
            JsonValue::Number { integer: i, float_bits: f, text: s } => {
                &&& b matches JsonValue::Number { integer: j, float_bits: g, text: t }
                &&& i == j
                &&& f == g
                &&& s@ == t@
            },
            JsonValue::String(s) => b matches JsonValue::String(t) && s@ == t@,
            JsonValue::Nested(s) => b matches JsonValue::Nested(t) && s@ == t@,
        },
{
}

} // verus!
