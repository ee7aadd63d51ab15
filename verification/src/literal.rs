//! Literals, and how their values are written out.

use crate::ast::{Literal, LiteralValue};
use crate::model::{LiteralValueView, LiteralView};
use vstd::prelude::*;

verus! {

/// The decimal digits of a number, the highest first, without leading zeros.
pub open spec fn digits_text(n: nat) -> Seq<char>
    decreases n,
{
    if n < 10 {
        seq![(48 + n) as char]
    } else {
        digits_text(n / 10).push((48 + n % 10) as char)
    }
}

/// The text of a whole number in JSON: its decimal digits, behind a minus sign
/// where it is below zero.
pub open spec fn decimal_text(value: int) -> Seq<char> {
    if value < 0 {
        seq!['-'] + digits_text((-value) as nat)
    } else {
        digits_text(value as nat)
    }
}

/// The text of a string in JSON: between quotes, with what must be escaped
/// escaped.
pub uninterp spec fn json_string_text(value: Seq<char>) -> Seq<char>;

/// `serde_json::Value::from(i64)` and its `to_string`: the number as JSON
/// writes it, which is in decimal digits, with a minus sign before them where
/// the number is below zero.
#[verifier::external_body]
fn json_integer(value: i64) -> (text: String)
    ensures
        text@ == decimal_text(value as int),
{
    serde_json::Value::from(value).to_string()
}

/// `serde_json::Value::from(&str)` and its `to_string`: the string as JSON
/// writes it, which is a function of the string alone.
#[verifier::external_body]
fn json_string(value: &str) -> (text: String)
    ensures
        text@ == json_string_text(value@),
{
    serde_json::Value::from(value).to_string()
}

impl LiteralValueView {
    /// The value as JSON writes it. A fraction brings its text along.
    pub open spec fn json_text(self) -> Seq<char> {
        match self {
            LiteralValueView::IInteger(i) => decimal_text(i as int),
            LiteralValueView::Fractional(f) => f.text,
            LiteralValueView::String(s) => json_string_text(s),
            LiteralValueView::Bool(b) => if b {
                "true"@
            } else {
                "false"@
            },
        }
    }
}

impl LiteralValue {
    /// The value as JSON writes it.
    pub fn json_text(&self) -> (text: String)
        ensures
            text@ == self@.json_text(),
    {
        match self {
            LiteralValue::IInteger(i) => json_integer(*i),
            LiteralValue::Fractional(f) => f.text.clone(),
            LiteralValue::String(s) => json_string(s.as_str()),
            LiteralValue::Bool(b) => if *b {
                "true".to_owned()
            } else {
                "false".to_owned()
            },
        }
    }
}

impl Literal {
    /// A literal of the value given, written as JSON writes the value, at no
    /// place in a text.
    pub fn new(value: LiteralValue) -> (literal: Self)
        ensures
            literal@ == (LiteralView {
                start: 0,
                end: 0,
                value: value@,
                raw: value@.json_text(),
                digest: None,
            }),
    {
        let raw = value.json_text();
        Literal { start: 0, end: 0, value, raw, digest: None }
    }
}

/// The sorts of value that JSON knows.
#[derive(Debug, Clone, Copy, PartialEq, Eq, Structural)]
pub enum JsonKind {
    Null,
    Bool,
    Number,
    String,
    Array,
    Object,
}

/// What to call a sort of value when telling an author of it.
pub fn human_friendly_type(kind: JsonKind) -> (name: &'static str)
    ensures
        name@ == match kind {
            JsonKind::Null => "null"@,
            JsonKind::Bool => "boolean (true/false value)"@,
            JsonKind::Number => "number"@,
            JsonKind::String => "string (text)"@,
            JsonKind::Array => "array (list)"@,
            JsonKind::Object => "object"@,
        },
{
    match kind {
        JsonKind::Null => "null",
        JsonKind::Bool => "boolean (true/false value)",
        JsonKind::Number => "number",
        JsonKind::String => "string (text)",
        JsonKind::Array => "array (list)",
        JsonKind::Object => "object",
    }
}

} // verus!
