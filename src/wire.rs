//! The shape in which a property change is handed to the UI layer:
//! `{"name": <name>, "data": <value>}`, where text that is itself a JSON
//! document passes through as structured data.
use vstd::prelude::*;

use crate::property::{MpvProperty, MpvPropertyValue, ValueView};

verus! {

/// Whether the text is one complete JSON document.
pub uninterp spec fn json_document(s: Seq<char>) -> bool;

/// Relies on `serde_json::from_str::<serde_json::Value>`: it succeeds exactly
/// when the text is one JSON document; the answer depends on the text alone.
#[verifier::external_body]
fn is_json_document(s: &str) -> (r: bool)
    ensures
        r == json_document(s@),
{
    serde_json::from_str::<serde_json::Value>(s).is_ok()
}

/// How a typed value is encoded for the UI layer.
#[derive(Clone, Debug)]
pub enum WireValue {
    /// A JSON number, from the bit pattern of an IEEE 754 binary64 value.
    Number(u64),
    Bool(bool),
    /// Text that is a JSON document, embedded as that document.
    Json(String),
    /// Text embedded as a JSON string.
    Text(String),
}

pub enum WireView {
    Number(u64),
    Bool(bool),
    Json(Seq<char>),
    Text(Seq<char>),
}

impl View for WireValue {
    type V = WireView;

    open spec fn view(&self) -> WireView {
        match self {
            WireValue::Number(b) => WireView::Number(*b),
            WireValue::Bool(b) => WireView::Bool(*b),
            WireValue::Json(s) => WireView::Json(s@),
            WireValue::Text(s) => WireView::Text(s@),
        }
    }
}

/// The encoding of a typed value, given whether text parses as JSON.
pub open spec fn wire_of(v: ValueView, parses: bool) -> WireView {
    match v {
        ValueView::Float(b) => WireView::Number(b),
        ValueView::Bool(b) => WireView::Bool(b),
        ValueView::Text(s) => if parses {
            WireView::Json(s)
        } else {
            WireView::Text(s)
        },
    }
}

/// The encoding of a typed value, text checked for being a JSON document.
pub open spec fn encoded(v: ValueView) -> WireView {
    match v {
        ValueView::Text(s) => wire_of(v, json_document(s)),
        _ => wire_of(v, false),
    }
}

/// Encodes text, which is embedded as structured data when `parses` says it
/// is a JSON document, and as a string otherwise.
pub fn wire_text(s: String, parses: bool) -> (r: WireValue)
    ensures
        r@ == wire_of(ValueView::Text(s@), parses),
{
    if parses {
        WireValue::Json(s)
    } else {
        WireValue::Text(s)
    }
}

impl MpvPropertyValue {
    /// The encoding of the value for the UI layer.
    pub fn wire(&self) -> (r: WireValue)
        ensures
            r@ == encoded(self@),
    {
        match self {
            MpvPropertyValue::Float(b) => WireValue::Number(*b),
            MpvPropertyValue::Bool(b) => WireValue::Bool(*b),
            MpvPropertyValue::String(s) => {
                let parses = is_json_document(s.as_str());
                wire_text(s.clone(), parses)
            },
        }
    }
}

impl MpvProperty {
    /// The `data` member of the property's encoding: present exactly when
    /// the payload has a typed value.
    pub fn wire_data(&self) -> (r: Option<WireValue>)
        ensures
            match crate::property::typed_value(self.0@, self.payload()) {
                Some(v) => r matches Some(w) && w@ == encoded(v),
                None => r is None,
            },
    {
        match self.value() {
            Ok(v) => Some(v.wire()),
            Err(_) => None,
        }
    }
}

} // verus!
