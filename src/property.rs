//! Property values: the untyped payload that crosses the engine and UI
//! boundaries, and the typed value that the registry allows for a name.
use vstd::prelude::*;

use crate::registry::{kind_of, registered_kind, PropertyKind};

verus! {

/// A property payload before it is checked against the registry.  A number
/// is held as the bit pattern of an IEEE 754 binary64 value.
#[derive(Clone, Debug)]
pub enum UntypedValue {
    Number(u64),
    Bool(bool),
    String(String),
    Other,
}

impl UntypedValue {
    /// A copy of the payload.
    pub fn copied(&self) -> (r: UntypedValue)
        ensures
            r@ == self@,
    {
        match self {
            UntypedValue::Number(b) => UntypedValue::Number(*b),
            UntypedValue::Bool(b) => UntypedValue::Bool(*b),
            UntypedValue::String(s) => UntypedValue::String(s.clone()),
            UntypedValue::Other => UntypedValue::Other,
        }
    }
}

/// A property value of one of the three registered kinds.  A float is held
/// as the bit pattern of an IEEE 754 binary64 value.
#[derive(Clone, Debug)]
pub enum MpvPropertyValue {
    Float(u64),
    Bool(bool),
    String(String),
}

/// The mathematical content of an `UntypedValue`.
pub enum UntypedView {
    Number(u64),
    Bool(bool),
    Text(Seq<char>),
    Other,
}

/// The mathematical content of an `MpvPropertyValue`.
pub enum ValueView {
    Float(u64),
    Bool(bool),
    Text(Seq<char>),
}

impl View for UntypedValue {
    type V = UntypedView;

    open spec fn view(&self) -> UntypedView {
        match self {
            UntypedValue::Number(b) => UntypedView::Number(*b),
            UntypedValue::Bool(b) => UntypedView::Bool(*b),
            UntypedValue::String(s) => UntypedView::Text(s@),
            UntypedValue::Other => UntypedView::Other,
        }
    }
}

impl View for MpvPropertyValue {
    type V = ValueView;

    open spec fn view(&self) -> ValueView {
        match self {
            MpvPropertyValue::Float(b) => ValueView::Float(*b),
            MpvPropertyValue::Bool(b) => ValueView::Bool(*b),
            MpvPropertyValue::String(s) => ValueView::Text(s@),
        }
    }
}

/// A named property with the payload supplied for it, if any.
#[derive(Clone, Debug)]
pub struct MpvProperty(pub String, pub Option<UntypedValue>);

pub open spec fn payload_view(p: Option<UntypedValue>) -> Option<UntypedView> {
    match p {
        Some(v) => Some(v@),
        None => None,
    }
}

/// The typed value that the registry gives a name's payload, if the name is
/// registered and the payload is of the registered kind.
pub open spec fn typed_value(name: Seq<char>, payload: Option<UntypedView>) -> Option<ValueView> {
    match (registered_kind(name), payload) {
        (Some(PropertyKind::Float), Some(UntypedView::Number(b))) => Some(ValueView::Float(b)),
        (Some(PropertyKind::Bool), Some(UntypedView::Bool(b))) => Some(ValueView::Bool(b)),
        (Some(PropertyKind::Str), Some(UntypedView::Text(s))) => Some(ValueView::Text(s)),
        _ => None,
    }
}

pub const NOT_A_FLOAT: &'static str = "Failed to get f64 from Value";

pub const NOT_A_BOOL: &'static str = "Failed to get bool from Value";

pub const NOT_A_STRING: &'static str = "Failed to get String from Value";

pub const NO_VALUE: &'static str = "Failed to get value of MpvProperty";

/// The error reported when a payload has no typed value: the registered
/// kind it failed to match, or that there is no payload or no registered kind.
pub open spec fn value_error(name: Seq<char>, payload: Option<UntypedView>) -> &'static str {
    match (registered_kind(name), payload) {
        (Some(PropertyKind::Float), Some(_)) => NOT_A_FLOAT,
        (Some(PropertyKind::Bool), Some(_)) => NOT_A_BOOL,
        (Some(PropertyKind::Str), Some(_)) => NOT_A_STRING,
        _ => NO_VALUE,
    }
}

impl MpvProperty {
    pub open spec fn payload(&self) -> Option<UntypedView> {
        payload_view(self.1)
    }

    pub fn name(&self) -> (r: &str)
        ensures
            r@ == self.0@,
    {
        self.0.as_str()
    }

    /// The typed value of the payload, checked against the registry.
    pub fn value(&self) -> (r: Result<MpvPropertyValue, &'static str>)
        ensures
            typed_value(self.0@, self.payload()) matches Some(v) ==> r matches Ok(x) && x@ == v,
            typed_value(self.0@, self.payload()) is None ==> r == Err::<
                MpvPropertyValue,
                &'static str,
            >(value_error(self.0@, self.payload())),
    {
        let kind = kind_of(self.name());
        match (&self.1, kind) {
            (Some(UntypedValue::Number(b)), Some(PropertyKind::Float)) => Ok(
                MpvPropertyValue::Float(*b),
            ),
            (Some(_), Some(PropertyKind::Float)) => Err(NOT_A_FLOAT),
            (Some(UntypedValue::Bool(b)), Some(PropertyKind::Bool)) => Ok(
                MpvPropertyValue::Bool(*b),
            ),
            (Some(_), Some(PropertyKind::Bool)) => Err(NOT_A_BOOL),
            (Some(UntypedValue::String(s)), Some(PropertyKind::Str)) => Ok(
                MpvPropertyValue::String(s.clone()),
            ),
            (Some(_), Some(PropertyKind::Str)) => Err(NOT_A_STRING),
            _ => Err(NO_VALUE),
        }
    }
}

} // verus!
