//! The fixed table that assigns each engine property name the one value kind
//! it may carry.
use vstd::prelude::*;

use crate::text::str_eq;

verus! {

/// The value domain that a registered property carries.
#[derive(Clone, Copy, Debug, PartialEq, Eq, Structural)]
pub enum PropertyKind {
    Float,
    Bool,
    Str,
}

pub open spec fn is_float_name(n: Seq<char>) -> bool {
    ||| n == "time-pos"@
    ||| n == "duration"@
    ||| n == "volume"@
    ||| n == "speed"@
    ||| n == "sub-scale"@
    ||| n == "sub-pos"@
    ||| n == "sub-delay"@
    ||| n == "cache-buffering-state"@
}

pub open spec fn is_bool_name(n: Seq<char>) -> bool {
    ||| n == "pause"@
    ||| n == "paused-for-cache"@
    ||| n == "seeking"@
    ||| n == "eof-reached"@
    ||| n == "mute"@
    ||| n == "osc"@
}

pub open spec fn is_str_name(n: Seq<char>) -> bool {
    ||| n == "media-title"@
    ||| n == "path"@
    ||| n == "aid"@
    ||| n == "vid"@
    ||| n == "sid"@
    ||| n == "track-list"@
    ||| n == "metadata"@
    ||| n == "hwdec"@
    ||| n == "mpv-version"@
    ||| n == "ffmpeg-version"@
    ||| n == "sub-color"@
    ||| n == "sub-border-color"@
    ||| n == "sub-back-color"@
    ||| n == "input-default-bindings"@
    ||| n == "input-vo-keyboard"@
    ||| n == "loop"@
}

/// The kind registered for a property name, if the name is registered.
pub open spec fn registered_kind(n: Seq<char>) -> Option<PropertyKind> {
    if is_float_name(n) {
        Some(PropertyKind::Float)
    } else if is_bool_name(n) {
        Some(PropertyKind::Bool)
    } else if is_str_name(n) {
        Some(PropertyKind::Str)
    } else {
        None
    }
}

fn is_float_property(n: &str) -> (r: bool)
    ensures
        r == is_float_name(n@),
{
    str_eq(n, "time-pos") || str_eq(n, "duration") || str_eq(n, "volume") || str_eq(n, "speed")
        || str_eq(n, "sub-scale") || str_eq(n, "sub-pos") || str_eq(n, "sub-delay")
        || str_eq(n, "cache-buffering-state")
}

fn is_bool_property(n: &str) -> (r: bool)
    ensures
        r == is_bool_name(n@),
{
    str_eq(n, "pause") || str_eq(n, "paused-for-cache") || str_eq(n, "seeking") || str_eq(
        n,
        "eof-reached",
    ) || str_eq(n, "mute") || str_eq(n, "osc")
}

fn is_str_property(n: &str) -> (r: bool)
    ensures
        r == is_str_name(n@),
{
    str_eq(n, "media-title") || str_eq(n, "path") || str_eq(n, "aid") || str_eq(n, "vid")
        || str_eq(n, "sid") || str_eq(n, "track-list") || str_eq(n, "metadata") || str_eq(
        n,
        "hwdec",
    ) || str_eq(n, "mpv-version") || str_eq(n, "ffmpeg-version") || str_eq(n, "sub-color")
        || str_eq(n, "sub-border-color") || str_eq(n, "sub-back-color") || str_eq(
        n,
        "input-default-bindings",
    ) || str_eq(n, "input-vo-keyboard") || str_eq(n, "loop")
}

/// Looks a property name up in the registry.
pub fn kind_of(name: &str) -> (r: Option<PropertyKind>)
    ensures
        r == registered_kind(name@),
{
    if is_float_property(name) {
        Some(PropertyKind::Float)
    } else if is_bool_property(name) {
        Some(PropertyKind::Bool)
    } else if is_str_property(name) {
        Some(PropertyKind::Str)
    } else {
        None
    }
}

} // verus!
