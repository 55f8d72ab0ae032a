//! JSON values as plain data.
//!
//! A number is held as its JSON text, so that no floating-point value is
//! needed to carry it through unchanged.

use vstd::prelude::*;

verus! {

/// A JSON value. An object's members keep the order in which they were
/// given; in a well-formed value no object names a member twice (see
/// `json_well_formed`).
#[derive(Debug)]
pub enum JsonValue {
    Null,
    Bool(bool),
    /// A number, by its JSON text.
    Number(String),
    String(String),
    Array(Vec<JsonValue>),
    Object(Vec<(String, JsonValue)>),
}

/// Whether the members of an object have distinct names.
pub open spec fn member_names_distinct(xs: Seq<(String, JsonValue)>) -> bool {
    forall|i: int, j: int|
        0 <= i < xs.len() && 0 <= j < xs.len() && i != j ==> (#[trigger] xs[i]).0@ != (#[trigger] xs[j]).0@
}

/// Whether `v` is a JSON value as a JSON map holds it: every object, at
/// any depth, names each of its members once.
pub open spec fn json_well_formed(v: JsonValue) -> bool
    decreases v,
{
    match v {
        JsonValue::Array(xs) => forall|i: int| 0 <= i < xs@.len() ==> json_well_formed(#[trigger] xs@[i]),
        JsonValue::Object(xs) => member_names_distinct(xs@) && forall|i: int|
            0 <= i < xs@.len() ==> json_well_formed((#[trigger] xs@[i]).1),
        _ => true,
    }
}

} // verus!
