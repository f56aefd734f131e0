//! A plain model of a JSON document, used for the arbitrary metadata that
//! tenants and users carry. The driver around the library converts between
//! this type and its wire form.

use vstd::prelude::*;

verus! {

/// A JSON document as a plain value.
///
/// Numbers are held as signed 64-bit integers; an object is an ordered
/// list of key/value pairs, in the order the document gives them.
#[derive(Debug, PartialEq)]
pub enum JsonValue {
    /// The JSON `null`.
    Null,
    /// A JSON boolean.
    Bool(bool),
    /// A JSON integer.
    Int(i64),
    /// A JSON string.
    Str(String),
    /// A JSON array.
    Array(Vec<JsonValue>),
    /// A JSON object, as ordered key/value pairs.
    Object(Vec<(String, JsonValue)>),
}

impl JsonValue {
    /// The empty JSON object.
    pub fn empty_object() -> (r: JsonValue)
        ensures
            r matches JsonValue::Object(v) && v@.len() == 0,
    {
        JsonValue::Object(Vec::new())
    }
}

} // verus!
