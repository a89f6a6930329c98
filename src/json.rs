use vstd::prelude::*;

verus! {

/// A JSON number, carried through unchanged.
#[verifier::external_type_specification]
#[verifier::external_body]
pub struct ExNumber(serde_json::Number);

/// A structured value passed between the caller and the backend.
///
/// The layer never interprets these values: it forwards parameters and results as
/// they are, and only builds the empty objects of its own envelopes.
/// Object members keep the order in which they were given.
#[derive(Debug)]
pub enum JsonValue {
    Null,
    Bool(bool),
    Number(serde_json::Number),
    String(String),
    Array(Vec<JsonValue>),
    Object(Vec<(String, JsonValue)>),
}

impl JsonValue {
    /// The value is an object without members: `{}`.
    pub open spec fn is_empty_object(&self) -> bool {
        match self {
            JsonValue::Object(members) => members@.len() == 0,
            _ => false,
        }
    }

    /// Builds `{}`.
    pub fn empty_object() -> (r: JsonValue)
        ensures
            r.is_empty_object(),
    {
        JsonValue::Object(Vec::new())
    }
}

} // verus!
