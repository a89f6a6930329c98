use vstd::prelude::*;

use crate::json::JsonValue;

verus! {

/// What went wrong, as reported in a failed envelope.
#[derive(Debug)]
pub struct EnvelopeError {
    pub code: String,
    pub message: String,
}

/// The fixed-shape answer to an intent.
///
/// A successful envelope carries the backend's result and no error; a failed one
/// carries the canonical intent, an empty result and an error. The reserved
/// members are empty in both.
#[derive(Debug)]
pub struct Envelope {
    pub success: bool,
    pub intent: String,
    pub result: JsonValue,
    pub warnings: Vec<JsonValue>,
    pub context: Vec<(String, JsonValue)>,
    pub suggestions: Vec<JsonValue>,
    pub meta: Vec<(String, JsonValue)>,
    pub error: Option<EnvelopeError>,
    pub timestamp: String,
}

/// The one error code of a failed intent, whatever the cause.
pub open spec fn bridge_error_code() -> Seq<char> {
    "BRIDGE_ERROR"@
}

impl Envelope {
    /// The members reserved for richer backends are empty, and no time is recorded.
    pub open spec fn reserved_empty(&self) -> bool {
        &&& self.warnings@.len() == 0
        &&& self.context@.len() == 0
        &&& self.suggestions@.len() == 0
        &&& self.meta@.len() == 0
        &&& self.timestamp@.len() == 0
    }

    /// The envelope reports success with `result` exactly as the backend gave it.
    pub open spec fn is_success_with(&self, result: JsonValue) -> bool {
        &&& self.success
        &&& self.intent@.len() == 0
        &&& self.result == result
        &&& self.error is None
        &&& self.reserved_empty()
    }

    /// The envelope reports the failure of `intent` with `message`.
    pub open spec fn is_failure_with(&self, intent: Seq<char>, message: Seq<char>) -> bool {
        &&& !self.success
        &&& self.intent@ == intent
        &&& self.result.is_empty_object()
        &&& self.error matches Some(e) && e.code@ == bridge_error_code() && e.message@ == message
        &&& self.reserved_empty()
    }
}

/// Builds the envelope of a failed intent.
pub fn bridge_error(intent: &str, message: String) -> (r: Envelope)
    ensures
        r.is_failure_with(intent@, message@),
{
    Envelope {
        success: false,
        intent: intent.to_owned(),
        result: JsonValue::empty_object(),
        warnings: Vec::new(),
        context: Vec::new(),
        suggestions: Vec::new(),
        meta: Vec::new(),
        error: Some(EnvelopeError { code: "BRIDGE_ERROR".to_owned(), message }),
        timestamp: String::new(),
    }
}

/// Builds the envelope of a successful intent around the backend's result.
pub fn success_envelope(result: JsonValue) -> (r: Envelope)
    ensures
        r.is_success_with(result),
{
    Envelope {
        success: true,
        intent: String::new(),
        result,
        warnings: Vec::new(),
        context: Vec::new(),
        suggestions: Vec::new(),
        meta: Vec::new(),
        error: None,
        timestamp: String::new(),
    }
}

/// Shapes what the backend answered to an intent's operation: its result on
/// success, or the failure's text under the canonical intent.
pub fn intent_envelope(normalized_intent: &str, outcome: Result<JsonValue, String>) -> (r:
    Envelope)
    ensures
        match outcome {
            Ok(v) => r.is_success_with(v),
            Err(message) => r.is_failure_with(normalized_intent@, message@),
        },
{
    match outcome {
        Ok(v) => success_envelope(v),
        Err(message) => bridge_error(normalized_intent, message),
    }
}

} // verus!
