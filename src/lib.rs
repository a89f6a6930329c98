pub mod envelope;
pub mod intent;
pub mod json;
pub mod storage_mode;

pub use envelope::{bridge_error, intent_envelope, success_envelope, Envelope, EnvelopeError};
pub use intent::{normalize_intent, operation_name, plan_intent, request_params, IntentRequest};
pub use json::JsonValue;
pub use storage_mode::{storage_mode_response, BackendStorageModeResponse};
