use vstd::prelude::*;

verus! {

/// Outcome of a request to change the backend's storage mode.
#[derive(Debug)]
pub struct BackendStorageModeResponse {
    /// The backend accepted the mode.
    pub success: bool,
    /// The backend's own name of its mode on success; the requested mode otherwise.
    pub mode: String,
    /// The backend was restarted to apply the mode.
    pub restarted: bool,
    /// What the backend reported when it refused.
    pub error: Option<String>,
}

impl BackendStorageModeResponse {
    /// A response carries an error exactly when it failed, and a failed response
    /// never reports a restart.
    pub open spec fn wf(&self) -> bool {
        &&& self.success <==> self.error is None
        &&& !self.success ==> !self.restarted
    }
}

/// Shapes the backend's answer to a storage mode change.
///
/// `outcome` is, on success, whether the backend restarted together with the mode
/// that it reports afterwards; on failure, the failure's text.
pub fn storage_mode_response(requested: String, outcome: Result<(bool, String), String>) -> (r:
    BackendStorageModeResponse)
    ensures
        r.wf(),
        match outcome {
            Ok((restarted, current)) => {
                &&& r.success
                &&& r.mode@ == current@
                &&& r.restarted == restarted
            },
            Err(message) => {
                &&& !r.success
                &&& r.mode@ == requested@
                &&& !r.restarted
                &&& r.error matches Some(e) && e@ == message@
            },
        },
{
    match outcome {
        Ok((restarted, current)) => BackendStorageModeResponse {
            success: true,
            mode: current,
            restarted,
            error: None,
        },
        Err(message) => BackendStorageModeResponse {
            success: false,
            mode: requested,
            restarted: false,
            error: Some(message),
        },
    }
}

} // verus!
