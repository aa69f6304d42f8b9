use vstd::prelude::*;
use vstd::string::StringExecFns;

verus! {

/// The three ways a capture can fail; each but the first carries the
/// diagnostic text of the step that failed.
#[derive(Debug, Clone)]
pub enum CaptureError {
    NoScreens,
    CaptureFailed(String),
    EncodeFailed(String),
}

impl CaptureError {
    /// The operator-facing text of the error.
    pub fn message(&self) -> (r: String)
        ensures
            self is NoScreens ==> r@ == "No screens found"@,
            self matches CaptureError::CaptureFailed(d) ==> r@ == "Failed to capture screen: "@ + d@,
            self matches CaptureError::EncodeFailed(d) ==> r@ == "Failed to encode image: "@ + d@,
    {
        match self {
            CaptureError::NoScreens => "No screens found".to_owned(),
            CaptureError::CaptureFailed(d) => "Failed to capture screen: ".to_owned().concat(d.as_str()),
            CaptureError::EncodeFailed(d) => "Failed to encode image: ".to_owned().concat(d.as_str()),
        }
    }
}

} // verus!
