//! The failure taxonomy of a capture attempt.

use vstd::prelude::*;

verus! {

/// Why a capture attempt could not produce an image file.
///
/// Every variant carries, or stands for, a human-readable reason string; the
/// orchestrator surfaces that string as status text and nothing more, so no
/// failure is fatal to the application.
#[derive(Clone, Debug, PartialEq, Eq)]
pub enum CaptureError {
    /// Display enumeration succeeded but reported no displays.
    NoDisplayFound,
    /// The platform failed while enumerating displays.
    EnumerationError(String),
    /// The platform failed while grabbing the selected display.
    GrabError(String),
    /// The grabbed image could not be encoded or written to disk.
    EncodeError(String),
}

impl CaptureError {
    /// The reason string surfaced to the operator for this failure.
    pub open spec fn spec_message(self) -> Seq<char> {
        match self {
            CaptureError::NoDisplayFound => "No display found."@,
            CaptureError::EnumerationError(m) => m@,
            CaptureError::GrabError(m) => m@,
            CaptureError::EncodeError(m) => m@,
        }
    }

    /// Renders the reason exactly as `spec_message` states it.
    pub fn message(&self) -> (r: String)
        ensures
            r@ == self.spec_message(),
    {
        match self {
            CaptureError::NoDisplayFound => String::from_str("No display found."),
            CaptureError::EnumerationError(m) => m.clone(),
            CaptureError::GrabError(m) => m.clone(),
            CaptureError::EncodeError(m) => m.clone(),
        }
    }
}

} // verus!
