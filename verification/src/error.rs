//! The errors of the platform.

use vstd::prelude::*;

verus! {

/// The system refused a window.
#[derive(Clone, Copy, Debug)]
pub struct OsError;

impl Default for OsError {
    fn default() -> (r: OsError)
        ensures
            r == OsError,
    {
        OsError
    }
}

impl OsError {
    /// The error in words.
    pub fn message(&self) -> (r: String)
        ensures
            r@ == "OpenHarmony OS Error"@,
    {
        "OpenHarmony OS Error".to_owned()
    }
}

/// The platform does not support what was asked for.
#[derive(Clone, Copy, Debug, PartialEq, Eq)]
pub struct NotSupportedError;

/// An error that the application sees.
#[derive(Clone, Copy, Debug, PartialEq, Eq)]
pub enum ExternalError {
    NotSupported(NotSupportedError),
}

/// Why there is no raw handle.
#[derive(Clone, Copy, Debug, PartialEq, Eq)]
pub enum HandleError {
    Unavailable,
}

} // verus!
