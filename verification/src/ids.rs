//! Identifiers of windows and devices.

use vstd::prelude::*;
use vstd::std_specs::convert::FromSpecImpl;

verus! {

/// The window that an event is about. All windows of the platform share one
/// identifier.
#[derive(Clone, Copy, Debug, Eq, Hash, Ord, PartialEq, PartialOrd)]
pub struct WindowId;

impl WindowId {
    /// The identifier that every window has.
    pub fn dummy() -> (r: WindowId)
        ensures
            r == WindowId,
    {
        WindowId
    }
}

impl From<WindowId> for u64 {
    fn from(_id: WindowId) -> (r: u64) {
        0
    }
}

impl FromSpecImpl<WindowId> for u64 {
    open spec fn obeys_from_spec() -> bool {
        true
    }

    open spec fn from_spec(_id: WindowId) -> u64 {
        0
    }
}

impl From<u64> for WindowId {
    fn from(_id: u64) -> (r: WindowId) {
        WindowId
    }
}

impl FromSpecImpl<u64> for WindowId {
    open spec fn obeys_from_spec() -> bool {
        true
    }

    open spec fn from_spec(_id: u64) -> WindowId {
        WindowId
    }
}

/// The device that an event comes from.
#[derive(Clone, Copy, Debug, Eq, Hash, Ord, PartialEq, PartialOrd)]
pub struct DeviceId(pub i32);

impl DeviceId {
    /// The device that stands for no device in particular.
    pub fn dummy() -> (r: DeviceId)
        ensures
            r == DeviceId(0),
    {
        DeviceId(0)
    }
}

/// What the platform adds to a key event: nothing.
#[derive(Debug, Clone, Eq, PartialEq, Hash)]
pub struct KeyEventExtra {}

} // verus!
