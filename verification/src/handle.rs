//! The raw handle of the display.

use raw_window_handle::{OhosDisplayHandle, RawDisplayHandle};
use vstd::prelude::*;

verus! {

/// The handle of a display, of any system: one variant for each.
#[verifier::external_type_specification]
pub struct ExRawDisplayHandle(raw_window_handle::RawDisplayHandle);

/// The handle of a display of UIKit.
#[verifier::external_type_specification]
#[verifier::external_body]
pub struct ExUiKitDisplayHandle(raw_window_handle::UiKitDisplayHandle);

/// The handle of a display of AppKit.
#[verifier::external_type_specification]
#[verifier::external_body]
pub struct ExAppKitDisplayHandle(raw_window_handle::AppKitDisplayHandle);

/// The handle of a display of Orbital.
#[verifier::external_type_specification]
#[verifier::external_body]
pub struct ExOrbitalDisplayHandle(raw_window_handle::OrbitalDisplayHandle);

/// The handle of a display of OpenHarmony. It holds nothing.
#[verifier::external_type_specification]
#[verifier::external_body]
pub struct ExOhosDisplayHandle(raw_window_handle::OhosDisplayHandle);

/// The handle of a display of Xlib.
#[verifier::external_type_specification]
#[verifier::external_body]
pub struct ExXlibDisplayHandle(raw_window_handle::XlibDisplayHandle);

/// The handle of a display of XCB.
#[verifier::external_type_specification]
#[verifier::external_body]
pub struct ExXcbDisplayHandle(raw_window_handle::XcbDisplayHandle);

/// The handle of a display of Wayland.
#[verifier::external_type_specification]
#[verifier::external_body]
pub struct ExWaylandDisplayHandle(raw_window_handle::WaylandDisplayHandle);

/// The handle of a display of the Direct Rendering Manager.
#[verifier::external_type_specification]
#[verifier::external_body]
pub struct ExDrmDisplayHandle(raw_window_handle::DrmDisplayHandle);

/// The handle of a display of the Generic Buffer Manager.
#[verifier::external_type_specification]
#[verifier::external_body]
pub struct ExGbmDisplayHandle(raw_window_handle::GbmDisplayHandle);

/// The handle of a display of Windows.
#[verifier::external_type_specification]
#[verifier::external_body]
pub struct ExWindowsDisplayHandle(raw_window_handle::WindowsDisplayHandle);

/// The handle of a display of the web.
#[verifier::external_type_specification]
#[verifier::external_body]
pub struct ExWebDisplayHandle(raw_window_handle::WebDisplayHandle);

/// The handle of a display of Android.
#[verifier::external_type_specification]
#[verifier::external_body]
pub struct ExAndroidDisplayHandle(raw_window_handle::AndroidDisplayHandle);

/// The handle of a display of Haiku.
#[verifier::external_type_specification]
#[verifier::external_body]
pub struct ExHaikuDisplayHandle(raw_window_handle::HaikuDisplayHandle);

/// `OhosDisplayHandle::new` makes the handle of a display of OpenHarmony. All such
/// handles are alike, so nothing is said of the one that it makes.
pub assume_specification[ raw_window_handle::OhosDisplayHandle::new ]() -> (r: OhosDisplayHandle);

/// The handle of the display.
pub(crate) fn ohos_display_handle() -> (r: RawDisplayHandle)
    ensures
        r is Ohos,
{
    RawDisplayHandle::Ohos(OhosDisplayHandle::new())
}

} // verus!
