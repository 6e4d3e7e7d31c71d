//! Handles by which graphics libraries reach the window and its display.
use raw_window_handle::{HandleError, OhosDisplayHandle, RawDisplayHandle, RawWindowHandle};
use vstd::prelude::*;

verus! {

/// A window handle of `raw_window_handle`, carried through unread.
#[verifier::external_type_specification]
#[verifier::external_body]
pub struct ExRawWindowHandle(raw_window_handle::RawWindowHandle);

/// Why there is no handle, as `raw_window_handle` puts it.
#[verifier::external_type_specification]
pub struct ExHandleError(raw_window_handle::HandleError);

/// A display handle of `raw_window_handle`: one variant for each windowing system.
#[verifier::external_type_specification]
pub struct ExRawDisplayHandle(raw_window_handle::RawDisplayHandle);

/// The OpenHarmony display handle of `raw_window_handle`, which holds nothing.
#[verifier::external_type_specification]
#[verifier::external_body]
pub struct ExOhosDisplayHandle(raw_window_handle::OhosDisplayHandle);

/// The UIKit display handle of `raw_window_handle`, never made here.
#[verifier::external_type_specification]
#[verifier::external_body]
pub struct ExUiKitDisplayHandle(raw_window_handle::UiKitDisplayHandle);

/// The AppKit display handle of `raw_window_handle`, never made here.
#[verifier::external_type_specification]
#[verifier::external_body]
pub struct ExAppKitDisplayHandle(raw_window_handle::AppKitDisplayHandle);

/// The Orbital display handle of `raw_window_handle`, never made here.
#[verifier::external_type_specification]
#[verifier::external_body]
pub struct ExOrbitalDisplayHandle(raw_window_handle::OrbitalDisplayHandle);

/// The Xlib display handle of `raw_window_handle`, never made here.
#[verifier::external_type_specification]
#[verifier::external_body]
pub struct ExXlibDisplayHandle(raw_window_handle::XlibDisplayHandle);

/// The XCB display handle of `raw_window_handle`, never made here.
#[verifier::external_type_specification]
#[verifier::external_body]
pub struct ExXcbDisplayHandle(raw_window_handle::XcbDisplayHandle);

/// The Wayland display handle of `raw_window_handle`, never made here.
#[verifier::external_type_specification]
#[verifier::external_body]
pub struct ExWaylandDisplayHandle(raw_window_handle::WaylandDisplayHandle);

/// The DRM display handle of `raw_window_handle`, never made here.
#[verifier::external_type_specification]
#[verifier::external_body]
pub struct ExDrmDisplayHandle(raw_window_handle::DrmDisplayHandle);

/// The GBM display handle of `raw_window_handle`, never made here.
#[verifier::external_type_specification]
#[verifier::external_body]
pub struct ExGbmDisplayHandle(raw_window_handle::GbmDisplayHandle);

/// The Windows display handle of `raw_window_handle`, never made here.
#[verifier::external_type_specification]
#[verifier::external_body]
pub struct ExWindowsDisplayHandle(raw_window_handle::WindowsDisplayHandle);

/// The web display handle of `raw_window_handle`, never made here.
#[verifier::external_type_specification]
#[verifier::external_body]
pub struct ExWebDisplayHandle(raw_window_handle::WebDisplayHandle);

/// The Android display handle of `raw_window_handle`, never made here.
#[verifier::external_type_specification]
#[verifier::external_body]
pub struct ExAndroidDisplayHandle(raw_window_handle::AndroidDisplayHandle);

/// The Haiku display handle of `raw_window_handle`, never made here.
#[verifier::external_type_specification]
#[verifier::external_body]
pub struct ExHaikuDisplayHandle(raw_window_handle::HaikuDisplayHandle);

/// `raw_window_handle::OhosDisplayHandle::new` makes the one value of its type. Nothing is
/// claimed of it.
pub assume_specification[ OhosDisplayHandle::new ]() -> (handle: OhosDisplayHandle);

/// The handle of the display: always one of OpenHarmony.
pub fn display_handle() -> (handle: Result<RawDisplayHandle, HandleError>)
    ensures
        handle matches Ok(raw) && raw is Ohos,
{
    Ok(RawDisplayHandle::Ohos(OhosDisplayHandle::new()))
}

/// The handle that the native window gives, if there is a native window and it gives one.
pub open spec fn window_handle_of(native_window: Option<Option<RawWindowHandle>>) -> Result<
    RawWindowHandle,
    HandleError,
> {
    match native_window {
        Some(Some(handle)) => Ok(handle),
        Some(None) | None => Err(HandleError::Unavailable),
    }
}

/// The handle of the window, given the native window, if there is one, by the handle it gives.
pub fn window_handle(native_window: Option<Option<RawWindowHandle>>) -> (handle: Result<
    RawWindowHandle,
    HandleError,
>)
    ensures
        handle == window_handle_of(native_window),
{
    if let Some(window) = native_window {
        if let Some(handle) = window {
            return Ok(handle);
        }
        Err(HandleError::Unavailable)
    } else {
        Err(HandleError::Unavailable)
    }
}

/// The window has a handle exactly if there is a native window that gives one, and then it is that
/// one. Otherwise the handle is unavailable.
pub proof fn law_window_handle(
    native_window: Option<Option<RawWindowHandle>>,
    given: RawWindowHandle,
)
    ensures
        window_handle_of(native_window) == Ok::<RawWindowHandle, HandleError>(given)
            <==> native_window == Some(Some(given)),
        window_handle_of(native_window) is Err <==> native_window is None || native_window
            == Some(None::<RawWindowHandle>),
        window_handle_of(native_window) matches Err(error) ==> error is Unavailable,
{
}

} // verus!
