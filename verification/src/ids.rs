//! Identifiers of windows and input devices, and the backend's error.
use vstd::prelude::*;

verus! {

/// Identifies the window. There is a single one as far as events are concerned.
#[derive(Clone, Copy, Debug, PartialEq, Eq, PartialOrd, Ord, Hash, Structural)]
pub struct WindowId;

impl WindowId {
    /// The identifier of the window.
    pub fn dummy() -> (id: WindowId)
        ensures
            id == WindowId,
    {
        WindowId
    }
}

impl From<WindowId> for u64 {
    fn from(_id: WindowId) -> (n: u64) {
        0
    }
}

impl vstd::std_specs::convert::FromSpecImpl<WindowId> for u64 {
    open spec fn obeys_from_spec() -> bool {
        true
    }

    open spec fn from_spec(_id: WindowId) -> u64 {
        0
    }
}

impl From<u64> for WindowId {
    fn from(_n: u64) -> (id: WindowId) {
        WindowId
    }
}

impl vstd::std_specs::convert::FromSpecImpl<u64> for WindowId {
    open spec fn obeys_from_spec() -> bool {
        true
    }

    open spec fn from_spec(_n: u64) -> WindowId {
        WindowId
    }
}

/// The window's number is zero, and every number is that of the window.
pub proof fn law_window_has_number_zero(id: WindowId, n: u64)
    ensures
        <u64 as vstd::std_specs::convert::FromSpec<WindowId>>::from_spec(id) == 0,
        <WindowId as vstd::std_specs::convert::FromSpec<u64>>::from_spec(n) == id,
{
}

/// A window's identifier survives being turned into a number and back.
pub proof fn law_window_id_survives_number(id: WindowId)
    ensures
        <WindowId as vstd::std_specs::convert::FromSpec<u64>>::from_spec(
            <u64 as vstd::std_specs::convert::FromSpec<WindowId>>::from_spec(id),
        ) == id,
{
}

/// Identifies the device an input event came from.
#[derive(Clone, Copy, Debug, PartialEq, Eq, PartialOrd, Ord, Hash, Structural)]
pub struct DeviceId(pub i32);

impl DeviceId {
    /// The identifier of the pointer and of events that no device caused.
    pub fn dummy() -> (id: DeviceId)
        ensures
            id == DeviceId(0),
    {
        DeviceId(0)
    }

    /// The low thirty-two bits of a device number of the ability framework, as a signed number.
    pub open spec fn low_bits(device: int) -> int {
        let low = device % 0x1_0000_0000;
        if low < 0x8000_0000 {
            low
        } else {
            low - 0x1_0000_0000
        }
    }

    /// The device with the given number of the ability framework.
    pub fn from_native(device: i64) -> (id: DeviceId)
        ensures
            id.0 == DeviceId::low_bits(device as int),
    {
        proof {
            lemma_low_bits(device);
        }
        DeviceId(
            #[verifier::truncate]
            (device as i32),
        )
    }
}

/// The number of a device is that of the ability framework up to a multiple of 2^32, and the same
/// if that has thirty-two bits.
pub proof fn law_device_number(device: int)
    ensures
        i32::MIN <= DeviceId::low_bits(device) <= i32::MAX,
        (DeviceId::low_bits(device) - device) % 0x1_0000_0000 == 0,
        i32::MIN <= device <= i32::MAX ==> DeviceId::low_bits(device) == device,
{
}

proof fn lemma_low_bits(device: i64)
    ensures
        device as i32 == DeviceId::low_bits(device as int),
{
    assert(device as i32 == (if (device as u64 & 0xffff_ffff) < 0x8000_0000 {
        (device as u64 & 0xffff_ffff) as int
    } else {
        (device as u64 & 0xffff_ffff) - 0x1_0000_0000
    })) by (bit_vector);
    assert(device as u64 & 0xffff_ffff == device as u64 % 0x1_0000_0000) by (bit_vector);
    assert(device < 0 ==> device as u64 == device + 0x1_0000_0000_0000_0000) by (bit_vector);
    assert(device >= 0 ==> device as u64 == device) by (bit_vector);
}

/// The error of a window that the platform does not grant.
#[derive(Clone, Copy, Debug, Default, PartialEq, Eq, Structural)]
pub struct OsError;

impl OsError {
    /// The message shown for the error.
    pub fn to_string(&self) -> (message: String)
        ensures
            message@ == "OpenHarmony OS Error"@,
    {
        "OpenHarmony OS Error".to_owned()
    }
}

/// The error of a request that the platform has no means to serve.
#[derive(Clone, Copy, Debug, PartialEq, Eq, Structural)]
pub struct NotSupportedError;

/// Why a request that reaches outside the application failed.
#[derive(Clone, Copy, Debug, PartialEq, Eq, Structural)]
pub enum ExternalError {
    NotSupported(NotSupportedError),
    Os(OsError),
}

} // verus!
