//! What can go wrong while enumerating devices and decoding events.

use vstd::prelude::*;
use crate::device::DeviceHandle;

verus! {

/// The status reported for a fetch that claimed success but delivered fewer
/// bytes than the record it was asked for.
pub const ERROR_INVALID_DATA: u32 = 13;

/// The status with which the operating system says that the buffer it was
/// given is too small for what it has to deliver.
pub const ERROR_INSUFFICIENT_BUFFER: u32 = 122;

/// The status code inside an error code of the platform's wider format.
///
/// That format wraps a status code by putting it into the low 16 bits
/// behind the prefix `0x8007`. Such a value stands for the status code it
/// wraps; every other value stands for itself.
pub open spec fn status_of(code: u32) -> u32 {
    if 0x8007_0000 <= code <= 0x8007_FFFF {
        (code - 0x8007_0000) as u32
    } else {
        code
    }
}

/// Unwraps the status code inside an error code, so that it can be held
/// against the constants above.
pub fn win32_status(code: u32) -> (status: u32)
    ensures
        status == status_of(code),
{
    if 0x8007_0000 <= code && code <= 0x8007_FFFF {
        code - 0x8007_0000
    } else {
        code
    }
}

/// A failure of the device directory or of the event decoder.
#[derive(Clone, Copy, Debug, PartialEq, Eq)]
pub enum InputError {
    /// The device list could not be fetched.
    Enumeration { os_code: u32 },
    /// The capability record of one device could not be fetched.
    CapabilityQuery { handle: DeviceHandle, os_code: u32 },
    /// The header or the payload of one event could not be fetched. The
    /// device is that of the event's header, where the header buffer
    /// reached over its handle.
    Decoding { device: Option<DeviceHandle>, os_code: u32 },
    /// A record names a device class outside the known set.
    UnknownDeviceClass { tag: u32 },
}

} // verus!
