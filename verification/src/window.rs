//! The boundary to the receiving window: what became of setting it up,
//! and where a message that reached it goes.

use vstd::prelude::*;

verus! {

/// The message that announces a raw input event.
pub const WM_INPUT: u32 = 0x00FF;

/// The message that announces the arrival or removal of a device.
pub const WM_INPUT_DEVICE_CHANGE: u32 = 0x00FE;

/// The handle of a window.
#[derive(Clone, Copy, Debug, PartialEq, Eq, Structural)]
pub struct WindowHandle {
    pub raw: u64,
}

/// Why the receiving window could not be set up.
#[derive(Clone, Copy, Debug, PartialEq, Eq, Structural)]
pub enum WindowError {
    /// The window class was not registered.
    ClassRegistration { os_code: u32 },
    /// The window was not created.
    Creation { os_code: u32 },
}

/// Where a message goes.
#[derive(Clone, Copy, Debug, PartialEq, Eq, Structural)]
pub enum MessageRoute {
    /// To the event decoder; the message's parameter is the event handle.
    Decode,
    /// A device came or went: the message is noted and needs no more.
    DeviceChange,
    /// To the default handling of the window.
    Default,
}

/// The outcome of registering the window class. The atom 0 stands for
/// failure, and `os_code` is then the status code of the failure; every
/// other atom is the registered class.
pub fn register_window_class(atom: u16, os_code: u32) -> (result: Result<u16, WindowError>)
    ensures
        result == if atom == 0 {
            Err::<u16, WindowError>(WindowError::ClassRegistration { os_code })
        } else {
            Ok::<u16, WindowError>(atom)
        },
{
    if atom == 0 {
        Err(WindowError::ClassRegistration { os_code })
    } else {
        Ok(atom)
    }
}

/// The outcome of creating the window. The handle 0 stands for failure,
/// and `os_code` is then the status code of the failure; every other
/// handle is the window.
pub fn create_window(handle: u64, os_code: u32) -> (result: Result<WindowHandle, WindowError>)
    ensures
        result == if handle == 0 {
            Err::<WindowHandle, WindowError>(WindowError::Creation { os_code })
        } else {
            Ok::<WindowHandle, WindowError>(WindowHandle { raw: handle })
        },
{
    if handle == 0 {
        Err(WindowError::Creation { os_code })
    } else {
        Ok(WindowHandle { raw: handle })
    }
}

/// Routes a message by its kind: raw input goes to the decoder, a device
/// change is noted, and whatever else arrives is left to the window's
/// default handling.
pub fn window_handle_message(message: u32) -> (route: MessageRoute)
    ensures
        route == if message == WM_INPUT {
            MessageRoute::Decode
        } else if message == WM_INPUT_DEVICE_CHANGE {
            MessageRoute::DeviceChange
        } else {
            MessageRoute::Default
        },
{
    if message == WM_INPUT {
        MessageRoute::Decode
    } else if message == WM_INPUT_DEVICE_CHANGE {
        MessageRoute::DeviceChange
    } else {
        MessageRoute::Default
    }
}

} // verus!
