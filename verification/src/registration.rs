//! The registration manager: which device classes this process wants raw
//! input from, and what came of declaring that interest.

use vstd::prelude::*;

verus! {

/// The usage page of the generic desktop controls.
pub const HID_USAGE_PAGE_GENERIC: u16 = 1;

/// The usage of a keyboard on the generic desktop page.
pub const HID_USAGE_GENERIC_KEYBOARD: u16 = 6;

/// The flag that keeps legacy messages of the registered class away.
pub const RIDEV_NOLEGACY: u32 = 0x30;

/// One declaration of interest: a usage class, how its input is to be
/// delivered, and the window that receives it.
#[derive(Clone, Copy, Debug, PartialEq, Eq, Structural)]
pub struct RegistrationRequest {
    pub usage_page: u16,
    pub usage: u16,
    pub flags: u32,
    pub target_window: u64,
}

/// Why a registration did not take place.
#[derive(Clone, Copy, Debug, PartialEq, Eq, Structural)]
pub enum RegistrationError {
    /// There was nothing to register.
    NoRequests,
    /// The operating system rejected the requests with this status code.
    Rejected { os_code: u32 },
}

/// What a registration of `count` requests amounts to when the operating
/// system answered with `reply`. Nothing can be registered from no
/// requests, whatever the answer; otherwise the answer decides.
pub open spec fn registered(count: nat, reply: Result<(), u32>) -> Result<(), RegistrationError> {
    if count == 0 {
        Err(RegistrationError::NoRequests)
    } else {
        match reply {
            Ok(_) => Ok(()),
            Err(os_code) => Err(RegistrationError::Rejected { os_code }),
        }
    }
}

/// The interest in keyboards, without their legacy messages, delivered to
/// `target_window`.
pub fn keyboard_requests(target_window: u64) -> (requests: Vec<RegistrationRequest>)
    ensures
        requests@ == seq![
            (RegistrationRequest {
                usage_page: HID_USAGE_PAGE_GENERIC,
                usage: HID_USAGE_GENERIC_KEYBOARD,
                flags: RIDEV_NOLEGACY,
                target_window,
            }),
        ],
{
    let mut requests: Vec<RegistrationRequest> = Vec::new();
    requests.push(
        RegistrationRequest {
            usage_page: HID_USAGE_PAGE_GENERIC,
            usage: HID_USAGE_GENERIC_KEYBOARD,
            flags: RIDEV_NOLEGACY,
            target_window,
        },
    );
    proof {
        assert(requests@ =~= seq![
            (RegistrationRequest {
                usage_page: HID_USAGE_PAGE_GENERIC,
                usage: HID_USAGE_GENERIC_KEYBOARD,
                flags: RIDEV_NOLEGACY,
                target_window,
            }),
        ]);
    }
    requests
}

/// Checks requests before they are sent: an empty set is refused, and the
/// operating system is then not to be called.
pub fn check_requests(requests: &[RegistrationRequest]) -> (result: Result<(), RegistrationError>)
    ensures
        result == if requests@.len() == 0 {
            Err::<(), RegistrationError>(RegistrationError::NoRequests)
        } else {
            Ok::<(), RegistrationError>(())
        },
{
    if requests.len() == 0 {
        Err(RegistrationError::NoRequests)
    } else {
        Ok(())
    }
}

/// The outcome of registering `requests`, given the answer of the
/// operating system: `Ok`, or the status code with which it refused.
pub fn register_raw_input(requests: &[RegistrationRequest], reply: Result<(), u32>) -> (result:
    Result<(), RegistrationError>)
    ensures
        result == registered(requests@.len(), reply),
{
    if requests.len() == 0 {
        return Err(RegistrationError::NoRequests);
    }
    match reply {
        Ok(_) => Ok(()),
        Err(os_code) => Err(RegistrationError::Rejected { os_code }),
    }
}

} // verus!
