//! Device handles and device classes.

use vstd::prelude::*;
use crate::error::InputError;

verus! {

/// The identifier that the operating system assigns to an attached input
/// device. It is a key into tables that the operating system owns.
#[derive(Clone, Copy, Debug, PartialEq, Eq, Structural)]
pub struct DeviceHandle {
    pub raw: u64,
}

/// The class of an input device. It selects the shape of the device's
/// capability record and of the payload of its events.
#[derive(Clone, Copy, Debug, PartialEq, Eq, Structural)]
pub enum DeviceClass {
    Mouse,
    Keyboard,
    GenericHid,
}

/// The class that a class tag stands for, if it stands for one.
pub open spec fn class_of_tag(tag: u32) -> Option<DeviceClass> {
    if tag == 0 {
        Some(DeviceClass::Mouse)
    } else if tag == 1 {
        Some(DeviceClass::Keyboard)
    } else if tag == 2 {
        Some(DeviceClass::GenericHid)
    } else {
        None
    }
}

/// What classifying a tag yields: its class, or the tag itself as an
/// unknown device class.
pub open spec fn classified(tag: u32) -> Result<DeviceClass, InputError> {
    match class_of_tag(tag) {
        Some(class) => Ok(class),
        None => Err(InputError::UnknownDeviceClass { tag }),
    }
}

impl DeviceClass {
    /// The tag under which records name this class.
    pub open spec fn spec_tag(self) -> u32 {
        match self {
            DeviceClass::Mouse => 0,
            DeviceClass::Keyboard => 1,
            DeviceClass::GenericHid => 2,
        }
    }

    /// The tag under which records name this class.
    pub fn tag(&self) -> (tag: u32)
        ensures
            tag == self.spec_tag(),
            class_of_tag(tag) == Some(*self),
    {
        match self {
            DeviceClass::Mouse => 0,
            DeviceClass::Keyboard => 1,
            DeviceClass::GenericHid => 2,
        }
    }
}

/// Resolves a class tag. Tags 0, 1 and 2 name the mouse, the keyboard and
/// the generic HID class; every other tag is an unknown device class.
pub fn classify(tag: u32) -> (result: Result<DeviceClass, InputError>)
    ensures
        result == classified(tag),
{
    if tag == 0 {
        Ok(DeviceClass::Mouse)
    } else if tag == 1 {
        Ok(DeviceClass::Keyboard)
    } else if tag == 2 {
        Ok(DeviceClass::GenericHid)
    } else {
        Err(InputError::UnknownDeviceClass { tag })
    }
}

} // verus!
