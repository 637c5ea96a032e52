//! Decoded raw input events and the decoding of an event's payload.
//!
//! A payload carries no tag of its own. It is a buffer that holds one of
//! three shapes, all starting at its first byte, and only the class of the
//! device that sent the event says which one. Decoding therefore takes the
//! class beside the bytes and reads the bytes of that one shape.

use vstd::prelude::*;
use crate::bytes::{i32_le, read_i32_le, read_u16_le, read_u32_le, u16_le, u32_le};
use crate::device::DeviceClass;

verus! {

/// The number of bytes that hold every shape of payload.
pub const PAYLOAD_CAPACITY: u32 = 24;

/// A key press or release.
#[derive(Clone, Copy, Debug, PartialEq, Eq, Structural)]
pub struct KeyboardEvent {
    /// The scan code of the key.
    pub make_code: u16,
    /// Scan code flags: make or break, and the extended-key prefixes.
    pub flags: u16,
    pub reserved: u16,
    /// The virtual key code.
    pub virtual_key: u16,
    /// The window message that corresponds to the event.
    pub message: u32,
    pub extra_information: u32,
}

/// A mouse movement, button or wheel event.
#[derive(Clone, Copy, Debug, PartialEq, Eq, Structural)]
pub struct MouseEvent {
    /// The state of the mouse: relative or absolute movement and the like.
    pub flags: u16,
    /// The transitions of the buttons.
    pub button_flags: u16,
    /// The wheel delta, where the transitions name a wheel.
    pub button_data: u16,
    pub raw_buttons: u32,
    pub last_x: i32,
    pub last_y: i32,
    pub extra_information: u32,
}

/// A report of a generic HID device.
#[derive(Clone, Copy, Debug, PartialEq, Eq, Structural)]
pub struct HidEvent {
    /// The size of one report in bytes.
    pub size_hid: u32,
    /// The number of reports in the event.
    pub count: u32,
    /// The first byte of the report data.
    pub raw_data: u8,
}

/// One decoded event: exactly one of the three shapes.
#[derive(Clone, Copy, Debug, PartialEq, Eq, Structural)]
pub enum RawInputEvent {
    Keyboard(KeyboardEvent),
    Mouse(MouseEvent),
    Hid(HidEvent),
}

impl MouseEvent {
    /// The button transitions and the button data as the one 32-bit word
    /// that they share in the payload.
    pub open spec fn spec_buttons(self) -> u32 {
        (self.button_flags + 65536 * self.button_data) as u32
    }

    /// The button transitions and the button data as the one 32-bit word
    /// that they share in the payload.
    pub fn buttons(&self) -> (word: u32)
        ensures
            word == self.spec_buttons(),
            word == self.button_flags + 65536 * self.button_data,
    {
        let low: u32 = self.button_flags as u32;
        let high: u32 = self.button_data as u32;
        low + 65536 * high
    }
}

impl RawInputEvent {
    /// The device class whose shape this event has.
    pub open spec fn spec_class(self) -> DeviceClass {
        match self {
            RawInputEvent::Keyboard(_) => DeviceClass::Keyboard,
            RawInputEvent::Mouse(_) => DeviceClass::Mouse,
            RawInputEvent::Hid(_) => DeviceClass::GenericHid,
        }
    }

    /// The device class whose shape this event has.
    pub fn class(&self) -> (class: DeviceClass)
        ensures
            class == self.spec_class(),
    {
        match self {
            RawInputEvent::Keyboard(_) => DeviceClass::Keyboard,
            RawInputEvent::Mouse(_) => DeviceClass::Mouse,
            RawInputEvent::Hid(_) => DeviceClass::GenericHid,
        }
    }
}

/// The number of leading payload bytes that the shape of `class` spans.
pub open spec fn view_size(class: DeviceClass) -> int {
    match class {
        DeviceClass::Keyboard => 16,
        DeviceClass::Mouse => 24,
        DeviceClass::GenericHid => 9,
    }
}

/// Whether decoding under `class` reads the payload byte at `offset`. The
/// mouse shape leaves two bytes of padding behind its first field.
pub open spec fn view_reads(class: DeviceClass, offset: int) -> bool {
    &&& 0 <= offset < view_size(class)
    &&& !(class == DeviceClass::Mouse && 2 <= offset < 4)
}

/// The keyboard shape of a payload.
pub open spec fn keyboard_view(bytes: Seq<u8>) -> KeyboardEvent {
    KeyboardEvent {
        make_code: u16_le(bytes, 0) as u16,
        flags: u16_le(bytes, 2) as u16,
        reserved: u16_le(bytes, 4) as u16,
        virtual_key: u16_le(bytes, 6) as u16,
        message: u32_le(bytes, 8) as u32,
        extra_information: u32_le(bytes, 12) as u32,
    }
}

/// The mouse shape of a payload.
pub open spec fn mouse_view(bytes: Seq<u8>) -> MouseEvent {
    MouseEvent {
        flags: u16_le(bytes, 0) as u16,
        button_flags: u16_le(bytes, 4) as u16,
        button_data: u16_le(bytes, 6) as u16,
        raw_buttons: u32_le(bytes, 8) as u32,
        last_x: i32_le(bytes, 12) as i32,
        last_y: i32_le(bytes, 16) as i32,
        extra_information: u32_le(bytes, 20) as u32,
    }
}

/// The generic HID shape of a payload.
pub open spec fn hid_view(bytes: Seq<u8>) -> HidEvent {
    HidEvent {
        size_hid: u32_le(bytes, 0) as u32,
        count: u32_le(bytes, 4) as u32,
        raw_data: bytes[8],
    }
}

/// The event that a payload holds when read under `class`, provided that
/// the payload spans the shape of that class.
pub open spec fn decoded_payload(class: DeviceClass, bytes: Seq<u8>) -> Option<RawInputEvent> {
    if bytes.len() < view_size(class) {
        None
    } else {
        Some(
            match class {
                DeviceClass::Keyboard => RawInputEvent::Keyboard(keyboard_view(bytes)),
                DeviceClass::Mouse => RawInputEvent::Mouse(mouse_view(bytes)),
                DeviceClass::GenericHid => RawInputEvent::Hid(hid_view(bytes)),
            },
        )
    }
}

/// The size of the shape of `class` in bytes.
pub fn payload_view_size(class: DeviceClass) -> (size: usize)
    ensures
        size == view_size(class),
        size <= PAYLOAD_CAPACITY,
{
    match class {
        DeviceClass::Keyboard => 16,
        DeviceClass::Mouse => 24,
        DeviceClass::GenericHid => 9,
    }
}

/// Decodes a payload under the class of the device that sent it. The
/// result has the shape of that class and holds the fields of that shape,
/// read from the payload's leading bytes; no other shape is looked at. A
/// payload shorter than the shape gives `None`.
pub fn decode_payload(class: DeviceClass, payload: &[u8]) -> (event: Option<RawInputEvent>)
    ensures
        event == decoded_payload(class, payload@),
        event is Some <==> payload@.len() >= view_size(class),
        event is Some ==> event->0.spec_class() == class,
{
    if payload.len() < payload_view_size(class) {
        return None;
    }
    match class {
        DeviceClass::Keyboard => Some(
            RawInputEvent::Keyboard(
                KeyboardEvent {
                    make_code: read_u16_le(payload, 0),
                    flags: read_u16_le(payload, 2),
                    reserved: read_u16_le(payload, 4),
                    virtual_key: read_u16_le(payload, 6),
                    message: read_u32_le(payload, 8),
                    extra_information: read_u32_le(payload, 12),
                },
            ),
        ),
        DeviceClass::Mouse => Some(
            RawInputEvent::Mouse(
                MouseEvent {
                    flags: read_u16_le(payload, 0),
                    button_flags: read_u16_le(payload, 4),
                    button_data: read_u16_le(payload, 6),
                    raw_buttons: read_u32_le(payload, 8),
                    last_x: read_i32_le(payload, 12),
                    last_y: read_i32_le(payload, 16),
                    extra_information: read_u32_le(payload, 20),
                },
            ),
        ),
        DeviceClass::GenericHid => Some(
            RawInputEvent::Hid(
                HidEvent {
                    size_hid: read_u32_le(payload, 0),
                    count: read_u32_le(payload, 4),
                    raw_data: payload[8],
                },
            ),
        ),
    }
}

} // verus!
