use raw_input::bytes::{read_i32_le, read_u16_le, read_u32_le, read_u64_le};
use raw_input::device::DeviceClass;
use raw_input::event::{
    decode_payload, payload_view_size, HidEvent, KeyboardEvent, MouseEvent, RawInputEvent,
    PAYLOAD_CAPACITY,
};

fn keyboard_payload(fill: u8) -> Vec<u8> {
    let mut bytes = vec![fill; 24];
    bytes[0..2].copy_from_slice(&0x001Eu16.to_le_bytes());
    bytes[2..4].copy_from_slice(&0x0001u16.to_le_bytes());
    bytes[4..6].copy_from_slice(&0u16.to_le_bytes());
    bytes[6..8].copy_from_slice(&0x0041u16.to_le_bytes());
    bytes[8..12].copy_from_slice(&0x0101u32.to_le_bytes());
    bytes[12..16].copy_from_slice(&0xDEAD_BEEFu32.to_le_bytes());
    bytes
}

fn mouse_payload(fill: u8) -> Vec<u8> {
    let mut bytes = vec![fill; 24];
    bytes[0..2].copy_from_slice(&0x0001u16.to_le_bytes());
    bytes[4..6].copy_from_slice(&0x0400u16.to_le_bytes());
    bytes[6..8].copy_from_slice(&0xFF88u16.to_le_bytes());
    bytes[8..12].copy_from_slice(&7u32.to_le_bytes());
    bytes[12..16].copy_from_slice(&(-5i32).to_le_bytes());
    bytes[16..20].copy_from_slice(&i32::MIN.to_le_bytes());
    bytes[20..24].copy_from_slice(&0x8000_0001u32.to_le_bytes());
    bytes
}

fn hid_payload(fill: u8) -> Vec<u8> {
    let mut bytes = vec![fill; 24];
    bytes[0..4].copy_from_slice(&8u32.to_le_bytes());
    bytes[4..8].copy_from_slice(&2u32.to_le_bytes());
    bytes[8] = 0x7F;
    bytes
}

fn expected_keyboard() -> RawInputEvent {
    RawInputEvent::Keyboard(KeyboardEvent {
        make_code: 0x001E,
        flags: 0x0001,
        reserved: 0,
        virtual_key: 0x0041,
        message: 0x0101,
        extra_information: 0xDEAD_BEEF,
    })
}

fn expected_mouse() -> RawInputEvent {
    RawInputEvent::Mouse(MouseEvent {
        flags: 0x0001,
        button_flags: 0x0400,
        button_data: 0xFF88,
        raw_buttons: 7,
        last_x: -5,
        last_y: i32::MIN,
        extra_information: 0x8000_0001,
    })
}

fn expected_hid() -> RawInputEvent {
    RawInputEvent::Hid(HidEvent { size_hid: 8, count: 2, raw_data: 0x7F })
}

#[test]
fn little_endian_readers_give_exact_values() {
    let bytes: Vec<u8> = vec![0x01, 0x02, 0x03, 0x04, 0x05, 0x06, 0x07, 0x08, 0xFF, 0xFF, 0xFF, 0xFF];
    assert_eq!(read_u16_le(&bytes, 0), 0x0201);
    assert_eq!(read_u16_le(&bytes, 1), 0x0302);
    assert_eq!(read_u32_le(&bytes, 0), 0x0403_0201);
    assert_eq!(read_u32_le(&bytes, 4), 0x0807_0605);
    assert_eq!(read_u64_le(&bytes, 0), 0x0807_0605_0403_0201);
    assert_eq!(read_u64_le(&bytes, 4), 0xFFFF_FFFF_0807_0605);
    assert_eq!(read_i32_le(&bytes, 8), -1);
    assert_eq!(read_i32_le(&bytes, 0), 0x0403_0201);
    assert_eq!(read_u16_le(&bytes, 10), u16::MAX);
    assert_eq!(read_u32_le(&bytes, 8), u32::MAX);
}

#[test]
fn signed_reader_covers_both_ends() {
    assert_eq!(read_i32_le(&i32::MIN.to_le_bytes(), 0), i32::MIN);
    assert_eq!(read_i32_le(&i32::MAX.to_le_bytes(), 0), i32::MAX);
    assert_eq!(read_i32_le(&0i32.to_le_bytes(), 0), 0);
    assert_eq!(read_i32_le(&(-2i32).to_le_bytes(), 0), -2);
}

#[test]
fn keyboard_payload_decodes_field_by_field() {
    assert_eq!(decode_payload(DeviceClass::Keyboard, &keyboard_payload(0)), Some(expected_keyboard()));
}

#[test]
fn mouse_payload_decodes_field_by_field() {
    assert_eq!(decode_payload(DeviceClass::Mouse, &mouse_payload(0)), Some(expected_mouse()));
}

#[test]
fn hid_payload_decodes_field_by_field() {
    assert_eq!(decode_payload(DeviceClass::GenericHid, &hid_payload(0)), Some(expected_hid()));
}

#[test]
fn mouse_buttons_word_joins_flags_and_data() {
    let event = MouseEvent {
        flags: 0,
        button_flags: 0x0400,
        button_data: 0xFF88,
        raw_buttons: 0,
        last_x: 0,
        last_y: 0,
        extra_information: 0,
    };
    assert_eq!(event.buttons(), 0xFF88_0400);
    let full = MouseEvent { button_flags: u16::MAX, button_data: u16::MAX, ..event };
    assert_eq!(full.buttons(), u32::MAX);
}

#[test]
fn decoded_event_has_the_class_it_was_read_under() {
    for class in [DeviceClass::Mouse, DeviceClass::Keyboard, DeviceClass::GenericHid] {
        let event = decode_payload(class, &[0u8; 24]).unwrap();
        assert_eq!(event.class(), class);
    }
}

#[test]
fn decoding_twice_gives_the_same_event() {
    let payload = mouse_payload(0x5A);
    let copy = payload.clone();
    for class in [DeviceClass::Mouse, DeviceClass::Keyboard, DeviceClass::GenericHid] {
        assert_eq!(decode_payload(class, &payload), decode_payload(class, &copy));
        assert_eq!(decode_payload(class, &payload), decode_payload(class, &payload));
    }
}

#[test]
fn keyboard_decoding_ignores_bytes_of_other_shapes() {
    let clean = keyboard_payload(0);
    let poisoned = keyboard_payload(0xAA);
    assert_ne!(clean, poisoned);
    assert_eq!(decode_payload(DeviceClass::Keyboard, &poisoned), Some(expected_keyboard()));
    assert_eq!(decode_payload(DeviceClass::Keyboard, &clean), decode_payload(DeviceClass::Keyboard, &poisoned));
}

#[test]
fn mouse_decoding_ignores_padding() {
    let clean = mouse_payload(0);
    let poisoned = mouse_payload(0xAA);
    assert_ne!(clean, poisoned);
    assert_eq!(decode_payload(DeviceClass::Mouse, &poisoned), Some(expected_mouse()));
}

#[test]
fn hid_decoding_ignores_bytes_of_other_shapes() {
    let clean = hid_payload(0);
    let poisoned = hid_payload(0xAA);
    assert_ne!(clean, poisoned);
    assert_eq!(decode_payload(DeviceClass::GenericHid, &poisoned), Some(expected_hid()));
}

#[test]
fn same_bytes_read_under_another_class_give_another_shape() {
    let payload = keyboard_payload(0);
    let as_mouse = decode_payload(DeviceClass::Mouse, &payload).unwrap();
    assert_eq!(
        as_mouse,
        RawInputEvent::Mouse(MouseEvent {
            flags: 0x001E,
            button_flags: 0,
            button_data: 0x0041,
            raw_buttons: 0x0101,
            last_x: 0xDEAD_BEEFu32 as i32,
            last_y: 0,
            extra_information: 0,
        })
    );
}

#[test]
fn short_payload_is_not_decoded() {
    assert_eq!(decode_payload(DeviceClass::Keyboard, &[0u8; 15]), None);
    assert_eq!(decode_payload(DeviceClass::Mouse, &[0u8; 23]), None);
    assert_eq!(decode_payload(DeviceClass::GenericHid, &[0u8; 8]), None);
    assert_eq!(decode_payload(DeviceClass::Keyboard, &[]), None);
}

#[test]
fn payload_of_exactly_the_shape_is_decoded() {
    assert_eq!(
        decode_payload(DeviceClass::Keyboard, &keyboard_payload(0)[..16]),
        Some(expected_keyboard())
    );
    assert_eq!(decode_payload(DeviceClass::GenericHid, &hid_payload(0)[..9]), Some(expected_hid()));
    assert_eq!(decode_payload(DeviceClass::Mouse, &mouse_payload(0)[..24]), Some(expected_mouse()));
}

#[test]
fn shapes_fit_the_payload_capacity() {
    assert_eq!(payload_view_size(DeviceClass::Keyboard), 16);
    assert_eq!(payload_view_size(DeviceClass::Mouse), 24);
    assert_eq!(payload_view_size(DeviceClass::GenericHid), 9);
    assert_eq!(PAYLOAD_CAPACITY, 24);
}
