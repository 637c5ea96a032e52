//! The device directory: the list of attached devices and the capability
//! record of one device, read from the bytes that the queries delivered.

use vstd::prelude::*;
use crate::bytes::{read_u16_le, read_u32_le, read_u64_le, u16_le, u32_le, u64_le};
use crate::device::{class_of_tag, classify, DeviceClass, DeviceHandle};
use crate::error::{InputError, ERROR_INVALID_DATA};
use crate::query::{fetched, FailedFetch, Failure};

verus! {

/// The size of one entry of the device list: the handle in eight bytes,
/// the class tag in four, and four bytes of padding.
pub const DEVICE_ENTRY_SIZE: usize = 16;

/// The size of a capability record: its own size and the class tag in four
/// bytes each, then 24 bytes that hold the class's fields.
pub const CAPABILITY_RECORD_SIZE: usize = 32;

/// One entry of an enumeration: a device, its class, and the class tag as
/// the operating system wrote it.
#[derive(Clone, Copy, Debug, PartialEq, Eq, Structural)]
pub struct DeviceDescriptor {
    pub handle: DeviceHandle,
    pub class: DeviceClass,
    pub raw_flags: u32,
}

/// What a device of each class says of itself.
#[derive(Clone, Copy, Debug, PartialEq, Eq, Structural)]
pub enum DeviceCapabilityInfo {
    Mouse { id: u32, button_count: u32, sample_rate: u32, has_horizontal_wheel: bool },
    Keyboard {
        kind: u32,
        sub_kind: u32,
        mode: u32,
        function_key_count: u32,
        indicator_count: u32,
        total_key_count: u32,
    },
    Hid { vendor_id: u32, product_id: u32, version: u32, usage_page: u16, usage: u16 },
}

impl DeviceCapabilityInfo {
    /// The class of the device that the record describes.
    pub open spec fn spec_class(self) -> DeviceClass {
        match self {
            DeviceCapabilityInfo::Mouse { .. } => DeviceClass::Mouse,
            DeviceCapabilityInfo::Keyboard { .. } => DeviceClass::Keyboard,
            DeviceCapabilityInfo::Hid { .. } => DeviceClass::GenericHid,
        }
    }

    /// The class of the device that the record describes.
    pub fn class(&self) -> (class: DeviceClass)
        ensures
            class == self.spec_class(),
    {
        match self {
            DeviceCapabilityInfo::Mouse { .. } => DeviceClass::Mouse,
            DeviceCapabilityInfo::Keyboard { .. } => DeviceClass::Keyboard,
            DeviceCapabilityInfo::Hid { .. } => DeviceClass::GenericHid,
        }
    }
}

/// The class tag of entry `index` of a device list.
pub open spec fn entry_tag(bytes: Seq<u8>, index: int) -> u32 {
    u32_le(bytes, 16 * index + 8) as u32
}

/// Entry `index` of a device list whose class tag is known.
pub open spec fn entry_descriptor(bytes: Seq<u8>, index: int) -> DeviceDescriptor {
    DeviceDescriptor {
        handle: DeviceHandle { raw: u64_le(bytes, 16 * index) as u64 },
        class: class_of_tag(entry_tag(bytes, index))->0,
        raw_flags: entry_tag(bytes, index),
    }
}

/// Whether entry `index` of a device list names a known class.
pub open spec fn entry_known(bytes: Seq<u8>, index: int) -> bool {
    class_of_tag(entry_tag(bytes, index)) is Some
}

/// The class tag of a capability record.
pub open spec fn record_tag(bytes: Seq<u8>) -> u32 {
    u32_le(bytes, 4) as u32
}

/// The fields of a capability record, read as those of `class`.
pub open spec fn record_fields(class: DeviceClass, bytes: Seq<u8>) -> DeviceCapabilityInfo {
    match class {
        DeviceClass::Mouse => DeviceCapabilityInfo::Mouse {
            id: u32_le(bytes, 8) as u32,
            button_count: u32_le(bytes, 12) as u32,
            sample_rate: u32_le(bytes, 16) as u32,
            has_horizontal_wheel: u32_le(bytes, 20) != 0,
        },
        DeviceClass::Keyboard => DeviceCapabilityInfo::Keyboard {
            kind: u32_le(bytes, 8) as u32,
            sub_kind: u32_le(bytes, 12) as u32,
            mode: u32_le(bytes, 16) as u32,
            function_key_count: u32_le(bytes, 20) as u32,
            indicator_count: u32_le(bytes, 24) as u32,
            total_key_count: u32_le(bytes, 28) as u32,
        },
        DeviceClass::GenericHid => DeviceCapabilityInfo::Hid {
            vendor_id: u32_le(bytes, 8) as u32,
            product_id: u32_le(bytes, 12) as u32,
            version: u32_le(bytes, 16) as u32,
            usage_page: u16_le(bytes, 20) as u16,
            usage: u16_le(bytes, 22) as u16,
        },
    }
}

/// What the capability fetch for `handle` amounts to.
///
/// A failed fetch is a capability query error with the fetch's status
/// code, whatever the failed call left in the buffer: nothing in a record
/// that was not delivered is taken to mean anything. A record that is too
/// short is such an error too, with `ERROR_INVALID_DATA`.
/// A whole record is read under the class that its tag names; a tag that
/// names none is an unknown device class, and none of the class fields is
/// looked at.
pub open spec fn capability_info(handle: DeviceHandle, fetch: Result<Seq<u8>, Failure>) -> Result<
    DeviceCapabilityInfo,
    InputError,
> {
    match fetch {
        Err(failure) => Err(InputError::CapabilityQuery { handle, os_code: failure.os_code }),
        Ok(bytes) => if bytes.len() < 32 {
            Err(InputError::CapabilityQuery { handle, os_code: ERROR_INVALID_DATA })
        } else {
            match class_of_tag(record_tag(bytes)) {
                Some(class) => Ok(record_fields(class, bytes)),
                None => Err(InputError::UnknownDeviceClass { tag: record_tag(bytes) }),
            }
        },
    }
}

/// Reads the capability record that was fetched for `handle`.
pub fn get_raw_input_device_info(handle: DeviceHandle, fetch: Result<Vec<u8>, FailedFetch>) -> (result:
    Result<DeviceCapabilityInfo, InputError>)
    ensures
        result == capability_info(handle, fetched(fetch)),
        result matches Ok(info) ==> class_of_tag(record_tag(fetch->Ok_0@)) == Some(
            info.spec_class(),
        ),
{
    let record = match fetch {
        Ok(record) => record,
        Err(failure) => {
            return Err(InputError::CapabilityQuery { handle, os_code: failure.os_code });
        },
    };
    let bytes = record.as_slice();
    if bytes.len() < CAPABILITY_RECORD_SIZE {
        return Err(InputError::CapabilityQuery { handle, os_code: ERROR_INVALID_DATA });
    }
    let tag: u32 = read_u32_le(bytes, 4);
    match classify(tag) {
        Err(error) => Err(error),
        Ok(DeviceClass::Mouse) => Ok(
            DeviceCapabilityInfo::Mouse {
                id: read_u32_le(bytes, 8),
                button_count: read_u32_le(bytes, 12),
                sample_rate: read_u32_le(bytes, 16),
                has_horizontal_wheel: read_u32_le(bytes, 20) != 0,
            },
        ),
        Ok(DeviceClass::Keyboard) => Ok(
            DeviceCapabilityInfo::Keyboard {
                kind: read_u32_le(bytes, 8),
                sub_kind: read_u32_le(bytes, 12),
                mode: read_u32_le(bytes, 16),
                function_key_count: read_u32_le(bytes, 20),
                indicator_count: read_u32_le(bytes, 24),
                total_key_count: read_u32_le(bytes, 28),
            },
        ),
        Ok(DeviceClass::GenericHid) => Ok(
            DeviceCapabilityInfo::Hid {
                vendor_id: read_u32_le(bytes, 8),
                product_id: read_u32_le(bytes, 12),
                version: read_u32_le(bytes, 16),
                usage_page: read_u16_le(bytes, 20),
                usage: read_u16_le(bytes, 22),
            },
        ),
    }
}

/// Reads the device list that was fetched, `count` entries long.
///
/// A failed fetch is an enumeration error with the fetch's status code,
/// whatever the failed call left in the buffer, and so is a buffer too short for `count` entries, with
/// `ERROR_INVALID_DATA`. Otherwise the entries are read in order. The
/// first entry whose class tag names no class fails the enumeration as an
/// unknown device class with that tag; where there is none, the result
/// holds one descriptor for each entry, in the order of the buffer. No
/// entries give the empty list.
pub fn get_raw_input_device_list(fetch: Result<Vec<u8>, FailedFetch>, count: u32) -> (result: Result<
    Vec<DeviceDescriptor>,
    InputError,
>)
    ensures
        match fetched(fetch) {
            Err(failure) => result == Err::<Vec<DeviceDescriptor>, InputError>(
                InputError::Enumeration { os_code: failure.os_code },
            ),
            Ok(bytes) => if bytes.len() < 16 * count {
                result == Err::<Vec<DeviceDescriptor>, InputError>(
                    InputError::Enumeration { os_code: ERROR_INVALID_DATA },
                )
            } else {
                match result {
                    Ok(list) => {
                        &&& list@.len() == count
                        &&& forall|i: int| 0 <= i < count ==> #[trigger] entry_known(bytes, i)
                        &&& forall|i: int|
                            0 <= i < count ==> #[trigger] list@[i] == entry_descriptor(bytes, i)
                        &&& forall|i: int|
                            0 <= i < count ==> class_of_tag((#[trigger] list@[i]).raw_flags)
                                == Some(list@[i].class)
                    },
                    Err(error) => exists|k: int|
                        {
                            &&& 0 <= k < count
                            &&& !#[trigger] entry_known(bytes, k)
                            &&& error == InputError::UnknownDeviceClass { tag: entry_tag(bytes, k) }
                            &&& forall|j: int| 0 <= j < k ==> entry_known(bytes, j)
                        },
                }
            },
        },
{
    let buffer = match fetch {
        Ok(buffer) => buffer,
        Err(failure) => {
            return Err(InputError::Enumeration { os_code: failure.os_code });
        },
    };
    let bytes = buffer.as_slice();
    let entries: usize = count as usize;
    let length: usize = bytes.len();
    if length / DEVICE_ENTRY_SIZE < entries {
        return Err(InputError::Enumeration { os_code: ERROR_INVALID_DATA });
    }
    let mut list: Vec<DeviceDescriptor> = Vec::new();
    let mut index: usize = 0;
    while index < entries
        invariant
            index <= entries,
            entries == count,
            16 * entries <= length == bytes@.len(),
            fetched(fetch) == Ok::<Seq<u8>, Failure>(bytes@),
            list@.len() == index,
            forall|i: int| 0 <= i < index ==> #[trigger] entry_known(bytes@, i),
            forall|i: int| 0 <= i < index ==> #[trigger] list@[i] == entry_descriptor(bytes@, i),
            forall|i: int|
                0 <= i < index ==> class_of_tag((#[trigger] list@[i]).raw_flags) == Some(
                    list@[i].class,
                ),
        decreases entries - index,
    {
        let raw: u64 = read_u64_le(bytes, 16 * index);
        let tag: u32 = read_u32_le(bytes, 16 * index + 8);
        match classify(tag) {
            Ok(class) => {
                list.push(DeviceDescriptor { handle: DeviceHandle { raw }, class, raw_flags: tag });
            },
            Err(error) => {
                assert(!entry_known(bytes@, index as int));
                return Err(error);
            },
        }
        index += 1;
    }
    Ok(list)
}

} // verus!
