//! The event decoder: from an event's header to its typed record, in two
//! phases with the device directory between them.
//!
//! Decoding one event takes three fetches, and what is fetched next
//! depends on what the last fetch delivered. The caller makes the fetches;
//! `get_raw_input_data` takes each result and says how decoding goes on.
//! The class under which the payload is read comes from the capability
//! record of the header's device and from nowhere else: the header's own
//! hint is carried along and never used to pick a shape.

use vstd::prelude::*;
use crate::bytes::{read_u32_le, read_u64_le, u32_le, u64_le};
use crate::device::{DeviceClass, DeviceHandle};
use crate::directory::{capability_info, get_raw_input_device_info};
use crate::error::{InputError, ERROR_INVALID_DATA};
use crate::event::{decode_payload, decoded_payload, RawInputEvent, PAYLOAD_CAPACITY};
use crate::query::{fetched, FailedFetch, Failure};

verus! {

/// The size of an event header: the family hint and the event's size in
/// four bytes each, then the device handle and the message parameter in
/// eight bytes each.
pub const HEADER_SIZE: usize = 24;

/// The number of leading header bytes that hold everything up to and
/// including the device handle.
pub const HEADER_DEVICE_END: usize = 16;

/// The fixed-size header of an event.
#[derive(Clone, Copy, Debug, PartialEq, Eq, Structural)]
pub struct EventHeader {
    /// The header's own hint at the family of the device.
    pub family_hint: u32,
    /// The size of the whole event in bytes.
    pub size: u32,
    /// The device that sent the event.
    pub device: DeviceHandle,
    /// The parameter of the notification that announced the event.
    pub w_param: u64,
}

/// Where the decoding of one event stands: what it waits for.
#[derive(Clone, Copy, Debug, PartialEq, Eq, Structural)]
pub enum DecodeState {
    /// The event's header.
    Header,
    /// The capability record of the header's device.
    Capability { header: EventHeader },
    /// The event's payload, to be read under `class`.
    Payload { header: EventHeader, class: DeviceClass },
}

/// What a state asks its caller to fetch.
#[derive(Clone, Copy, Debug, PartialEq, Eq, Structural)]
pub enum FetchRequest {
    /// The header of the event.
    Header,
    /// The capability record of this device.
    Capability { handle: DeviceHandle },
    /// The payload of the event, into a buffer of `capacity` bytes.
    Payload { capacity: u32 },
}

/// How decoding goes on after a fetch.
#[derive(Clone, Copy, Debug, PartialEq, Eq)]
pub enum DecodeStep {
    /// Fetch what the state waits for, and hand it in with the state.
    Continue(DecodeState),
    /// The event is decoded.
    Done(RawInputEvent),
    /// The event cannot be decoded.
    Failed(InputError),
}

/// The header that `bytes` start with, if they hold a whole one.
pub open spec fn header_of(bytes: Seq<u8>) -> Option<EventHeader> {
    if bytes.len() < 24 {
        None
    } else {
        Some(
            EventHeader {
                family_hint: u32_le(bytes, 0) as u32,
                size: u32_le(bytes, 4) as u32,
                device: DeviceHandle { raw: u64_le(bytes, 8) as u64 },
                w_param: u64_le(bytes, 16) as u64,
            },
        )
    }
}

/// The device that a header buffer names, as far as the buffer reaches:
/// the handle lies in bytes 8 to 15, so a buffer of 16 bytes or more holds
/// one, and a shorter buffer holds none.
pub open spec fn device_of(bytes: Seq<u8>) -> Option<DeviceHandle> {
    if bytes.len() < 16 {
        None
    } else {
        Some(DeviceHandle { raw: u64_le(bytes, 8) as u64 })
    }
}

/// The payload inside a whole event: what follows the header, as far as
/// a buffer of `capacity` bytes holds it.
pub open spec fn payload_of(event: Seq<u8>, capacity: u32) -> Seq<u8> {
    if event.len() <= 24 {
        Seq::empty()
    } else if event.len() - 24 <= capacity {
        event.subrange(24, event.len() as int)
    } else {
        event.subrange(24, 24 + capacity)
    }
}

/// The step that follows the header fetch.
///
/// A failed fetch is a decoding error with the fetch's status code, and
/// so is a header that is too short, with `ERROR_INVALID_DATA`. Either
/// error carries the device handle of the header where it is available:
/// where the buffer, as the call left it, reaches over the handle.
pub open spec fn after_header(fetch: Result<Seq<u8>, Failure>) -> DecodeStep {
    match fetch {
        Err(failure) => DecodeStep::Failed(
            InputError::Decoding { device: device_of(failure.filled), os_code: failure.os_code },
        ),
        Ok(bytes) => match header_of(bytes) {
            None => DecodeStep::Failed(
                InputError::Decoding { device: device_of(bytes), os_code: ERROR_INVALID_DATA },
            ),
            Some(header) => DecodeStep::Continue(DecodeState::Capability { header }),
        },
    }
}

/// The step that follows the capability fetch for the header's device.
///
/// The record's class is the class of the payload. Where the directory
/// has no answer, its error is the decoder's: a capability query error, or
/// an unknown device class.
pub open spec fn after_capability(header: EventHeader, fetch: Result<Seq<u8>, Failure>) -> DecodeStep {
    match capability_info(header.device, fetch) {
        Ok(info) => DecodeStep::Continue(
            DecodeState::Payload { header, class: info.spec_class() },
        ),
        Err(error) => DecodeStep::Failed(error),
    }
}

/// The step that follows the payload fetch.
///
/// A failed fetch is a decoding error with the fetch's status code and
/// the header's device, and so is a payload shorter than the shape of
/// `class`, with `ERROR_INVALID_DATA`. Otherwise the event is the payload
/// read under `class`.
pub open spec fn after_payload(
    header: EventHeader,
    class: DeviceClass,
    fetch: Result<Seq<u8>, Failure>,
) -> DecodeStep {
    match fetch {
        Err(failure) => DecodeStep::Failed(
            InputError::Decoding { device: Some(header.device), os_code: failure.os_code },
        ),
        Ok(bytes) => match decoded_payload(class, bytes) {
            None => DecodeStep::Failed(
                InputError::Decoding { device: Some(header.device), os_code: ERROR_INVALID_DATA },
            ),
            Some(event) => DecodeStep::Done(event),
        },
    }
}

/// The step that follows `fetch`, which delivered what `state` waited for.
pub open spec fn decode_step(state: DecodeState, fetch: Result<Seq<u8>, Failure>) -> DecodeStep {
    match state {
        DecodeState::Header => after_header(fetch),
        DecodeState::Capability { header } => after_capability(header, fetch),
        DecodeState::Payload { header, class } => after_payload(header, class, fetch),
    }
}

impl DecodeState {
    /// What this state waits for.
    pub open spec fn spec_request(self) -> FetchRequest {
        match self {
            DecodeState::Header => FetchRequest::Header,
            DecodeState::Capability { header } => FetchRequest::Capability {
                handle: header.device,
            },
            DecodeState::Payload { .. } => FetchRequest::Payload { capacity: PAYLOAD_CAPACITY },
        }
    }

    /// What this state waits for. The payload is always asked for with a
    /// buffer that holds the largest shape.
    pub fn request(&self) -> (request: FetchRequest)
        ensures
            request == self.spec_request(),
    {
        match self {
            DecodeState::Header => FetchRequest::Header,
            DecodeState::Capability { header } => FetchRequest::Capability {
                handle: header.device,
            },
            DecodeState::Payload { .. } => FetchRequest::Payload { capacity: PAYLOAD_CAPACITY },
        }
    }
}

/// The state in which the decoding of every event begins.
pub fn begin_decode() -> (state: DecodeState)
    ensures
        state == DecodeState::Header,
{
    DecodeState::Header
}

/// Reads the header that `bytes` start with.
pub fn parse_header(bytes: &[u8]) -> (header: Option<EventHeader>)
    ensures
        header == header_of(bytes@),
        header is Some <==> bytes@.len() >= 24,
{
    if bytes.len() < HEADER_SIZE {
        return None;
    }
    Some(
        EventHeader {
            family_hint: read_u32_le(bytes, 0),
            size: read_u32_le(bytes, 4),
            device: DeviceHandle { raw: read_u64_le(bytes, 8) },
            w_param: read_u64_le(bytes, 16),
        },
    )
}

/// Reads the device handle out of a header buffer, whole or not.
pub fn header_device(bytes: &[u8]) -> (device: Option<DeviceHandle>)
    ensures
        device == device_of(bytes@),
        device is Some <==> bytes@.len() >= 16,
        header_of(bytes@) matches Some(header) ==> device == Some(header.device),
{
    if bytes.len() < HEADER_DEVICE_END {
        None
    } else {
        Some(DeviceHandle { raw: read_u64_le(bytes, 8) })
    }
}

/// Cuts the payload out of an event that was fetched whole, header first.
pub fn event_payload(event: &[u8], capacity: u32) -> (payload: Vec<u8>)
    ensures
        payload@ == payload_of(event@, capacity),
{
    let length: usize = event.len();
    let mut payload: Vec<u8> = Vec::new();
    if length <= HEADER_SIZE {
        return payload;
    }
    let end: usize = if length - HEADER_SIZE <= capacity as usize {
        length
    } else {
        HEADER_SIZE + capacity as usize
    };
    let mut index: usize = HEADER_SIZE;
    while index < end
        invariant
            24 <= index <= end <= length == event@.len(),
            payload@ == event@.subrange(24, index as int),
        decreases end - index,
    {
        payload.push(event[index]);
        index += 1;
        assert(payload@ =~= event@.subrange(24, index as int));
    }
    payload
}

/// Takes the decoding of one event one step further: `fetch` is the
/// result of fetching what `state` waited for.
///
/// No input makes this function give up in any other way than by
/// returning `Failed`, so one bad event never ends the caller's loop. An
/// event that comes out has the shape of the class that the capability
/// record named.
pub fn get_raw_input_data(state: DecodeState, fetch: Result<Vec<u8>, FailedFetch>) -> (step:
    DecodeStep)
    ensures
        step == decode_step(state, fetched(fetch)),
        step matches DecodeStep::Done(event) ==> state matches DecodeState::Payload { class, .. }
            && event.spec_class() == class,
{
    match state {
        DecodeState::Header => {
            match fetch {
                Err(failure) => DecodeStep::Failed(
                    InputError::Decoding {
                        device: header_device(failure.filled.as_slice()),
                        os_code: failure.os_code,
                    },
                ),
                Ok(bytes) => match parse_header(bytes.as_slice()) {
                    None => DecodeStep::Failed(
                        InputError::Decoding {
                            device: header_device(bytes.as_slice()),
                            os_code: ERROR_INVALID_DATA,
                        },
                    ),
                    Some(header) => DecodeStep::Continue(DecodeState::Capability { header }),
                },
            }
        },
        DecodeState::Capability { header } => {
            match get_raw_input_device_info(header.device, fetch) {
                Ok(info) => DecodeStep::Continue(
                    DecodeState::Payload { header, class: info.class() },
                ),
                Err(error) => DecodeStep::Failed(error),
            }
        },
        DecodeState::Payload { header, class } => {
            match fetch {
                Err(failure) => DecodeStep::Failed(
                    InputError::Decoding { device: Some(header.device), os_code: failure.os_code },
                ),
                Ok(bytes) => match decode_payload(class, bytes.as_slice()) {
                    None => DecodeStep::Failed(
                        InputError::Decoding {
                            device: Some(header.device),
                            os_code: ERROR_INVALID_DATA,
                        },
                    ),
                    Some(event) => DecodeStep::Done(event),
                },
            }
        },
    }
}

} // verus!
