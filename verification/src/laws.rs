//! What holds of the directory and the decoder on every input.

use vstd::prelude::*;
use crate::bytes::u64_le;
use crate::decoder::{
    after_capability, after_header, after_payload, decode_step, device_of, header_of, DecodeState,
    DecodeStep, EventHeader,
};
use crate::device::{class_of_tag, DeviceClass, DeviceHandle};
use crate::directory::{capability_info, record_fields, record_tag};
use crate::error::{InputError, ERROR_INSUFFICIENT_BUFFER, ERROR_INVALID_DATA};
use crate::event::{decoded_payload, view_reads, view_size};
use crate::query::{next_action, Failure, QueryAction, QueryReply, QueryState, QUERY_FAILED};

verus! {

/// No buffer is filled before its size was asked for: a fill follows a
/// successful probe only, with the size that the probe reported. A query
/// that finishes never claims more than the buffer that was filled, and a
/// query starts over in one case only: after a fill that failed because
/// its buffer was too small. Every other reply to a fill ends the query.
pub proof fn lemma_probe_comes_first(state: QueryState, reply: QueryReply)
    ensures
        next_action(state, reply) matches QueryAction::Fill { capacity } ==> {
            &&& state == QueryState::Probing
            &&& capacity == reply.size
            &&& capacity > 0
        },
        next_action(state, reply) matches QueryAction::Finish { filled } ==> match state {
            QueryState::Probing => filled == 0,
            QueryState::Filling { capacity } => filled <= capacity,
        },
        next_action(state, reply) == QueryAction::Probe <==> {
            &&& state is Filling
            &&& reply.returned == QUERY_FAILED
            &&& reply.last_error == ERROR_INSUFFICIENT_BUFFER
        },
{
}

/// The class tags are exactly 0, 1 and 2: each class has its tag, the tag
/// names the class again, and no other number names a class.
pub proof fn lemma_class_tags(class: DeviceClass, tag: u32)
    ensures
        class.spec_tag() <= 2,
        class_of_tag(class.spec_tag()) == Some(class),
        class_of_tag(tag) is Some <==> tag <= 2,
        class_of_tag(tag) == Some(class) <==> tag == class.spec_tag(),
{
}

/// Whenever the capability lookup for a device has an answer, the
/// answer's class is the mouse, the keyboard or the generic HID class, and
/// it is the class that the record's tag names.
pub proof fn lemma_capability_class_is_known(handle: DeviceHandle, fetch: Result<Seq<u8>, Failure>)
    requires
        capability_info(handle, fetch) is Ok,
    ensures
        fetch is Ok,
        record_tag(fetch->Ok_0) <= 2,
        class_of_tag(record_tag(fetch->Ok_0)) == Some(
            capability_info(handle, fetch)->Ok_0.spec_class(),
        ),
        ({
            let class = capability_info(handle, fetch)->Ok_0.spec_class();
            class == DeviceClass::Mouse || class == DeviceClass::Keyboard || class
                == DeviceClass::GenericHid
        }),
{
}

/// Decoding is a function of the class and the payload's bytes: two
/// payloads of the same length that hold the same bytes decode alike
/// under the same class, and so does the payload step of the decoder
/// under the same header.
pub proof fn lemma_decoding_is_deterministic(
    header: EventHeader,
    class: DeviceClass,
    first: Seq<u8>,
    second: Seq<u8>,
)
    requires
        first.len() == second.len(),
        forall|i: int| 0 <= i < first.len() ==> first[i] == second[i],
    ensures
        decoded_payload(class, first) == decoded_payload(class, second),
        after_payload(header, class, Ok(first)) == after_payload(header, class, Ok(second)),
{
    assert(first =~= second);
}

/// Decoding looks at no byte outside the shape of the resolved class: two
/// payloads that span the shape and agree on the bytes that the shape
/// reads decode alike, whatever else they hold.
pub proof fn lemma_decoding_reads_resolved_shape_only(
    class: DeviceClass,
    first: Seq<u8>,
    second: Seq<u8>,
)
    requires
        first.len() >= view_size(class),
        second.len() >= view_size(class),
        forall|i: int| view_reads(class, i) ==> first[i] == second[i],
    ensures
        decoded_payload(class, first) == decoded_payload(class, second),
        decoded_payload(class, first) is Some,
        decoded_payload(class, first)->0.spec_class() == class,
{
    assert(forall|i: int| 4 <= i < view_size(class) ==> view_reads(class, i));
    assert(view_reads(class, 0) && view_reads(class, 1));
    if class != DeviceClass::Mouse {
        assert(view_reads(class, 2) && view_reads(class, 3));
    }
}

/// The class of a payload comes from the directory and from nowhere
/// else. An event is only ever decoded from the payload state, under that
/// state's class; and the payload state is only ever entered from the
/// capability state, with the header unchanged and with the class of the
/// capability record that was fetched for the header's device.
pub proof fn lemma_class_comes_from_directory(state: DecodeState, fetch: Result<Seq<u8>, Failure>)
    ensures
        decode_step(state, fetch) matches DecodeStep::Done(event) ==> {
            &&& state matches DecodeState::Payload { class, .. }
            &&& event.spec_class() == class
        },
        decode_step(state, fetch) matches DecodeStep::Continue(
            DecodeState::Payload { header, class },
        ) ==> {
            &&& state == DecodeState::Capability { header }
            &&& capability_info(header.device, fetch) is Ok
            &&& capability_info(header.device, fetch)->Ok_0.spec_class() == class
        },
        decode_step(state, fetch) matches DecodeStep::Continue(DecodeState::Capability { header })
            ==> state == DecodeState::Header,
        decode_step(state, fetch) != DecodeStep::Continue(DecodeState::Header),
{
}

/// A capability record with a tag outside the known set never lets the
/// decoder go on to a payload: the step fails as an unknown device class
/// that carries the tag.
pub proof fn lemma_unknown_class_stops_decoding(header: EventHeader, record: Seq<u8>)
    requires
        record.len() >= 32,
        record_tag(record) > 2,
    ensures
        after_capability(header, Ok(record)) == DecodeStep::Failed(
            InputError::UnknownDeviceClass { tag: record_tag(record) },
        ),
{
}

/// A failed fetch never decodes to an event. The error carries the
/// fetch's status code. For the header fetch it carries the device that
/// the buffer names as the failed call left it, if the buffer reaches
/// that far; later a header was read, and the error names its device.
pub proof fn lemma_failed_fetch_fails_decoding(state: DecodeState, failure: Failure)
    ensures
        decode_step(state, Err(failure)) == DecodeStep::Failed(
            match state {
                DecodeState::Header => InputError::Decoding {
                    device: device_of(failure.filled),
                    os_code: failure.os_code,
                },
                DecodeState::Capability { header } => InputError::CapabilityQuery {
                    handle: header.device,
                    os_code: failure.os_code,
                },
                DecodeState::Payload { header, .. } => InputError::Decoding {
                    device: Some(header.device),
                    os_code: failure.os_code,
                },
            },
        ),
{
}

/// A header fetch that does not deliver a whole header still names the
/// device where it can: as soon as the buffer holds its first 16 bytes,
/// the error carries the handle stored in bytes 8 to 15, be it that the
/// fetch failed or that it came back short. With fewer bytes the error
/// carries no device. The handle is the one that a whole header of the
/// same bytes would give.
pub proof fn lemma_header_error_carries_handle(bytes: Seq<u8>, os_code: u32)
    ensures
        bytes.len() >= 16 ==> after_header(Err(Failure { os_code, filled: bytes }))
            == DecodeStep::Failed(
            InputError::Decoding {
                device: Some(DeviceHandle { raw: u64_le(bytes, 8) as u64 }),
                os_code,
            },
        ),
        bytes.len() < 16 ==> after_header(Err(Failure { os_code, filled: bytes }))
            == DecodeStep::Failed(InputError::Decoding { device: None, os_code }),
        16 <= bytes.len() < 24 ==> after_header(Ok(bytes)) == DecodeStep::Failed(
            InputError::Decoding {
                device: Some(DeviceHandle { raw: u64_le(bytes, 8) as u64 }),
                os_code: ERROR_INVALID_DATA,
            },
        ),
        bytes.len() < 16 ==> after_header(Ok(bytes)) == DecodeStep::Failed(
            InputError::Decoding { device: None, os_code: ERROR_INVALID_DATA },
        ),
        header_of(bytes) matches Some(header) ==> device_of(bytes) == Some(header.device),
{
}

/// The three steps together: from a whole header, a whole capability
/// record with a known tag and a payload that spans the shape of the
/// record's class, the decoder arrives at the payload read under that
/// class, and the event has the shape of that class.
pub proof fn lemma_decoding_end_to_end(header: Seq<u8>, record: Seq<u8>, payload: Seq<u8>)
    requires
        header.len() >= 24,
        record.len() >= 32,
        class_of_tag(record_tag(record)) is Some,
        payload.len() >= view_size(class_of_tag(record_tag(record))->0),
    ensures
        ({
            let class = class_of_tag(record_tag(record))->0;
            let parsed = header_of(header)->0;
            &&& decode_step(DecodeState::Header, Ok(header)) == DecodeStep::Continue(
                DecodeState::Capability { header: parsed },
            )
            &&& decode_step(DecodeState::Capability { header: parsed }, Ok(record))
                == DecodeStep::Continue(DecodeState::Payload { header: parsed, class })
            &&& decode_step(DecodeState::Payload { header: parsed, class }, Ok(payload))
                == DecodeStep::Done(decoded_payload(class, payload)->0)
            &&& decoded_payload(class, payload)->0.spec_class() == class
        }),
{
    let class = class_of_tag(record_tag(record))->0;
    assert(record_fields(class, record).spec_class() == class);
}

} // verus!
