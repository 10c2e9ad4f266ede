//! The layout of events on the wire, read the other way: the payload that an
//! event comes from, and the proof that decoding gives the event back.

use vstd::prelude::*;
use vstd::utf8::{decode_utf8, encode_utf8, encode_utf8_decode_utf8, encode_utf8_valid_utf8};
use crate::bytes::be16;
use crate::codec::{
    decode_event, is_white_space, payload_header, trim_end, trim_start, trim_white_space,
    version_string, ProtocolError,
};
use crate::constants::{MessageHeader, PressDirection, Screen};
use crate::event::EventView;

verus! {

/// The byte that carries a signed number in two's complement.
pub open spec fn as_unsigned(value: i8) -> u8 {
    if value >= 0 {
        value as u8
    } else {
        (value + 0x100) as u8
    }
}

/// Whether a header value has a layout of its own.
pub open spec fn has_layout(header: u16) -> bool {
    match MessageHeader::spec_from_u16(header) {
        Some(MessageHeader::ButtonPress) => true,
        Some(MessageHeader::KnobRotate) => true,
        Some(MessageHeader::TouchDown) => true,
        Some(MessageHeader::TouchUp) => true,
        Some(MessageHeader::SerialIn) => true,
        Some(MessageHeader::VersionIn) => true,
        Some(MessageHeader::ConfirmFrameBuffer) => true,
        Some(MessageHeader::DrawIn) => true,
        _ => false,
    }
}

/// Whether an event is one that the device can have sent: a touch lies on the
/// screen that it names, a serial number has no white space at its ends, a
/// version is three numbers with dots between, and an event without a decoded
/// form keeps a payload of a kind without layout that carries its transaction
/// id.
pub open spec fn well_formed(event: EventView) -> bool {
    match event {
        EventView::TouchEvent(touch) => Screen::spec_from_x_coor(touch.x) == Some(touch.screen),
        EventView::SerialIn { serial_number, .. } => trim_white_space(serial_number)
            == serial_number,
        EventView::VersionIn { version, .. } => exists|major: u8, minor: u8, patch: u8|
            version == #[trigger] version_string(major, minor, patch),
        EventView::Other { tx_id, raw } => raw.len() >= 3 && raw[2] == tx_id && !has_layout(
            payload_header(raw),
        ),
        _ => true,
    }
}

/// The numbers of a version string.
pub open spec fn version_numbers(version: Seq<char>) -> (u8, u8, u8) {
    choose|numbers: (u8, u8, u8)| version == version_string(numbers.0, numbers.1, numbers.2)
}

/// The payload that an event comes from: the header of its kind, its
/// transaction id, and its fields where the kind's layout has them. The byte
/// of a touch payload that no field stands in is zero.
pub open spec fn event_payload(event: EventView) -> Seq<u8> {
    match event {
        EventView::ButtonPress(press) => be16(MessageHeader::ButtonPress.spec_code()) + seq![
            press.tx_id,
            press.button.spec_code(),
            press.dir.spec_code(),
        ],
        EventView::KnobRotate(turn) => be16(MessageHeader::KnobRotate.spec_code()) + seq![
            turn.tx_id,
            turn.knob.spec_code(),
            as_unsigned(turn.value),
        ],
        EventView::TouchEvent(touch) => be16(
            if touch.dir == PressDirection::Down {
                MessageHeader::TouchDown.spec_code()
            } else {
                MessageHeader::TouchUp.spec_code()
            },
        ) + seq![touch.tx_id, 0u8] + be16(touch.x) + be16(touch.y) + seq![touch.touch_id],
        EventView::Other { raw, .. } => raw,
        EventView::SerialIn { tx_id, serial_number } => be16(MessageHeader::SerialIn.spec_code())
            + seq![tx_id] + encode_utf8(serial_number),
        EventView::VersionIn { tx_id, version } => be16(MessageHeader::VersionIn.spec_code())
            + seq![
            tx_id,
            version_numbers(version).0,
            version_numbers(version).1,
            version_numbers(version).2,
        ],
        EventView::ConfirmFrameBufferIn(ack) => be16(MessageHeader::ConfirmFrameBuffer.spec_code())
            + seq![ack.tx_id],
        EventView::DrawIn(ack) => be16(MessageHeader::DrawIn.spec_code()) + seq![ack.tx_id],
    }
}

/// Decoding undoes encoding, for every kind of event: the payload that a
/// well-formed event comes from decodes to that event, transaction id and
/// all.
pub proof fn lemma_event_round_trip(event: EventView)
    requires
        well_formed(event),
    ensures
        decode_event(event_payload(event)) == Ok::<EventView, ProtocolError>(event),
{
    match event {
        EventView::SerialIn { tx_id, serial_number } => {
            assert(event_payload(event).skip(3) =~= encode_utf8(serial_number));
            encode_utf8_valid_utf8(serial_number);
            encode_utf8_decode_utf8(serial_number);
        },
        EventView::VersionIn { tx_id, version } => {
            let (major, minor, patch) = choose|major: u8, minor: u8, patch: u8|
                version == #[trigger] version_string(major, minor, patch);
        },
        _ => {},
    }
}

/// What `trim_start` leaves begins with no white space.
proof fn lemma_trim_start_result(s: Seq<char>)
    ensures
        trim_start(s).len() > 0 ==> !is_white_space(trim_start(s).first()),
        trim_start(trim_start(s)) == trim_start(s),
    decreases s.len(),
{
    if s.len() > 0 && is_white_space(s.first()) {
        lemma_trim_start_result(s.drop_first());
    }
}

/// What `trim_end` leaves ends with no white space, and is the front of what
/// it was given.
proof fn lemma_trim_end_result(s: Seq<char>)
    ensures
        trim_end(s).len() > 0 ==> !is_white_space(trim_end(s).last()),
        trim_end(trim_end(s)) == trim_end(s),
        trim_end(s).len() <= s.len(),
        trim_end(s) == s.take(trim_end(s).len() as int),
    decreases s.len(),
{
    if s.len() > 0 && is_white_space(s.last()) {
        lemma_trim_end_result(s.drop_last());
    }
}

/// Trimming twice is trimming once.
pub proof fn lemma_trim_idempotent(s: Seq<char>)
    ensures
        trim_white_space(trim_white_space(s)) == trim_white_space(s),
{
    lemma_trim_start_result(s);
    lemma_trim_end_result(trim_start(s));
}

/// Whatever decodes is well-formed: the events that the round trip speaks of
/// are all the events that there are.
pub proof fn lemma_decoded_events_are_well_formed(p: Seq<u8>)
    ensures
        decode_event(p) matches Ok(event) ==> well_formed(event),
{
    if decode_event(p) matches Ok(EventView::SerialIn { .. }) {
        lemma_trim_idempotent(decode_utf8(p.skip(3)));
    }
}

} // verus!
