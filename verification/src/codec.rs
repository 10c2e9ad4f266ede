//! Wire codec: typed messages to and from payload bytes, and the frame
//! envelope that carries a payload to the device.

use vstd::prelude::*;
use vstd::slice::{slice_subrange, slice_to_vec};
use vstd::utf8::{decode_utf8, valid_utf8};
use crate::bytes::{
    be16, be32, from_be16, from_be32, lemma_be32_round_trip, u16_from_be_bytes, u16_to_be_bytes,
    u32_to_be_bytes,
};
use crate::constants::{Button, Knob, MessageHeader, PressDirection, Screen};
use crate::event::{
    ButtonPressEvent, ConfirmFrameBufferInEvent, DrawInEvent, Event, EventView, FallbackEvent,
    KnobRotateEvent, SerialInEvent, TouchEvent, VersionInEvent,
};

verus! {

/// First byte of every frame: a final, binary WebSocket frame.
pub const FRAME_MARKER: u8 = 0x82;

/// Second byte of a long-form frame.
pub const LONG_FORM_MARKER: u8 = 0xFF;

/// Largest payload that still goes out in the short form.
pub const SHORT_FORM_MAX: usize = 0xFF;

/// Length of the short-form prefix.
pub const SHORT_PREFIX_LEN: usize = 6;

/// Length of the long-form prefix.
pub const LONG_PREFIX_LEN: usize = 14;

/// Offset of the big-endian 32-bit payload length in the long-form prefix.
pub const LONG_LENGTH_OFFSET: usize = 6;

/// Offset of the transaction id in a payload.
pub const TX_ID_OFFSET: usize = 2;

/// Third byte of a freshly encoded message, until a transaction id replaces it.
pub const TX_ID_PLACEHOLDER: u8 = 0x01;

/// Why a payload or a draw request was refused.
#[derive(Debug, Clone, Copy, PartialEq, Eq, Structural)]
pub enum ProtocolError {
    /// The payload ends before the fields of its kind do.
    Truncated,
    /// A button-press message names no known button.
    InvalidButton,
    /// A button-press message names no known direction.
    InvalidDirection,
    /// A knob message names no known knob.
    InvalidKnob,
    /// A touch lies to the right of every screen.
    InvalidScreen,
    /// A serial number is not UTF-8.
    InvalidSerial,
    /// A draw buffer does not hold two bytes for each pixel of its region.
    InvalidBufferLength,
    /// A message is longer than the frame's 32-bit length field can say.
    MessageTooLong,
}

/// Unicode's `White_Space` property.
pub open spec fn is_white_space(c: char) -> bool {
    let v = c as u32;
    ||| 0x09 <= v <= 0x0d
    ||| v == 0x20
    ||| v == 0x85
    ||| v == 0xa0
    ||| v == 0x1680
    ||| 0x2000 <= v <= 0x200a
    ||| v == 0x2028
    ||| v == 0x2029
    ||| v == 0x202f
    ||| v == 0x205f
    ||| v == 0x3000
}

/// A string without its leading white space.
pub open spec fn trim_start(s: Seq<char>) -> Seq<char>
    decreases s.len(),
{
    if s.len() > 0 && is_white_space(s.first()) {
        trim_start(s.drop_first())
    } else {
        s
    }
}

/// A string without its trailing white space.
pub open spec fn trim_end(s: Seq<char>) -> Seq<char>
    decreases s.len(),
{
    if s.len() > 0 && is_white_space(s.last()) {
        trim_end(s.drop_last())
    } else {
        s
    }
}

/// A string without its leading and trailing white space.
pub open spec fn trim_white_space(s: Seq<char>) -> Seq<char> {
    trim_end(trim_start(s))
}

/// The decimal digit `d` as a character.
pub open spec fn digit_char(d: int) -> char {
    if d == 0 {
        '0'
    } else if d == 1 {
        '1'
    } else if d == 2 {
        '2'
    } else if d == 3 {
        '3'
    } else if d == 4 {
        '4'
    } else if d == 5 {
        '5'
    } else if d == 6 {
        '6'
    } else if d == 7 {
        '7'
    } else if d == 8 {
        '8'
    } else {
        '9'
    }
}

/// A byte in decimal, without leading zeros.
pub open spec fn decimal(n: u8) -> Seq<char> {
    if n >= 100 {
        seq![digit_char(n as int / 100), digit_char(n as int / 10 % 10), digit_char(n as int % 10)]
    } else if n >= 10 {
        seq![digit_char(n as int / 10), digit_char(n as int % 10)]
    } else {
        seq![digit_char(n as int)]
    }
}

/// A firmware version as text: the three numbers in decimal, joined by dots.
pub open spec fn version_string(major: u8, minor: u8, patch: u8) -> Seq<char> {
    decimal(major) + seq!['.'] + decimal(minor) + seq!['.'] + decimal(patch)
}

/// A byte read as a two's-complement signed number.
pub open spec fn as_signed(b: u8) -> i8 {
    if b < 0x80 {
        b as i8
    } else {
        (b as int - 0x100) as i8
    }
}

/// The header value at the start of a payload.
pub open spec fn payload_header(p: Seq<u8>) -> u16
    recommends
        p.len() >= 2,
{
    from_be16(p[0], p[1])
}

/// A button-press payload: the button's code at offset 3, the direction's at
/// offset 4.
pub open spec fn decode_button_press(p: Seq<u8>) -> Result<EventView, ProtocolError> {
    if p.len() < 5 {
        Err(ProtocolError::Truncated)
    } else {
        match Button::spec_from_u8(p[3]) {
            None => Err(ProtocolError::InvalidButton),
            Some(button) => match PressDirection::spec_from_u8(p[4]) {
                None => Err(ProtocolError::InvalidDirection),
                Some(dir) => Ok(
                    EventView::ButtonPress(ButtonPressEvent { tx_id: p[2], button, dir }),
                ),
            },
        }
    }
}

/// A knob payload: the knob's code at offset 3, the signed delta at offset 4.
pub open spec fn decode_knob_rotate(p: Seq<u8>) -> Result<EventView, ProtocolError> {
    if p.len() < 5 {
        Err(ProtocolError::Truncated)
    } else {
        match Knob::spec_from_u8(p[3]) {
            None => Err(ProtocolError::InvalidKnob),
            Some(knob) => Ok(
                EventView::KnobRotate(KnobRotateEvent { tx_id: p[2], knob, value: as_signed(p[4]) }),
            ),
        }
    }
}

/// A touch payload: big-endian x at offsets 4 and 5, y at 6 and 7, the touch
/// id at offset 8. The x coordinate selects the screen.
pub open spec fn decode_touch(p: Seq<u8>, dir: PressDirection) -> Result<EventView, ProtocolError> {
    if p.len() < 9 {
        Err(ProtocolError::Truncated)
    } else {
        let x = from_be16(p[4], p[5]);
        let y = from_be16(p[6], p[7]);
        match Screen::spec_from_x_coor(x) {
            None => Err(ProtocolError::InvalidScreen),
            Some(screen) => Ok(
                EventView::TouchEvent(
                    TouchEvent { tx_id: p[2], dir, touch_id: p[8], x, y, screen },
                ),
            ),
        }
    }
}

/// A serial-number payload: UTF-8 text from offset 3 on, trimmed.
pub open spec fn decode_serial(p: Seq<u8>) -> Result<EventView, ProtocolError> {
    if p.len() < 3 {
        Err(ProtocolError::Truncated)
    } else if !valid_utf8(p.skip(3)) {
        Err(ProtocolError::InvalidSerial)
    } else {
        Ok(
            EventView::SerialIn {
                tx_id: p[2],
                serial_number: trim_white_space(decode_utf8(p.skip(3))),
            },
        )
    }
}

/// A version payload: major, minor and patch at offsets 3, 4 and 5.
pub open spec fn decode_version(p: Seq<u8>) -> Result<EventView, ProtocolError> {
    if p.len() < 6 {
        Err(ProtocolError::Truncated)
    } else {
        Ok(EventView::VersionIn { tx_id: p[2], version: version_string(p[3], p[4], p[5]) })
    }
}

/// The event that a payload decodes to, or the reason why it is dropped.
/// A payload holds the header in its first two bytes, the transaction id in
/// the third and the body after that; the header selects the body's layout.
/// A header without a layout of its own gives `Other`, with the payload kept.
pub open spec fn decode_event(p: Seq<u8>) -> Result<EventView, ProtocolError> {
    if p.len() < 3 {
        Err(ProtocolError::Truncated)
    } else {
        match MessageHeader::spec_from_u16(payload_header(p)) {
            Some(MessageHeader::ButtonPress) => decode_button_press(p),
            Some(MessageHeader::KnobRotate) => decode_knob_rotate(p),
            Some(MessageHeader::TouchDown) => decode_touch(p, PressDirection::Down),
            Some(MessageHeader::TouchUp) => decode_touch(p, PressDirection::Up),
            Some(MessageHeader::SerialIn) => decode_serial(p),
            Some(MessageHeader::VersionIn) => decode_version(p),
            Some(MessageHeader::ConfirmFrameBuffer) => Ok(
                EventView::ConfirmFrameBufferIn(ConfirmFrameBufferInEvent { tx_id: p[2] }),
            ),
            Some(MessageHeader::DrawIn) => Ok(EventView::DrawIn(DrawInEvent { tx_id: p[2] })),
            _ => Ok(EventView::Other { tx_id: p[2], raw: p }),
        }
    }
}

/// `String::from_utf8`: the string that a byte vector spells, if the bytes are
/// UTF-8. Trusted: it succeeds exactly on valid UTF-8, and the string's
/// characters are then the decoded bytes.
#[verifier::external_body]
fn string_from_utf8(bytes: Vec<u8>) -> (text: Option<String>)
    ensures
        text is Some <==> valid_utf8(bytes@),
        text matches Some(s) ==> s@ == decode_utf8(bytes@),
{
    String::from_utf8(bytes).ok()
}

/// Whether a character is white space.
fn is_white_space_char(c: char) -> (white: bool)
    ensures
        white == is_white_space(c),
{
    let v: u32 = c as u32;
    (0x09 <= v && v <= 0x0d) || v == 0x20 || v == 0x85 || v == 0xa0 || v == 0x1680 || (0x2000 <= v
        && v <= 0x200a) || v == 0x2028 || v == 0x2029 || v == 0x202f || v == 0x205f || v == 0x3000
}

/// Skipping white space at the front leaves what `trim_start` leaves.
proof fn lemma_trim_start_skips(s: Seq<char>, n: int)
    requires
        0 <= n <= s.len(),
        forall|i: int| 0 <= i < n ==> is_white_space(s[i]),
    ensures
        trim_start(s) == trim_start(s.skip(n)),
    decreases n,
{
    if n == 0 {
        assert(s.skip(0) =~= s);
    } else {
        lemma_trim_start_skips(s, n - 1);
        assert(s.skip(n - 1).drop_first() =~= s.skip(n));
    }
}

/// Dropping white space at the back leaves what `trim_end` leaves.
proof fn lemma_trim_end_drops(s: Seq<char>, n: int)
    requires
        0 <= n <= s.len(),
        forall|i: int| n <= i < s.len() ==> is_white_space(s[i]),
    ensures
        trim_end(s) == trim_end(s.take(n)),
    decreases s.len() - n,
{
    if n == s.len() {
        assert(s.take(n) =~= s);
    } else {
        lemma_trim_end_drops(s, n + 1);
        assert(s.take(n + 1).drop_last() =~= s.take(n));
    }
}

/// The characters of a text.
fn chars_of(text: &str) -> (chars: Vec<char>)
    ensures
        chars@ == text@,
{
    let mut chars: Vec<char> = Vec::new();
    for c in it: text.chars()
        invariant
            it.seq() == text@,
            chars@ == it.seq().take(it.index() as int),
    {
        chars.push(c);
    }
    chars
}

/// Cuts the white space off both ends of a text.
pub fn trim(text: &str) -> (trimmed: &str)
    ensures
        trimmed@ == trim_white_space(text@),
{
    let chars: Vec<char> = chars_of(text);
    let len: usize = chars.len();
    let mut start: usize = 0;
    while start < len && is_white_space_char(chars[start])
        invariant
            start <= len == chars@.len(),
            forall|i: int| 0 <= i < start ==> is_white_space(chars@[i]),
        decreases len - start,
    {
        start = start + 1;
    }
    let ghost front = text@.skip(start as int);
    proof {
        lemma_trim_start_skips(text@, start as int);
    }
    let mut end: usize = len;
    while end > start && is_white_space_char(chars[end - 1])
        invariant
            start <= end <= len == chars@.len(),
            chars@ == text@,
            front == text@.skip(start as int),
            forall|i: int| end - start <= i < front.len() ==> is_white_space(front[i]),
        decreases end - start,
    {
        end = end - 1;
    }
    proof {
        lemma_trim_end_drops(front, end - start);
    }
    text.substring_char(start, end)
}

/// One decimal digit as text.
fn digit_str(d: u8) -> (s: &'static str)
    requires
        d < 10,
    ensures
        s@ == seq![digit_char(d as int)],
{
    proof {
        reveal_strlit("0");
        reveal_strlit("1");
        reveal_strlit("2");
        reveal_strlit("3");
        reveal_strlit("4");
        reveal_strlit("5");
        reveal_strlit("6");
        reveal_strlit("7");
        reveal_strlit("8");
        reveal_strlit("9");
    }
    let s: &'static str = match d {
        0 => "0",
        1 => "1",
        2 => "2",
        3 => "3",
        4 => "4",
        5 => "5",
        6 => "6",
        7 => "7",
        8 => "8",
        _ => "9",
    };
    s
}

/// Appends a byte in decimal to a string.
fn push_decimal(out: &mut String, n: u8)
    ensures
        final(out)@ == old(out)@ + decimal(n),
{
    if n >= 100 {
        out.append(digit_str(n / 100));
        out.append(digit_str(n / 10 % 10));
        out.append(digit_str(n % 10));
    } else if n >= 10 {
        out.append(digit_str(n / 10));
        out.append(digit_str(n % 10));
    } else {
        out.append(digit_str(n));
    }
}

/// Renders a firmware version as `major.minor.patch`.
pub fn format_version(major: u8, minor: u8, patch: u8) -> (text: String)
    ensures
        text@ == version_string(major, minor, patch),
{
    proof {
        reveal_strlit(".");
    }
    let mut text: String = String::new();
    push_decimal(&mut text, major);
    text.append(".");
    push_decimal(&mut text, minor);
    text.append(".");
    push_decimal(&mut text, patch);
    text
}

/// Reads a byte as a two's-complement signed number.
fn byte_as_signed(b: u8) -> (value: i8)
    ensures
        value == as_signed(b),
{
    if b < 0x80 {
        b as i8
    } else {
        (b as i16 - 0x100) as i8
    }
}

/// Decodes one inbound payload to an event. A payload that is too short for
/// its kind, or whose fields name nothing known, is refused with the reason;
/// a header without a layout of its own gives `Other`. A payload that decodes
/// always gives an event.
pub fn parse_serial_message(message: &[u8]) -> (res: Result<Option<Event>, ProtocolError>)
    ensures
        match res {
            Ok(Some(event)) => decode_event(message@) == Ok::<EventView, ProtocolError>(event@),
            Ok(None) => false,
            Err(error) => decode_event(message@) == Err::<EventView, ProtocolError>(error),
        },
{
    if message.len() < 3 {
        return Err(ProtocolError::Truncated);
    }
    let header: u16 = u16_from_be_bytes(message[0], message[1]);
    let tx_id: u8 = message[2];
    match MessageHeader::from_u16(header) {
        Some(MessageHeader::ButtonPress) => {
            if message.len() < 5 {
                return Err(ProtocolError::Truncated);
            }
            let button = match Button::from_u8(message[3]) {
                Some(button) => button,
                None => {
                    return Err(ProtocolError::InvalidButton);
                },
            };
            let dir = match PressDirection::from_u8(message[4]) {
                Some(dir) => dir,
                None => {
                    return Err(ProtocolError::InvalidDirection);
                },
            };
            Ok(Some(Event::ButtonPress(ButtonPressEvent { tx_id, button, dir })))
        },
        Some(MessageHeader::KnobRotate) => {
            if message.len() < 5 {
                return Err(ProtocolError::Truncated);
            }
            let knob = match Knob::from_u8(message[3]) {
                Some(knob) => knob,
                None => {
                    return Err(ProtocolError::InvalidKnob);
                },
            };
            let value: i8 = byte_as_signed(message[4]);
            Ok(Some(Event::KnobRotate(KnobRotateEvent { tx_id, knob, value })))
        },
        Some(MessageHeader::TouchDown) => parse_touch(message, PressDirection::Down),
        Some(MessageHeader::TouchUp) => parse_touch(message, PressDirection::Up),
        Some(MessageHeader::SerialIn) => {
            let body = slice_subrange(message, 3, message.len());
            match string_from_utf8(slice_to_vec(body)) {
                None => Err(ProtocolError::InvalidSerial),
                Some(text) => {
                    let serial_number: String = trim(text.as_str()).to_owned();
                    Ok(Some(Event::SerialIn(SerialInEvent { tx_id, serial_number })))
                },
            }
        },
        Some(MessageHeader::VersionIn) => {
            if message.len() < 6 {
                return Err(ProtocolError::Truncated);
            }
            let version: String = format_version(message[3], message[4], message[5]);
            Ok(Some(Event::VersionIn(VersionInEvent { tx_id, version })))
        },
        Some(MessageHeader::ConfirmFrameBuffer) => Ok(
            Some(Event::ConfirmFrameBufferIn(ConfirmFrameBufferInEvent { tx_id })),
        ),
        Some(MessageHeader::DrawIn) => Ok(Some(Event::DrawIn(DrawInEvent { tx_id }))),
        _ => Ok(Some(Event::Other(FallbackEvent { tx_id, raw: slice_to_vec(message) }))),
    }
}

/// Decodes the body of a touch payload.
fn parse_touch(message: &[u8], dir: PressDirection) -> (res: Result<Option<Event>, ProtocolError>)
    requires
        message@.len() >= 3,
    ensures
        match res {
            Ok(Some(event)) => decode_touch(message@, dir) == Ok::<EventView, ProtocolError>(
                event@,
            ),
            Ok(None) => false,
            Err(error) => decode_touch(message@, dir) == Err::<EventView, ProtocolError>(error),
        },
{
    if message.len() < 9 {
        return Err(ProtocolError::Truncated);
    }
    let x: u16 = u16_from_be_bytes(message[4], message[5]);
    let y: u16 = u16_from_be_bytes(message[6], message[7]);
    let touch_id: u8 = message[8];
    match Screen::from_x_coor(x) {
        None => Err(ProtocolError::InvalidScreen),
        Some(screen) => Ok(
            Some(Event::TouchEvent(TouchEvent { tx_id: message[2], dir, touch_id, x, y, screen })),
        ),
    }
}

/// A message as the wire carries it: kind, transaction id and body.
#[derive(Debug, Clone, PartialEq, Eq)]
pub struct Message {
    pub header: u16,
    pub tx_id: u8,
    pub body: Vec<u8>,
}

/// The payload of a message: the header high byte first, the transaction id,
/// then the body.
pub open spec fn message_payload(header: u16, tx_id: u8, body: Seq<u8>) -> Seq<u8> {
    be16(header) + seq![tx_id] + body
}

/// The message that a payload holds, if it is long enough to hold one.
pub open spec fn payload_message(p: Seq<u8>) -> Option<(u16, u8, Seq<u8>)> {
    if p.len() < 3 {
        None
    } else {
        Some((payload_header(p), p[2], p.skip(3)))
    }
}

impl Message {
    /// Writes the message out as a payload.
    pub fn encode(&self) -> (payload: Vec<u8>)
        ensures
            payload@ == message_payload(self.header, self.tx_id, self.body@),
    {
        let mut payload: Vec<u8> = u16_to_be_bytes(self.header);
        payload.push(self.tx_id);
        payload.extend_from_slice(self.body.as_slice());
        payload
    }

    /// Reads a payload as header, transaction id and body. A payload of fewer
    /// than three bytes holds no message.
    pub fn decode(payload: &[u8]) -> (message: Option<Message>)
        ensures
            match message {
                Some(m) => payload_message(payload@) == Some((m.header, m.tx_id, m.body@)),
                None => payload_message(payload@) is None,
            },
    {
        if payload.len() < 3 {
            return None;
        }
        let header: u16 = u16_from_be_bytes(payload[0], payload[1]);
        let body: Vec<u8> = slice_to_vec(slice_subrange(payload, 3, payload.len()));
        Some(Message { header, tx_id: payload[2], body })
    }
}

/// Starts an outbound message: the header, the placeholder where the
/// transaction id will go, and the body.
pub fn encode_message(header: MessageHeader, data: &[u8]) -> (message: Vec<u8>)
    ensures
        message@ == message_payload(header.spec_code(), TX_ID_PLACEHOLDER, data@),
{
    let mut message: Vec<u8> = header.to_bytes();
    message.push(TX_ID_PLACEHOLDER);
    message.extend_from_slice(data);
    message
}

/// The length byte of a short-form frame: `0x80` plus the length, kept to
/// eight bits.
pub open spec fn short_length_byte(len: nat) -> u8 {
    ((0x80 + len) % 0x100) as u8
}

/// The envelope in front of a payload of `len` bytes. Up to 255 bytes the
/// short form is used: the marker, the length byte and four zero bytes. Above
/// that the long form: the marker, `0xFF`, four zero bytes, the length as a
/// big-endian 32-bit number and four more zero bytes.
pub open spec fn frame_prefix(len: nat) -> Seq<u8> {
    if len > SHORT_FORM_MAX {
        seq![FRAME_MARKER, LONG_FORM_MARKER, 0u8, 0u8, 0u8, 0u8] + be32(len as u32) + seq![
            0u8,
            0u8,
            0u8,
            0u8,
        ]
    } else {
        seq![FRAME_MARKER, short_length_byte(len), 0u8, 0u8, 0u8, 0u8]
    }
}

/// A message on the wire: the envelope, then the message with the transaction
/// id in its third byte.
pub open spec fn framed(message: Seq<u8>, tx_id: u8) -> Seq<u8> {
    frame_prefix(message.len()) + message.update(TX_ID_OFFSET as int, tx_id)
}

/// Frames a message for the wire and writes its transaction id. The message
/// must have room for the id, and its length must fit the 32-bit length field.
pub fn construct_message_payload(message_buffer: Vec<u8>, tx_id: u8) -> (frame: Vec<u8>)
    requires
        message_buffer@.len() > TX_ID_OFFSET,
        message_buffer@.len() <= u32::MAX,
    ensures
        frame@ == framed(message_buffer@, tx_id),
{
    let len: usize = message_buffer.len();
    let mut frame: Vec<u8> = Vec::new();
    frame.push(FRAME_MARKER);
    if len > SHORT_FORM_MAX {
        frame.push(LONG_FORM_MARKER);
        frame.push(0);
        frame.push(0);
        frame.push(0);
        frame.push(0);
        let mut length: Vec<u8> = u32_to_be_bytes(len as u32);
        frame.append(&mut length);
        frame.push(0);
        frame.push(0);
        frame.push(0);
        frame.push(0);
    } else {
        let low: u8 = len as u8;
        let length_byte: u8 = low.wrapping_add(0x80);
        frame.push(length_byte);
        frame.push(0);
        frame.push(0);
        frame.push(0);
        frame.push(0);
    }
    let mut message: Vec<u8> = message_buffer;
    message[TX_ID_OFFSET] = tx_id;
    frame.append(&mut message);
    frame
}

/// The body of a frame-buffer write: the screen's code, then x, y, width and
/// height as big-endian 16-bit numbers, then the pixels.
pub open spec fn draw_buffer_payload(
    screen: Screen,
    x: u16,
    y: u16,
    width: u16,
    height: u16,
    buffer: Seq<u8>,
) -> Seq<u8> {
    be16(screen.spec_code()) + be16(x) + be16(y) + be16(width) + be16(height) + buffer
}

/// Builds the body of a frame-buffer write for the region of `width` by
/// `height` pixels at (`x`, `y`). The buffer must hold two bytes for each pixel
/// of the region; any other length is refused.
pub fn construct_draw_buffer_payload(
    screen: Screen,
    x: u16,
    y: u16,
    width: u16,
    height: u16,
    buffer: &[u8],
) -> (res: Result<Vec<u8>, ProtocolError>)
    ensures
        match res {
            Ok(payload) => buffer@.len() == 2 * width * height && payload@ == draw_buffer_payload(
                screen,
                x,
                y,
                width,
                height,
                buffer@,
            ),
            Err(error) => buffer@.len() != 2 * width * height && error
                == ProtocolError::InvalidBufferLength,
        },
{
    assert((width as u64) * (height as u64) <= 0xFFFF * 0xFFFF) by (nonlinear_arith)
        requires
            width <= 0xFFFF,
            height <= 0xFFFF,
    ;
    let wanted: u64 = 2 * ((width as u64) * (height as u64));
    assert(wanted == 2 * width * height) by (nonlinear_arith)
        requires
            wanted == 2 * ((width as u64) * (height as u64)),
    ;
    if buffer.len() as u64 != wanted {
        return Err(ProtocolError::InvalidBufferLength);
    }
    let mut payload: Vec<u8> = screen.to_bytes();
    let mut x_bytes: Vec<u8> = u16_to_be_bytes(x);
    let mut y_bytes: Vec<u8> = u16_to_be_bytes(y);
    let mut width_bytes: Vec<u8> = u16_to_be_bytes(width);
    let mut height_bytes: Vec<u8> = u16_to_be_bytes(height);
    payload.append(&mut x_bytes);
    payload.append(&mut y_bytes);
    payload.append(&mut width_bytes);
    payload.append(&mut height_bytes);
    payload.extend_from_slice(buffer);
    Ok(payload)
}

/// The hexadecimal digit `d` as a lower-case character.
pub open spec fn hex_digit_char(d: int) -> char {
    if d < 10 {
        digit_char(d)
    } else if d == 10 {
        'a'
    } else if d == 11 {
        'b'
    } else if d == 12 {
        'c'
    } else if d == 13 {
        'd'
    } else if d == 14 {
        'e'
    } else {
        'f'
    }
}

/// A byte as two lower-case hexadecimal digits.
pub open spec fn hex_byte(b: u8) -> Seq<char> {
    seq![hex_digit_char(b as int / 16), hex_digit_char(b as int % 16)]
}

/// Bytes as text: two hexadecimal digits each, with a space between one byte
/// and the next.
pub open spec fn hex_string(bytes: Seq<u8>) -> Seq<char>
    decreases bytes.len(),
{
    if bytes.len() == 0 {
        Seq::<char>::empty()
    } else if bytes.len() == 1 {
        hex_byte(bytes[0])
    } else {
        hex_string(bytes.drop_last()) + seq![' '] + hex_byte(bytes.last())
    }
}

/// One hexadecimal digit as text.
fn hex_digit_str(d: u8) -> (s: &'static str)
    requires
        d < 16,
    ensures
        s@ == seq![hex_digit_char(d as int)],
{
    if d < 10 {
        digit_str(d)
    } else {
        proof {
            reveal_strlit("a");
            reveal_strlit("b");
            reveal_strlit("c");
            reveal_strlit("d");
            reveal_strlit("e");
            reveal_strlit("f");
        }
        let s: &'static str = match d {
            10 => "a",
            11 => "b",
            12 => "c",
            13 => "d",
            14 => "e",
            _ => "f",
        };
        s
    }
}

/// Renders bytes for a log line, as in `82 ff 00`.
pub fn to_hex(bytes: &[u8]) -> (text: String)
    ensures
        text@ == hex_string(bytes@),
{
    proof {
        reveal_strlit(" ");
    }
    let mut text: String = String::new();
    let mut i: usize = 0;
    while i < bytes.len()
        invariant
            i <= bytes.len(),
            " "@ == seq![' '],
            text@ == hex_string(bytes@.take(i as int)),
        decreases bytes.len() - i,
    {
        let b: u8 = bytes[i];
        if i > 0 {
            text.append(" ");
        }
        text.append(hex_digit_str(b / 16));
        text.append(hex_digit_str(b % 16));
        assert(bytes@.take(i as int + 1).drop_last() =~= bytes@.take(i as int));
        i = i + 1;
    }
    assert(bytes@.take(bytes.len() as int) =~= bytes@);
    text
}

/// Length of the envelope in front of a payload of `len` bytes.
pub open spec fn frame_prefix_len(len: nat) -> nat {
    if len > SHORT_FORM_MAX {
        LONG_PREFIX_LEN as nat
    } else {
        SHORT_PREFIX_LEN as nat
    }
}

/// Reading a payload back gives the header, the transaction id and the body
/// that were written into it.
pub proof fn lemma_message_round_trip(header: u16, tx_id: u8, body: Seq<u8>)
    ensures
        payload_message(message_payload(header, tx_id, body)) == Some((header, tx_id, body)),
{
}

/// Decoding undoes encoding, for every kind of message: the payload that a
/// frame carries is the encoded message with the transaction id in place of
/// the placeholder, and it reads back as the same header, the same transaction
/// id and the same body.
pub proof fn lemma_decode_encode(header: MessageHeader, tx_id: u8, body: Seq<u8>)
    ensures
        ({
            let message = message_payload(header.spec_code(), TX_ID_PLACEHOLDER, body);
            let frame = framed(message, tx_id);
            let payload = frame.skip(frame_prefix_len(message.len()) as int);
            &&& frame.take(frame_prefix_len(message.len()) as int) == frame_prefix(message.len())
            &&& payload == message_payload(header.spec_code(), tx_id, body)
            &&& payload_message(payload) == Some((header.spec_code(), tx_id, body))
            &&& MessageHeader::spec_from_u16(payload_header(payload)) == Some(header)
        }),
{
    lemma_message_round_trip(header.spec_code(), tx_id, body);
}

/// The header value that an event was decoded from. An event without a
/// decoded form says it in the payload it keeps.
pub open spec fn event_header(event: EventView) -> u16 {
    match event {
        EventView::ButtonPress(_) => MessageHeader::ButtonPress.spec_code(),
        EventView::KnobRotate(_) => MessageHeader::KnobRotate.spec_code(),
        EventView::TouchEvent(touch) => if touch.dir == PressDirection::Down {
            MessageHeader::TouchDown.spec_code()
        } else {
            MessageHeader::TouchUp.spec_code()
        },
        EventView::Other { raw, .. } => payload_header(raw),
        EventView::SerialIn { .. } => MessageHeader::SerialIn.spec_code(),
        EventView::VersionIn { .. } => MessageHeader::VersionIn.spec_code(),
        EventView::ConfirmFrameBufferIn(_) => MessageHeader::ConfirmFrameBuffer.spec_code(),
        EventView::DrawIn(_) => MessageHeader::DrawIn.spec_code(),
    }
}

/// An event carries the transaction id and the kind of the payload it was
/// decoded from.
pub proof fn lemma_decode_keeps_tx_id_and_kind(p: Seq<u8>)
    ensures
        decode_event(p) matches Ok(event) ==> {
            &&& p.len() >= 3
            &&& event.tx_id() == p[2]
            &&& event_header(event) == payload_header(p)
        },
{
}

/// The long form. A message of more than 255 bytes goes out behind a prefix
/// of fourteen bytes that starts `0x82 0xFF` and holds the message's length
/// as a big-endian 32-bit number in bytes six to nine; the transaction id
/// stands at offset two of what follows the prefix, and nothing else of the
/// message is changed.
pub proof fn lemma_long_form(message: Seq<u8>, tx_id: u8)
    requires
        message.len() > SHORT_FORM_MAX,
        message.len() <= u32::MAX,
    ensures
        ({
            let frame = framed(message, tx_id);
            &&& frame.len() == LONG_PREFIX_LEN + message.len()
            &&& frame[0] == 0x82
            &&& frame[1] == 0xFF
            &&& frame.subrange(LONG_LENGTH_OFFSET as int, LONG_LENGTH_OFFSET as int + 4) == be32(
                message.len() as u32,
            )
            &&& from_be32(frame[6], frame[7], frame[8], frame[9]) == message.len()
            &&& frame[LONG_PREFIX_LEN as int + TX_ID_OFFSET as int] == tx_id
            &&& frame.skip(LONG_PREFIX_LEN as int) == message.update(TX_ID_OFFSET as int, tx_id)
        }),
{
    lemma_be32_round_trip(message.len() as u32);
}

/// The short form. A message of at most 255 bytes goes out behind a prefix of
/// six bytes: the marker, the length byte and four zero bytes; the transaction
/// id stands at offset two of what follows.
pub proof fn lemma_short_form(message: Seq<u8>, tx_id: u8)
    requires
        TX_ID_OFFSET < message.len() <= SHORT_FORM_MAX,
    ensures
        ({
            let frame = framed(message, tx_id);
            &&& frame.len() == SHORT_PREFIX_LEN + message.len()
            &&& frame[0] == 0x82
            &&& frame[1] == short_length_byte(message.len())
            &&& message.len() < 0x80 ==> frame[1] == 0x80 + message.len()
            &&& frame[SHORT_PREFIX_LEN as int + TX_ID_OFFSET as int] == tx_id
            &&& frame.skip(SHORT_PREFIX_LEN as int) == message.update(TX_ID_OFFSET as int, tx_id)
        }),
{
}

} // verus!
