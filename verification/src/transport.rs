//! Device transport: the connection's life cycle, transaction ids, request and
//! reply correlation, and the operations that put messages on the wire. The
//! serial port itself is not here: every operation hands back the bytes to
//! write, and takes the bytes that were read.

use vstd::prelude::*;
use vstd::seq_lib::lemma_seq_contains_after_push;
use vstd::slice::slice_to_vec;
use vstd::string::StringSliceAdditionalSpecFns;
use crate::codec::{
    construct_draw_buffer_payload, construct_message_payload, decode_event, draw_buffer_payload,
    encode_message, framed, message_payload, parse_serial_message, ProtocolError, FRAME_MARKER,
    TX_ID_PLACEHOLDER,
};
use crate::bytes::be16;
use crate::constants::{Haptic, MessageHeader, Screen, KEY_SIZE};
use crate::event::{Event, EventView};
use crate::layout::{event_payload, lemma_event_round_trip, well_formed};
use crate::reader::{
    lemma_reader_delivers_frame, payload_views, reader_run, FrameReader, ReaderState,
};

verus! {

/// Transaction id of the first request of a connection.
pub const FIRST_TX_ID: u8 = 2;

/// Transaction id of every message that expects no reply.
pub const FIRE_AND_FORGET_TX_ID: u8 = 1;

/// Baud rate at which the serial port is opened. The device ignores it.
pub const BAUD_RATE: u32 = 9600;

/// USB vendor id of the device.
pub const LOUPEDECK_VENDOR_ID: u16 = 11970;

/// Capacity of the event bus.
pub const EVENT_BUS_CAPACITY: usize = 10;

/// Capacity of the outbound queue.
pub const SEND_QUEUE_CAPACITY: usize = 100;

/// The request that opens the connection.
pub const WS_UPGRADE_HEADER: &'static str =
    "GET /index.html\nHTTP/1.1\nConnection: Upgrade\nUpgrade: websocket\nSec-WebSocket-Key: 123abc\n\n";

/// What the device's answer to the opening request must contain: the text
/// `HTTP/1.1`.
pub open spec fn upgrade_token() -> Seq<u8> {
    seq![0x48u8, 0x54u8, 0x54u8, 0x50u8, 0x2fu8, 0x31u8, 0x2eu8, 0x31u8]
}

/// Whether `needle` stands somewhere in `haystack`.
pub open spec fn occurs_in(haystack: Seq<u8>, needle: Seq<u8>) -> bool {
    exists|i: int|
        0 <= i && i + needle.len() <= haystack.len() && #[trigger] haystack.subrange(
            i,
            i + needle.len(),
        ) == needle
}

/// Whether `needle` stands in `haystack` at offset `at`.
fn matches_at(haystack: &[u8], needle: &[u8], at: usize) -> (found: bool)
    requires
        at + needle@.len() <= haystack@.len(),
    ensures
        found <==> haystack@.subrange(at as int, at + needle@.len()) == needle@,
{
    let size: usize = haystack.len();
    let mut j: usize = 0;
    while j < needle.len()
        invariant
            j <= needle@.len(),
            at + needle@.len() <= haystack@.len() == size,
            forall|k: int| 0 <= k < j ==> haystack@[at + k] == needle@[k],
        decreases needle.len() - j,
    {
        if haystack[at + j] != needle[j] {
            assert(haystack@.subrange(at as int, at + needle@.len())[j as int] != needle@[j as int]);
            return false;
        }
        j = j + 1;
    }
    assert(haystack@.subrange(at as int, at + needle@.len()) =~= needle@);
    true
}

/// Searches a byte string for another.
pub fn contains_subslice(haystack: &[u8], needle: &[u8]) -> (found: bool)
    ensures
        found <==> occurs_in(haystack@, needle@),
{
    if needle.len() > haystack.len() {
        return false;
    }
    if needle.len() == 0 {
        assert(haystack@.subrange(0int, 0int + needle@.len()) =~= needle@);
        return true;
    }
    let last: usize = haystack.len() - needle.len();
    let mut i: usize = 0;
    while i <= last
        invariant
            i <= last + 1,
            last == haystack@.len() - needle@.len(),
            last < usize::MAX,
            forall|k: int|
                0 <= k < i ==> #[trigger] haystack@.subrange(k, k + needle@.len()) != needle@,
        decreases last + 1 - i,
    {
        if matches_at(haystack, needle, i) {
            return true;
        }
        i = i + 1;
    }
    false
}

/// Whether the device's answer to the opening request accepts the connection:
/// it does if the text `HTTP/1.1` stands anywhere in it.
pub fn upgrade_accepted(response: &[u8]) -> (accepted: bool)
    ensures
        accepted <==> occurs_in(response@, upgrade_token()),
{
    let mut token: Vec<u8> = Vec::new();
    token.push(0x48);
    token.push(0x54);
    token.push(0x54);
    token.push(0x50);
    token.push(0x2f);
    token.push(0x31);
    token.push(0x2e);
    token.push(0x31);
    assert(token@ =~= upgrade_token());
    contains_subslice(response, token.as_slice())
}

/// Why the transport gave up.
#[derive(Debug, Clone, Copy, PartialEq, Eq, Structural)]
pub enum TransportError {
    /// The device's answer to the opening request did not accept the
    /// connection.
    UpgradeRejected,
    /// A reply did not come in time.
    Timeout,
    /// The connection was closed while a reply was waited for.
    Closed,
    /// The serial number or the version did not arrive.
    MissingInfo,
}

/// Where a device stands in its life: new, connecting, connected,
/// disconnected. There is no way back; to connect again takes a new device.
#[derive(Debug, Clone, Copy, PartialEq, Eq, Structural)]
pub enum LinkState {
    New,
    Connecting,
    Connected,
    Disconnected,
}

/// What the device told about itself.
#[derive(Debug, Clone, PartialEq, Eq)]
pub struct DeviceInfo {
    pub serial: String,
    pub version: String,
}

/// A frame to write to the device, and the transaction id under which its
/// reply will come, if one is expected.
#[derive(Debug, Clone, PartialEq, Eq)]
pub struct Outbound {
    pub frame: Vec<u8>,
    pub reply_to: Option<u8>,
}

/// An event to publish, and the waiter that it completes, if it answers a
/// request.
#[derive(Debug, Clone, PartialEq, Eq)]
pub struct Delivery {
    pub event: Event,
    pub completes: Option<u8>,
}

/// A message from a plugin context on its way to the outbound queue. It goes
/// out under the reserved transaction id, and no reply is waited for.
#[derive(Debug, PartialEq, Eq)]
pub struct ExternalMessage {
    pub action: MessageHeader,
    pub data: Vec<u8>,
}

impl ExternalMessage {
    /// A message of kind `action` with body `data`.
    pub fn new(action: MessageHeader, data: Vec<u8>) -> (message: ExternalMessage)
        ensures
            message == (ExternalMessage { action, data }),
    {
        ExternalMessage { action, data }
    }

    /// The message that makes the device vibrate.
    pub fn vibrate(level: Haptic) -> (message: ExternalMessage)
        ensures
            message.action == MessageHeader::SetVibration,
            message.data@ == seq![level.spec_code()],
    {
        let mut data: Vec<u8> = Vec::new();
        data.push(level.code());
        ExternalMessage { action: MessageHeader::SetVibration, data }
    }

    /// Frames the message for the wire, under the reserved transaction id.
    pub fn into_frame(self) -> (frame: Vec<u8>)
        requires
            self.data@.len() + 3 <= u32::MAX,
        ensures
            frame@ == framed(
                message_payload(self.action.spec_code(), TX_ID_PLACEHOLDER, self.data@),
                FIRE_AND_FORGET_TX_ID,
            ),
    {
        let message: Vec<u8> = encode_message(self.action, self.data.as_slice());
        construct_message_payload(message, FIRE_AND_FORGET_TX_ID)
    }
}

/// The transaction id after `tx_id`: one more, and 0 after 255.
pub open spec fn next_tx_id(tx_id: u8) -> u8 {
    if tx_id == 0xFF {
        0
    } else {
        (tx_id + 1) as u8
    }
}

/// The transaction id of the `n`-th request after the one that got `start`.
pub open spec fn nth_tx_id(start: u8, n: nat) -> u8
    decreases n,
{
    if n == 0 {
        start
    } else {
        next_tx_id(nth_tx_id(start, (n - 1) as nat))
    }
}

/// Routes a reply: the waiter under the reply's transaction id is completed
/// and leaves the table; no other waiter is touched. A reply that nobody waits
/// for completes nobody.
pub open spec fn route(waiting: Set<u8>, tx_id: u8) -> (Set<u8>, Option<u8>) {
    if waiting.contains(tx_id) {
        (waiting.remove(tx_id), Some(tx_id))
    } else {
        (waiting, None)
    }
}

/// Decodes payloads in order and routes the events: payloads that do not
/// decode are dropped, every other one gives an event to publish, with the
/// waiter that it completes.
pub open spec fn deliver(waiting: Set<u8>, payloads: Seq<Seq<u8>>) -> (
    Set<u8>,
    Seq<(EventView, Option<u8>)>,
)
    decreases payloads.len(),
{
    if payloads.len() == 0 {
        (waiting, Seq::<(EventView, Option<u8>)>::empty())
    } else {
        let (before, delivered) = deliver(waiting, payloads.drop_last());
        match decode_event(payloads.last()) {
            Ok(event) => {
                let (after, completes) = route(before, event.tx_id());
                (after, delivered.push((event, completes)))
            },
            Err(_) => (before, delivered),
        }
    }
}

/// The views of a list of deliveries.
pub open spec fn delivery_views(deliveries: Seq<Delivery>) -> Seq<(EventView, Option<u8>)> {
    deliveries.map_values(|d: Delivery| (d.event@, d.completes))
}

/// The transaction id that a send uses: the next one in line where a reply is
/// expected, the reserved one where none is.
pub open spec fn tx_id_for(device: DeviceView, expect_event: bool) -> u8 {
    if expect_event {
        device.next_tx_id
    } else {
        FIRE_AND_FORGET_TX_ID
    }
}

/// The device after a send. Where a reply is expected, the transaction id in
/// line is used up and a waiter stands under it; else nothing changes.
pub open spec fn after_send(device: DeviceView, expect_event: bool) -> DeviceView {
    if expect_event {
        DeviceView {
            next_tx_id: next_tx_id(device.next_tx_id),
            waiting: device.waiting.insert(device.next_tx_id),
            ..device
        }
    } else {
        device
    }
}

/// What a device is, as far as the transport's rules go.
pub struct DeviceView {
    pub port: Seq<char>,
    pub state: LinkState,
    pub next_tx_id: u8,
    pub waiting: Set<u8>,
}

/// The host's end of the connection to one device: the state of the link, the
/// next transaction id and the requests that still wait for their reply.
pub struct Device {
    port: String,
    state: LinkState,
    next_tx_id: u8,
    waiting: Vec<bool>,
}

impl View for Device {
    type V = DeviceView;

    closed spec fn view(&self) -> DeviceView {
        DeviceView {
            port: self.port@,
            state: self.state,
            next_tx_id: self.next_tx_id,
            waiting: Set::new(|tx_id: u8| self.waiting@[tx_id as int]),
        }
    }
}

impl Device {
    #[verifier::type_invariant]
    spec fn table_is_whole(self) -> bool {
        self.waiting@.len() == 0x100
    }

    /// A device on the given serial port, not yet connected. Its first request
    /// will get transaction id 2.
    pub fn new(port: String) -> (device: Device)
        ensures
            device@ == (DeviceView {
                port: port@,
                state: LinkState::New,
                next_tx_id: FIRST_TX_ID,
                waiting: Set::<u8>::empty(),
            }),
    {
        let mut waiting: Vec<bool> = Vec::new();
        let mut i: usize = 0;
        while i < 0x100
            invariant
                i <= 0x100,
                waiting@.len() == i,
                forall|k: int| 0 <= k < i ==> !waiting@[k],
            decreases 0x100 - i,
        {
            waiting.push(false);
            i = i + 1;
        }
        let device = Device {
            port,
            state: LinkState::New,
            next_tx_id: FIRST_TX_ID,
            waiting,
        };
        assert(device@.waiting =~= Set::<u8>::empty());
        device
    }

    /// The serial port that the device is on.
    pub fn port(&self) -> (port: &String)
        ensures
            port@ == self@.port,
    {
        &self.port
    }

    /// Where the device stands in its life.
    pub fn state(&self) -> (state: LinkState)
        ensures
            state == self@.state,
    {
        self.state
    }

    /// Whether the connection is up.
    pub fn is_connected(&self) -> (connected: bool)
        ensures
            connected <==> self@.state == LinkState::Connected,
    {
        self.state == LinkState::Connected
    }

    /// Whether a request with this transaction id still waits for its reply.
    pub fn is_waiting(&self, tx_id: u8) -> (waiting: bool)
        ensures
            waiting <==> self@.waiting.contains(tx_id),
    {
        proof {
            use_type_invariant(self);
        }
        self.waiting[tx_id as usize]
    }

    /// Begins to connect. A new device becomes connecting, and the opening
    /// request is handed back for the caller to write to the port. A device
    /// that has begun its life already is left as it is.
    pub fn connect(&mut self) -> (request: Option<Vec<u8>>)
        ensures
            match request {
                Some(bytes) => {
                    &&& old(self)@.state == LinkState::New
                    &&& bytes@ == WS_UPGRADE_HEADER.spec_bytes()
                    &&& final(self)@ == (DeviceView {
                        state: LinkState::Connecting,
                        ..old(self)@
                    })
                },
                None => old(self)@.state != LinkState::New && final(self)@ == old(self)@,
            },
    {
        proof {
            use_type_invariant(&*self);
        }
        if self.state == LinkState::New {
            self.state = LinkState::Connecting;
            Some(slice_to_vec(WS_UPGRADE_HEADER.as_bytes()))
        } else {
            None
        }
    }

    /// Ends connecting, with the device's answer to the opening request. If
    /// the answer contains `HTTP/1.1` the connection is up; any other answer
    /// is a connection error, and the device is disconnected.
    pub fn finish_connect(&mut self, response: &[u8]) -> (res: Result<(), TransportError>)
        requires
            old(self)@.state == LinkState::Connecting,
        ensures
            res is Ok <==> occurs_in(response@, upgrade_token()),
            res matches Err(error) ==> error == TransportError::UpgradeRejected,
            final(self)@ == (DeviceView {
                state: if res is Ok {
                    LinkState::Connected
                } else {
                    LinkState::Disconnected
                },
                ..old(self)@
            }),
    {
        proof {
            use_type_invariant(&*self);
        }
        if upgrade_accepted(response) {
            self.state = LinkState::Connected;
            Ok(())
        } else {
            self.state = LinkState::Disconnected;
            Err(TransportError::UpgradeRejected)
        }
    }

    /// Closes the connection. Every request that still waited for its reply
    /// fails: the table of waiters is emptied, and the ids that were in it are
    /// handed back, in rising order.
    pub fn disconnect(&mut self) -> (dropped: Vec<u8>)
        ensures
            final(self)@ == (DeviceView {
                state: LinkState::Disconnected,
                waiting: Set::<u8>::empty(),
                ..old(self)@
            }),
            dropped@.to_set() == old(self)@.waiting,
            forall|i: int, j: int| 0 <= i < j < dropped@.len() ==> dropped@[i] < dropped@[j],
    {
        proof {
            use_type_invariant(&*self);
        }
        self.state = LinkState::Disconnected;
        let mut dropped: Vec<u8> = Vec::new();
        let mut i: usize = 0;
        while i < 0x100
            invariant
                i <= 0x100,
                self.waiting@.len() == 0x100,
                self.port == old(self).port,
                self.next_tx_id == old(self).next_tx_id,
                self.state == LinkState::Disconnected,
                forall|k: int| 0 <= k < i ==> !self.waiting@[k],
                forall|k: int| i <= k < 0x100 ==> self.waiting@[k] == old(self).waiting@[k],
                forall|tx_id: u8|
                    dropped@.contains(tx_id) <==> tx_id < i && old(self).waiting@[tx_id as int],
                forall|a: int, b: int| 0 <= a < b < dropped@.len() ==> dropped@[a] < dropped@[b],
            decreases 0x100 - i,
        {
            if self.waiting[i] {
                proof {
                    // everything dropped so far is below `i`
                    assert forall|k: int| 0 <= k < dropped@.len() implies dropped@[k] < i by {
                        assert(dropped@.contains(dropped@[k]));
                    }
                    assert forall|tx_id: u8|
                        dropped@.push(i as u8).contains(tx_id) <==> tx_id < i + 1 && old(
                            self,
                        ).waiting@[tx_id as int] by {
                        lemma_seq_contains_after_push(dropped@, i as u8, tx_id);
                    }
                }
                dropped.push(i as u8);
                self.waiting[i] = false;
            }
            i = i + 1;
        }
        assert(self@.waiting =~= Set::<u8>::empty());
        assert(dropped@.to_set() =~= old(self)@.waiting);
        dropped
    }

    /// Sends a message. Where a reply is expected the message gets the next
    /// transaction id and a waiter is registered under it; else it gets the
    /// reserved id 1. The frame is handed back for the outbound queue, with
    /// the id under which the reply will come.
    pub fn send(&mut self, message_buffer: Vec<u8>, expect_event: bool) -> (out: Outbound)
        requires
            old(self)@.state == LinkState::Connected,
            2 < message_buffer@.len() <= u32::MAX,
        ensures
            out.frame@ == framed(message_buffer@, tx_id_for(old(self)@, expect_event)),
            out.reply_to == if expect_event {
                Some(old(self)@.next_tx_id)
            } else {
                None
            },
            final(self)@ == after_send(old(self)@, expect_event),
    {
        proof {
            use_type_invariant(&*self);
        }
        let mut tx_id: u8 = FIRE_AND_FORGET_TX_ID;
        let mut reply_to: Option<u8> = None;
        if expect_event {
            tx_id = self.next_tx_id;
            self.next_tx_id = tx_id.wrapping_add(1);
            self.waiting[tx_id as usize] = true;
            reply_to = Some(tx_id);
            assert(self@.waiting =~= old(self)@.waiting.insert(tx_id));
        }
        let frame: Vec<u8> = construct_message_payload(message_buffer, tx_id);
        Outbound { frame, reply_to }
    }

    /// Sends a message of the given kind with the given body.
    pub fn send_message(&mut self, action: MessageHeader, data: &[u8], expect_event: bool) -> (out:
        Outbound)
        requires
            old(self)@.state == LinkState::Connected,
            data@.len() + 3 <= u32::MAX,
        ensures
            out.frame@ == framed(
                message_payload(action.spec_code(), TX_ID_PLACEHOLDER, data@),
                tx_id_for(old(self)@, expect_event),
            ),
            out.reply_to == if expect_event {
                Some(old(self)@.next_tx_id)
            } else {
                None
            },
            final(self)@ == after_send(old(self)@, expect_event),
    {
        let message: Vec<u8> = encode_message(action, data);
        self.send(message, expect_event)
    }

    /// Makes the device vibrate. No reply is expected.
    pub fn vibrate(&mut self, level: Haptic) -> (out: Outbound)
        requires
            old(self)@.state == LinkState::Connected,
        ensures
            out.frame@ == framed(
                message_payload(
                    MessageHeader::SetVibration.spec_code(),
                    TX_ID_PLACEHOLDER,
                    seq![level.spec_code()],
                ),
                FIRE_AND_FORGET_TX_ID,
            ),
            out.reply_to is None,
            final(self)@ == old(self)@,
    {
        let mut data: Vec<u8> = Vec::new();
        data.push(level.code());
        self.send_message(MessageHeader::SetVibration, data.as_slice(), false)
    }

    /// Asks the device to show what was written to a screen's frame buffer.
    pub fn refresh_screen(&mut self, screen: Screen) -> (out: Outbound)
        requires
            old(self)@.state == LinkState::Connected,
        ensures
            out.frame@ == framed(
                message_payload(
                    MessageHeader::DrawOut.spec_code(),
                    TX_ID_PLACEHOLDER,
                    be16(screen.spec_code()),
                ),
                old(self)@.next_tx_id,
            ),
            out.reply_to == Some(old(self)@.next_tx_id),
            final(self)@ == after_send(old(self)@, true),
    {
        let data: Vec<u8> = screen.to_bytes();
        self.send_message(MessageHeader::DrawOut, data.as_slice(), true)
    }

    /// Draws a buffer of RGB565 pixels to a region of a screen: first the
    /// frame-buffer write, then the refresh of the same screen, each with a
    /// transaction id of its own. A buffer that does not hold two bytes for
    /// each pixel of the region is refused and nothing is sent; so is one too
    /// long for a frame.
    pub fn draw_buffer(
        &mut self,
        screen: Screen,
        x: u16,
        y: u16,
        width: u16,
        height: u16,
        buffer: &[u8],
    ) -> (res: Result<(Outbound, Outbound), ProtocolError>)
        requires
            old(self)@.state == LinkState::Connected,
        ensures
            match res {
                Ok((write, refresh)) => {
                    &&& buffer@.len() == 2 * width * height
                    &&& buffer@.len() + 13 <= u32::MAX
                    &&& write.frame@ == framed(
                        message_payload(
                            MessageHeader::WriteFrameBuffer.spec_code(),
                            TX_ID_PLACEHOLDER,
                            draw_buffer_payload(screen, x, y, width, height, buffer@),
                        ),
                        old(self)@.next_tx_id,
                    )
                    &&& write.reply_to == Some(old(self)@.next_tx_id)
                    &&& refresh.frame@ == framed(
                        message_payload(
                            MessageHeader::DrawOut.spec_code(),
                            TX_ID_PLACEHOLDER,
                            be16(screen.spec_code()),
                        ),
                        next_tx_id(old(self)@.next_tx_id),
                    )
                    &&& refresh.reply_to == Some(next_tx_id(old(self)@.next_tx_id))
                    &&& final(self)@ == after_send(after_send(old(self)@, true), true)
                },
                Err(error) => {
                    &&& final(self)@ == old(self)@
                    &&& if buffer@.len() != 2 * width * height {
                        error == ProtocolError::InvalidBufferLength
                    } else {
                        error == ProtocolError::MessageTooLong && buffer@.len() + 13 > u32::MAX
                    }
                },
            },
    {
        let payload: Vec<u8> = match construct_draw_buffer_payload(
            screen,
            x,
            y,
            width,
            height,
            buffer,
        ) {
            Ok(payload) => payload,
            Err(error) => {
                return Err(error);
            },
        };
        if payload.len() > 0xFFFF_FFFF - 3 {
            return Err(ProtocolError::MessageTooLong);
        }
        let write: Outbound = self.send_message(
            MessageHeader::WriteFrameBuffer,
            payload.as_slice(),
            true,
        );
        let refresh: Outbound = self.refresh_screen(screen);
        Ok((write, refresh))
    }

    /// Draws a buffer of RGB565 pixels to the key in column `key_x` and row
    /// `key_y` of the centre screen.
    pub fn draw_key(&mut self, key_x: u16, key_y: u16, img: &[u8]) -> (res: Result<
        (Outbound, Outbound),
        ProtocolError,
    >)
        requires
            old(self)@.state == LinkState::Connected,
            KEY_SIZE * key_x <= u16::MAX,
            KEY_SIZE * key_y <= u16::MAX,
        ensures
            match res {
                Ok((write, refresh)) => {
                    &&& img@.len() == 2 * KEY_SIZE * KEY_SIZE
                    &&& write.frame@ == framed(
                        message_payload(
                            MessageHeader::WriteFrameBuffer.spec_code(),
                            TX_ID_PLACEHOLDER,
                            draw_buffer_payload(
                                Screen::Center,
                                (KEY_SIZE * key_x) as u16,
                                (KEY_SIZE * key_y) as u16,
                                KEY_SIZE,
                                KEY_SIZE,
                                img@,
                            ),
                        ),
                        old(self)@.next_tx_id,
                    )
                    &&& write.reply_to == Some(old(self)@.next_tx_id)
                    &&& refresh.frame@ == framed(
                        message_payload(
                            MessageHeader::DrawOut.spec_code(),
                            TX_ID_PLACEHOLDER,
                            be16(Screen::Center.spec_code()),
                        ),
                        next_tx_id(old(self)@.next_tx_id),
                    )
                    &&& refresh.reply_to == Some(next_tx_id(old(self)@.next_tx_id))
                    &&& final(self)@ == after_send(after_send(old(self)@, true), true)
                },
                Err(error) => {
                    &&& final(self)@ == old(self)@
                    &&& img@.len() != 2 * KEY_SIZE * KEY_SIZE
                    &&& error == ProtocolError::InvalidBufferLength
                },
            },
    {
        let x: u16 = KEY_SIZE * key_x;
        let y: u16 = KEY_SIZE * key_y;
        self.draw_buffer(Screen::Center, x, y, KEY_SIZE, KEY_SIZE, img)
    }

    /// Asks the device for its serial number.
    pub fn request_serial(&mut self) -> (out: Outbound)
        requires
            old(self)@.state == LinkState::Connected,
        ensures
            out.frame@ == framed(
                message_payload(
                    MessageHeader::SerialOut.spec_code(),
                    TX_ID_PLACEHOLDER,
                    Seq::<u8>::empty(),
                ),
                old(self)@.next_tx_id,
            ),
            out.reply_to == Some(old(self)@.next_tx_id),
            final(self)@ == after_send(old(self)@, true),
    {
        let data: Vec<u8> = Vec::new();
        self.send_message(MessageHeader::SerialOut, data.as_slice(), true)
    }

    /// Asks the device for its firmware version.
    pub fn request_version(&mut self) -> (out: Outbound)
        requires
            old(self)@.state == LinkState::Connected,
        ensures
            out.frame@ == framed(
                message_payload(
                    MessageHeader::VersionOut.spec_code(),
                    TX_ID_PLACEHOLDER,
                    Seq::<u8>::empty(),
                ),
                old(self)@.next_tx_id,
            ),
            out.reply_to == Some(old(self)@.next_tx_id),
            final(self)@ == after_send(old(self)@, true),
    {
        let data: Vec<u8> = Vec::new();
        self.send_message(MessageHeader::VersionOut, data.as_slice(), true)
    }

    /// Composes the device's description from the replies to the serial-number
    /// request and to the version request. Both must have arrived, and be of
    /// the right kind; a reply that did not come is `None`.
    pub fn get_info(serial_reply: Option<Event>, version_reply: Option<Event>) -> (res: Result<
        DeviceInfo,
        TransportError,
    >)
        ensures
            match res {
                Ok(info) => {
                    &&& serial_reply matches Some(Event::SerialIn(s))
                    &&& version_reply matches Some(Event::VersionIn(v))
                    &&& info.serial == s.serial_number
                    &&& info.version == v.version
                },
                Err(error) => {
                    &&& error == TransportError::MissingInfo
                    &&& !(serial_reply matches Some(Event::SerialIn(_)) && version_reply matches Some(
                        Event::VersionIn(_),
                    ))
                },
            },
    {
        match (serial_reply, version_reply) {
            (Some(Event::SerialIn(s)), Some(Event::VersionIn(v))) => Ok(
                DeviceInfo { serial: s.serial_number, version: v.version },
            ),
            _ => Err(TransportError::MissingInfo),
        }
    }

    /// Routes an event to the request that it answers: if a waiter stands
    /// under the event's transaction id, it is completed and leaves the table,
    /// and its id is handed back.
    pub fn on_event(&mut self, event: &Event) -> (completes: Option<u8>)
        ensures
            completes == route(old(self)@.waiting, event@.tx_id()).1,
            final(self)@ == (DeviceView {
                waiting: route(old(self)@.waiting, event@.tx_id()).0,
                ..old(self)@
            }),
    {
        proof {
            use_type_invariant(&*self);
        }
        let tx_id: u8 = event.tx_id();
        if self.waiting[tx_id as usize] {
            self.waiting[tx_id as usize] = false;
            assert(self@.waiting =~= old(self)@.waiting.remove(tx_id));
            Some(tx_id)
        } else {
            None
        }
    }

    /// Gives a request up: its waiter leaves the table, and a reply that comes
    /// later completes nobody. Says whether the request was still waiting.
    pub fn cancel(&mut self, tx_id: u8) -> (was_waiting: bool)
        ensures
            was_waiting == old(self)@.waiting.contains(tx_id),
            final(self)@ == (DeviceView { waiting: old(self)@.waiting.remove(tx_id), ..old(self)@ }),
    {
        proof {
            use_type_invariant(&*self);
        }
        let was_waiting: bool = self.waiting[tx_id as usize];
        self.waiting[tx_id as usize] = false;
        assert(self@.waiting =~= old(self)@.waiting.remove(tx_id));
        was_waiting
    }

    /// Takes bytes read from the serial port. The reader cuts them into
    /// payloads, the payloads are decoded, and each event is routed. What
    /// comes back is the list of events to publish, in the order in which they
    /// were decoded, each with the waiter that it completes. A payload that
    /// does not decode is dropped, and the stream goes on with the next frame.
    pub fn receive(&mut self, reader: &mut FrameReader, bytes: &[u8]) -> (deliveries: Vec<
        Delivery,
    >)
        ensures
            final(reader)@ == reader_run(old(reader)@, bytes@).0,
            delivery_views(deliveries@) == deliver(
                old(self)@.waiting,
                reader_run(old(reader)@, bytes@).1,
            ).1,
            final(self)@ == (DeviceView {
                waiting: deliver(old(self)@.waiting, reader_run(old(reader)@, bytes@).1).0,
                ..old(self)@
            }),
    {
        let payloads: Vec<Vec<u8>> = reader.feed_all(bytes);
        let ghost all = payload_views(payloads@);
        let ghost start = old(self)@.waiting;
        let mut deliveries: Vec<Delivery> = Vec::new();
        let mut i: usize = 0;
        while i < payloads.len()
            invariant
                i <= payloads@.len(),
                all == payload_views(payloads@),
                self@ == (DeviceView { waiting: deliver(start, all.take(i as int)).0, ..old(self)@ }),
                delivery_views(deliveries@) == deliver(start, all.take(i as int)).1,
            decreases payloads.len() - i,
        {
            assert(all.take(i as int + 1).drop_last() =~= all.take(i as int));
            match parse_serial_message(payloads[i].as_slice()) {
                Ok(Some(event)) => {
                    let completes: Option<u8> = self.on_event(&event);
                    deliveries.push(Delivery { event, completes });
                },
                _ => {},
            }
            i = i + 1;
        }
        assert(all.take(payloads@.len() as int) =~= all);
        deliveries
    }
}

/// The `n`-th transaction id after `start` is `start + n`, modulo 256.
pub proof fn lemma_nth_tx_id(start: u8, n: nat)
    ensures
        nth_tx_id(start, n) == (start + n) % 0x100,
    decreases n,
{
    if n > 0 {
        lemma_nth_tx_id(start, (n - 1) as nat);
    }
}

/// Transaction ids are not reused before they wrap: of any 256 requests in a
/// row, no two get the same id.
pub proof fn lemma_tx_ids_distinct(start: u8, i: nat, j: nat)
    requires
        i < j < i + 0x100,
    ensures
        nth_tx_id(start, i) != nth_tx_id(start, j),
{
    lemma_nth_tx_id(start, i);
    lemma_nth_tx_id(start, j);
}

/// Sending `n` requests from a device uses the `n` transaction ids in line,
/// in order.
pub open spec fn after_requests(device: DeviceView, n: nat) -> DeviceView
    decreases n,
{
    if n == 0 {
        device
    } else {
        after_send(after_requests(device, (n - 1) as nat), true)
    }
}

/// After `n` requests the next transaction id is the `n`-th after the one
/// that was in line, and the ids used on the way have waiters.
pub proof fn lemma_requests_use_ids_in_order(device: DeviceView, n: nat)
    ensures
        after_requests(device, n).next_tx_id == nth_tx_id(device.next_tx_id, n),
        forall|k: nat|
            k < n ==> after_requests(device, n).waiting.contains(
                #[trigger] nth_tx_id(device.next_tx_id, k),
            ),
    decreases n,
{
    if n > 0 {
        lemma_requests_use_ids_in_order(device, (n - 1) as nat);
    }
}

/// Replies find their requests whatever the order they come in. With two
/// requests waiting under different ids `a` and `b`, the reply to `b` coming
/// first completes `b` alone, and the reply to `a` coming after it completes
/// `a`; neither completes the other's waiter.
pub proof fn lemma_replies_find_their_requests(waiting: Set<u8>, a: u8, b: u8)
    requires
        a != b,
        waiting.contains(a),
        waiting.contains(b),
    ensures
        route(waiting, b) == (waiting.remove(b), Some(b)),
        route(route(waiting, b).0, a) == (waiting.remove(b).remove(a), Some(a)),
        !route(route(waiting, b).0, a).0.contains(a),
        !route(route(waiting, b).0, a).0.contains(b),
        forall|c: u8|
            c != a && c != b ==> (route(route(waiting, b).0, a).0.contains(c) <==> waiting.contains(
                c,
            )),
{
}

/// The same for payloads off the wire: two payloads that decode, the first
/// under `b` and the second under `a`, are delivered in that order, each to
/// its own waiter.
pub proof fn lemma_deliveries_find_their_requests(
    waiting: Set<u8>,
    first: Seq<u8>,
    second: Seq<u8>,
    a: u8,
    b: u8,
)
    requires
        a != b,
        waiting.contains(a),
        waiting.contains(b),
        decode_event(first) matches Ok(event) && event.tx_id() == b,
        decode_event(second) matches Ok(event) && event.tx_id() == a,
    ensures
        deliver(waiting, seq![first, second]) == (
            waiting.remove(b).remove(a),
            seq![
                (decode_event(first)->Ok_0, Some(b)),
                (decode_event(second)->Ok_0, Some(a)),
            ],
        ),
{
    let both = seq![first, second];
    assert(both.drop_last() =~= seq![first]);
    assert(seq![first].drop_last() =~= Seq::<Seq<u8>>::empty());
    assert(deliver(waiting, Seq::<Seq<u8>>::empty()) == (
        waiting,
        Seq::<(EventView, Option<u8>)>::empty(),
    ));
    // the first payload alone
    assert(deliver(waiting, seq![first]).0 == waiting.remove(b));
    assert(deliver(waiting, seq![first]).1 =~= seq![(decode_event(first)->Ok_0, Some(b))]);
}

/// One frame off the wire gives one event. From between frames, noise
/// without a marker and then the frame of a well-formed event give that event
/// to publish, routed to the waiter under its transaction id if there is one,
/// and leave the reader between frames.
pub proof fn lemma_frame_delivers_event(waiting: Set<u8>, noise: Seq<u8>, event: EventView)
    requires
        forall|i: int| 0 <= i < noise.len() ==> noise[i] != FRAME_MARKER,
        well_formed(event),
        event_payload(event).len() <= 0xFF,
    ensures
        ({
            let payload = event_payload(event);
            let run = reader_run(
                ReaderState::Scanning,
                noise + seq![FRAME_MARKER, payload.len() as u8] + payload,
            );
            &&& run == (ReaderState::Scanning, seq![payload])
            &&& deliver(waiting, run.1) == (
                route(waiting, event.tx_id()).0,
                seq![(event, route(waiting, event.tx_id()).1)],
            )
        }),
{
    let payload = event_payload(event);
    lemma_reader_delivers_frame(noise, payload);
    lemma_event_round_trip(event);
    assert(deliver(waiting, seq![payload].drop_last()) == (
        waiting,
        Seq::<(EventView, Option<u8>)>::empty(),
    ));
}

/// A serial port as the system lists it: its name, and the vendor id of the
/// USB device behind it, if it is a USB port.
#[derive(Debug, PartialEq, Eq)]
pub struct SerialPortInfo {
    pub port_name: String,
    pub usb_vendor_id: Option<u16>,
}

/// The names of the ports that belong to this kind of device: the USB ports
/// of its vendor id, in the order of the list.
pub open spec fn loupedeck_port_names(ports: Seq<SerialPortInfo>) -> Seq<Seq<char>>
    decreases ports.len(),
{
    if ports.len() == 0 {
        Seq::<Seq<char>>::empty()
    } else {
        let before = loupedeck_port_names(ports.drop_last());
        if ports.last().usb_vendor_id == Some(LOUPEDECK_VENDOR_ID) {
            before.push(ports.last().port_name@)
        } else {
            before
        }
    }
}

/// Picks the device's ports out of the system's list of serial ports: those
/// on USB whose vendor id is the device's, whatever the product id.
pub fn get_loupedeck_ports(ports: &[SerialPortInfo]) -> (names: Vec<String>)
    ensures
        names@.map_values(|name: String| name@) == loupedeck_port_names(ports@),
{
    let mut names: Vec<String> = Vec::new();
    let mut i: usize = 0;
    while i < ports.len()
        invariant
            i <= ports@.len(),
            names@.map_values(|name: String| name@) == loupedeck_port_names(ports@.take(i as int)),
        decreases ports.len() - i,
    {
        assert(ports@.take(i as int + 1).drop_last() =~= ports@.take(i as int));
        match ports[i].usb_vendor_id {
            Some(vendor_id) => {
                if vendor_id == LOUPEDECK_VENDOR_ID {
                    names.push(ports[i].port_name.clone());
                }
            },
            None => {},
        }
        i = i + 1;
    }
    assert(ports@.take(i as int) =~= ports@);
    names
}

} // verus!
