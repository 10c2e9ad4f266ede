//! Events: the decoded form of what the device sends.

use vstd::prelude::*;
use crate::constants::{Button, Knob, PressDirection, Screen};

verus! {

/// A hardware button went down or came up.
#[derive(Debug, Clone, Copy, PartialEq, Eq, Structural)]
pub struct ButtonPressEvent {
    pub tx_id: u8,
    pub button: Button,
    pub dir: PressDirection,
}

/// A rotary encoder was turned by `value` detents; negative is anticlockwise.
#[derive(Debug, Clone, Copy, PartialEq, Eq, Structural)]
pub struct KnobRotateEvent {
    pub tx_id: u8,
    pub knob: Knob,
    pub value: i8,
}

/// A finger touched or left the touch surface at pixel (`x`, `y`).
#[derive(Debug, Clone, Copy, PartialEq, Eq, Structural)]
pub struct TouchEvent {
    pub tx_id: u8,
    pub dir: PressDirection,
    pub touch_id: u8,
    pub x: u16,
    pub y: u16,
    pub screen: Screen,
}

/// A message of a kind that has no decoded form. The whole payload is kept
/// for diagnostics.
#[derive(Debug, Clone, PartialEq, Eq)]
pub struct FallbackEvent {
    pub tx_id: u8,
    pub raw: Vec<u8>,
}

/// The device reported its serial number.
#[derive(Debug, Clone, PartialEq, Eq)]
pub struct SerialInEvent {
    pub tx_id: u8,
    pub serial_number: String,
}

/// The device acknowledged a frame-buffer write.
#[derive(Debug, Clone, Copy, PartialEq, Eq, Structural)]
pub struct ConfirmFrameBufferInEvent {
    pub tx_id: u8,
}

/// The device reported its firmware version, as `major.minor.patch`.
#[derive(Debug, Clone, PartialEq, Eq)]
pub struct VersionInEvent {
    pub tx_id: u8,
    pub version: String,
}

/// The device acknowledged a screen refresh.
#[derive(Debug, Clone, Copy, PartialEq, Eq, Structural)]
pub struct DrawInEvent {
    pub tx_id: u8,
}

/// One decoded inbound message.
#[derive(Debug, Clone, PartialEq, Eq)]
pub enum Event {
    ButtonPress(ButtonPressEvent),
    KnobRotate(KnobRotateEvent),
    TouchEvent(TouchEvent),
    Other(FallbackEvent),
    SerialIn(SerialInEvent),
    VersionIn(VersionInEvent),
    ConfirmFrameBufferIn(ConfirmFrameBufferInEvent),
    DrawIn(DrawInEvent),
}

/// What an event is, with its strings and byte buffers as sequences.
pub enum EventView {
    ButtonPress(ButtonPressEvent),
    KnobRotate(KnobRotateEvent),
    TouchEvent(TouchEvent),
    Other { tx_id: u8, raw: Seq<u8> },
    SerialIn { tx_id: u8, serial_number: Seq<char> },
    VersionIn { tx_id: u8, version: Seq<char> },
    ConfirmFrameBufferIn(ConfirmFrameBufferInEvent),
    DrawIn(DrawInEvent),
}

impl EventView {
    /// The transaction id that the event carries.
    pub open spec fn tx_id(self) -> u8 {
        match self {
            EventView::ButtonPress(e) => e.tx_id,
            EventView::KnobRotate(e) => e.tx_id,
            EventView::TouchEvent(e) => e.tx_id,
            EventView::Other { tx_id, .. } => tx_id,
            EventView::SerialIn { tx_id, .. } => tx_id,
            EventView::VersionIn { tx_id, .. } => tx_id,
            EventView::ConfirmFrameBufferIn(e) => e.tx_id,
            EventView::DrawIn(e) => e.tx_id,
        }
    }
}

impl View for Event {
    type V = EventView;

    open spec fn view(&self) -> EventView {
        match *self {
            Event::ButtonPress(e) => EventView::ButtonPress(e),
            Event::KnobRotate(e) => EventView::KnobRotate(e),
            Event::TouchEvent(e) => EventView::TouchEvent(e),
            Event::Other(e) => EventView::Other { tx_id: e.tx_id, raw: e.raw@ },
            Event::SerialIn(e) => EventView::SerialIn {
                tx_id: e.tx_id,
                serial_number: e.serial_number@,
            },
            Event::VersionIn(e) => EventView::VersionIn { tx_id: e.tx_id, version: e.version@ },
            Event::ConfirmFrameBufferIn(e) => EventView::ConfirmFrameBufferIn(e),
            Event::DrawIn(e) => EventView::DrawIn(e),
        }
    }
}

impl Event {
    /// The transaction id that the event carries: the one of the request it
    /// answers, or whatever the device chose for an unsolicited message.
    pub fn tx_id(&self) -> (tx_id: u8)
        ensures
            tx_id == self@.tx_id(),
    {
        match self {
            Event::ButtonPress(e) => e.tx_id,
            Event::KnobRotate(e) => e.tx_id,
            Event::TouchEvent(e) => e.tx_id,
            Event::Other(e) => e.tx_id,
            Event::SerialIn(e) => e.tx_id,
            Event::VersionIn(e) => e.tx_id,
            Event::ConfirmFrameBufferIn(e) => e.tx_id,
            Event::DrawIn(e) => e.tx_id,
        }
    }
}

/// Reads the transaction id off an event. Every kind of event carries one.
pub fn get_tx_id(evt: Event) -> (tx_id: Option<u8>)
    ensures
        tx_id == Some(evt@.tx_id()),
{
    Some(evt.tx_id())
}

} // verus!
