//! The protocol's fixed vocabulary: message headers, button and knob codes,
//! screens, haptic levels and the key geometry.

use vstd::prelude::*;
use crate::bytes::{be16, u16_to_be_bytes};

verus! {

/// Side length of one key of the centre touch-screen, in pixels.
pub const KEY_SIZE: u16 = 90;

/// Horizontal pixel at which the centre screen's key grid begins.
pub const CENTER_ORIGIN_X: u16 = 60;

/// Last horizontal pixel of the left screen.
pub const LEFT_SCREEN_MAX_X: u16 = 60;

/// Last horizontal pixel of the centre screen.
pub const CENTER_SCREEN_MAX_X: u16 = 420;

/// Last horizontal pixel of the right screen, and of the whole touch surface.
pub const RIGHT_SCREEN_MAX_X: u16 = 480;

/// Kind of a message, carried on the wire as a big-endian `u16`.
#[derive(Debug, Clone, Copy, PartialEq, Eq, Structural)]
pub enum MessageHeader {
    Confirm,
    SerialOut,
    VersionOut,
    Tick,
    SetBrightness,
    ConfirmFrameBuffer,
    SetVibration,
    ButtonPress,
    KnobRotate,
    Reset,
    DrawOut,
    DrawIn,
    SetColor,
    TouchDown,
    TouchUp,
    VersionIn,
    MCU,
    SerialIn,
    WriteFrameBuffer,
}

impl MessageHeader {
    /// The on-wire value of a header.
    pub open spec fn spec_code(self) -> u16 {
        match self {
            MessageHeader::Confirm => 0x0302,
            MessageHeader::SerialOut => 0x0303,
            MessageHeader::VersionOut => 0x0307,
            MessageHeader::Tick => 0x0400,
            MessageHeader::SetBrightness => 0x0409,
            MessageHeader::ConfirmFrameBuffer => 0x0410,
            MessageHeader::SetVibration => 0x041b,
            MessageHeader::ButtonPress => 0x0500,
            MessageHeader::KnobRotate => 0x0501,
            MessageHeader::Reset => 0x0506,
            MessageHeader::DrawOut => 0x050f,
            MessageHeader::DrawIn => 0x040f,
            MessageHeader::SetColor => 0x0702,
            MessageHeader::TouchDown => 0x094d,
            MessageHeader::TouchUp => 0x096d,
            MessageHeader::VersionIn => 0x0c07,
            MessageHeader::MCU => 0x180d,
            MessageHeader::SerialIn => 0x1f03,
            MessageHeader::WriteFrameBuffer => 0xff10,
        }
    }

    /// The header that a wire value names, if it names one.
    pub open spec fn spec_from_u16(value: u16) -> Option<MessageHeader> {
        if value == 0x0302 {
            Some(MessageHeader::Confirm)
        } else if value == 0x0303 {
            Some(MessageHeader::SerialOut)
        } else if value == 0x0307 {
            Some(MessageHeader::VersionOut)
        } else if value == 0x0400 {
            Some(MessageHeader::Tick)
        } else if value == 0x0409 {
            Some(MessageHeader::SetBrightness)
        } else if value == 0x0410 {
            Some(MessageHeader::ConfirmFrameBuffer)
        } else if value == 0x041b {
            Some(MessageHeader::SetVibration)
        } else if value == 0x0500 {
            Some(MessageHeader::ButtonPress)
        } else if value == 0x0501 {
            Some(MessageHeader::KnobRotate)
        } else if value == 0x0506 {
            Some(MessageHeader::Reset)
        } else if value == 0x050f {
            Some(MessageHeader::DrawOut)
        } else if value == 0x040f {
            Some(MessageHeader::DrawIn)
        } else if value == 0x0702 {
            Some(MessageHeader::SetColor)
        } else if value == 0x094d {
            Some(MessageHeader::TouchDown)
        } else if value == 0x096d {
            Some(MessageHeader::TouchUp)
        } else if value == 0x0c07 {
            Some(MessageHeader::VersionIn)
        } else if value == 0x180d {
            Some(MessageHeader::MCU)
        } else if value == 0x1f03 {
            Some(MessageHeader::SerialIn)
        } else if value == 0xff10 {
            Some(MessageHeader::WriteFrameBuffer)
        } else {
            None
        }
    }

    /// On-wire value of this header.
    #[verifier::when_used_as_spec(spec_code)]
    pub fn code(self) -> (value: u16)
        ensures
            value == self.spec_code(),
    {
        match self {
            MessageHeader::Confirm => 0x0302,
            MessageHeader::SerialOut => 0x0303,
            MessageHeader::VersionOut => 0x0307,
            MessageHeader::Tick => 0x0400,
            MessageHeader::SetBrightness => 0x0409,
            MessageHeader::ConfirmFrameBuffer => 0x0410,
            MessageHeader::SetVibration => 0x041b,
            MessageHeader::ButtonPress => 0x0500,
            MessageHeader::KnobRotate => 0x0501,
            MessageHeader::Reset => 0x0506,
            MessageHeader::DrawOut => 0x050f,
            MessageHeader::DrawIn => 0x040f,
            MessageHeader::SetColor => 0x0702,
            MessageHeader::TouchDown => 0x094d,
            MessageHeader::TouchUp => 0x096d,
            MessageHeader::VersionIn => 0x0c07,
            MessageHeader::MCU => 0x180d,
            MessageHeader::SerialIn => 0x1f03,
            MessageHeader::WriteFrameBuffer => 0xff10,
        }
    }

    /// Looks a wire value up in the header table. Values outside the table
    /// name no header.
    pub fn from_u16(value: u16) -> (header: Option<MessageHeader>)
        ensures
            header == Self::spec_from_u16(value),
    {
        match value {
            0x0302 => Some(MessageHeader::Confirm),
            0x0303 => Some(MessageHeader::SerialOut),
            0x0307 => Some(MessageHeader::VersionOut),
            0x0400 => Some(MessageHeader::Tick),
            0x0409 => Some(MessageHeader::SetBrightness),
            0x0410 => Some(MessageHeader::ConfirmFrameBuffer),
            0x041b => Some(MessageHeader::SetVibration),
            0x0500 => Some(MessageHeader::ButtonPress),
            0x0501 => Some(MessageHeader::KnobRotate),
            0x0506 => Some(MessageHeader::Reset),
            0x050f => Some(MessageHeader::DrawOut),
            0x040f => Some(MessageHeader::DrawIn),
            0x0702 => Some(MessageHeader::SetColor),
            0x094d => Some(MessageHeader::TouchDown),
            0x096d => Some(MessageHeader::TouchUp),
            0x0c07 => Some(MessageHeader::VersionIn),
            0x180d => Some(MessageHeader::MCU),
            0x1f03 => Some(MessageHeader::SerialIn),
            0xff10 => Some(MessageHeader::WriteFrameBuffer),
            _ => None,
        }
    }

    /// The two header bytes as they go on the wire, high byte first.
    pub fn to_bytes(self) -> (bytes: Vec<u8>)
        ensures
            bytes@ == be16(self.spec_code()),
    {
        u16_to_be_bytes(self.code())
    }
}

/// Hardware buttons: the six knob presses, the home button and the seven
/// round buttons.
#[derive(Debug, Clone, Copy, PartialEq, Eq, Structural)]
pub enum Button {
    Knob0,
    Knob1,
    Knob2,
    Knob3,
    Knob4,
    Knob5,
    Home,
    Circle1,
    Circle2,
    Circle3,
    Circle4,
    Circle5,
    Circle6,
    Circle7,
}

impl Button {
    /// The on-wire code of a button.
    pub open spec fn spec_code(self) -> u8 {
        match self {
            Button::Knob0 => 0x01,
            Button::Knob1 => 0x02,
            Button::Knob2 => 0x03,
            Button::Knob3 => 0x04,
            Button::Knob4 => 0x05,
            Button::Knob5 => 0x06,
            Button::Home => 0x07,
            Button::Circle1 => 0x08,
            Button::Circle2 => 0x09,
            Button::Circle3 => 0x0a,
            Button::Circle4 => 0x0b,
            Button::Circle5 => 0x0c,
            Button::Circle6 => 0x0d,
            Button::Circle7 => 0x0e,
        }
    }

    /// The button that a wire code names, if it names one.
    pub open spec fn spec_from_u8(value: u8) -> Option<Button> {
        if value == 0x01 {
            Some(Button::Knob0)
        } else if value == 0x02 {
            Some(Button::Knob1)
        } else if value == 0x03 {
            Some(Button::Knob2)
        } else if value == 0x04 {
            Some(Button::Knob3)
        } else if value == 0x05 {
            Some(Button::Knob4)
        } else if value == 0x06 {
            Some(Button::Knob5)
        } else if value == 0x07 {
            Some(Button::Home)
        } else if value == 0x08 {
            Some(Button::Circle1)
        } else if value == 0x09 {
            Some(Button::Circle2)
        } else if value == 0x0a {
            Some(Button::Circle3)
        } else if value == 0x0b {
            Some(Button::Circle4)
        } else if value == 0x0c {
            Some(Button::Circle5)
        } else if value == 0x0d {
            Some(Button::Circle6)
        } else if value == 0x0e {
            Some(Button::Circle7)
        } else {
            None
        }
    }

    /// On-wire code of this button.
    #[verifier::when_used_as_spec(spec_code)]
    pub fn code(self) -> (value: u8)
        ensures
            value == self.spec_code(),
    {
        match self {
            Button::Knob0 => 0x01,
            Button::Knob1 => 0x02,
            Button::Knob2 => 0x03,
            Button::Knob3 => 0x04,
            Button::Knob4 => 0x05,
            Button::Knob5 => 0x06,
            Button::Home => 0x07,
            Button::Circle1 => 0x08,
            Button::Circle2 => 0x09,
            Button::Circle3 => 0x0a,
            Button::Circle4 => 0x0b,
            Button::Circle5 => 0x0c,
            Button::Circle6 => 0x0d,
            Button::Circle7 => 0x0e,
        }
    }

    /// Looks a wire code up among the buttons.
    pub fn from_u8(value: u8) -> (button: Option<Button>)
        ensures
            button == Self::spec_from_u8(value),
    {
        match value {
            0x01 => Some(Button::Knob0),
            0x02 => Some(Button::Knob1),
            0x03 => Some(Button::Knob2),
            0x04 => Some(Button::Knob3),
            0x05 => Some(Button::Knob4),
            0x06 => Some(Button::Knob5),
            0x07 => Some(Button::Home),
            0x08 => Some(Button::Circle1),
            0x09 => Some(Button::Circle2),
            0x0a => Some(Button::Circle3),
            0x0b => Some(Button::Circle4),
            0x0c => Some(Button::Circle5),
            0x0d => Some(Button::Circle6),
            0x0e => Some(Button::Circle7),
            _ => None,
        }
    }
}

/// The six rotary encoders.
#[derive(Debug, Clone, Copy, PartialEq, Eq, Structural)]
pub enum Knob {
    Knob0,
    Knob1,
    Knob2,
    Knob3,
    Knob4,
    Knob5,
}

impl Knob {
    /// The on-wire code of a knob.
    pub open spec fn spec_code(self) -> u8 {
        match self {
            Knob::Knob0 => 0x01,
            Knob::Knob1 => 0x02,
            Knob::Knob2 => 0x03,
            Knob::Knob3 => 0x04,
            Knob::Knob4 => 0x05,
            Knob::Knob5 => 0x06,
        }
    }

    /// The knob that a wire code names, if it names one.
    pub open spec fn spec_from_u8(value: u8) -> Option<Knob> {
        if value == 0x01 {
            Some(Knob::Knob0)
        } else if value == 0x02 {
            Some(Knob::Knob1)
        } else if value == 0x03 {
            Some(Knob::Knob2)
        } else if value == 0x04 {
            Some(Knob::Knob3)
        } else if value == 0x05 {
            Some(Knob::Knob4)
        } else if value == 0x06 {
            Some(Knob::Knob5)
        } else {
            None
        }
    }

    /// On-wire code of this knob.
    #[verifier::when_used_as_spec(spec_code)]
    pub fn code(self) -> (value: u8)
        ensures
            value == self.spec_code(),
    {
        match self {
            Knob::Knob0 => 0x01,
            Knob::Knob1 => 0x02,
            Knob::Knob2 => 0x03,
            Knob::Knob3 => 0x04,
            Knob::Knob4 => 0x05,
            Knob::Knob5 => 0x06,
        }
    }

    /// Looks a wire code up among the knobs.
    pub fn from_u8(value: u8) -> (knob: Option<Knob>)
        ensures
            knob == Self::spec_from_u8(value),
    {
        match value {
            0x01 => Some(Knob::Knob0),
            0x02 => Some(Knob::Knob1),
            0x03 => Some(Knob::Knob2),
            0x04 => Some(Knob::Knob3),
            0x05 => Some(Knob::Knob4),
            0x06 => Some(Knob::Knob5),
            _ => None,
        }
    }
}

/// Whether a button or a finger went down or came up.
#[derive(Debug, Clone, Copy, PartialEq, Eq, Structural)]
pub enum PressDirection {
    Up,
    Down,
}

impl PressDirection {
    /// The on-wire code of a direction: `0x00` is down, `0x01` is up.
    pub open spec fn spec_code(self) -> u8 {
        match self {
            PressDirection::Down => 0x00,
            PressDirection::Up => 0x01,
        }
    }

    /// The direction that a wire code names, if it names one.
    pub open spec fn spec_from_u8(value: u8) -> Option<PressDirection> {
        if value == 0x00 {
            Some(PressDirection::Down)
        } else if value == 0x01 {
            Some(PressDirection::Up)
        } else {
            None
        }
    }

    /// On-wire code of this direction.
    #[verifier::when_used_as_spec(spec_code)]
    pub fn code(self) -> (value: u8)
        ensures
            value == self.spec_code(),
    {
        match self {
            PressDirection::Down => 0x00,
            PressDirection::Up => 0x01,
        }
    }

    /// Looks a wire code up among the directions.
    pub fn from_u8(value: u8) -> (dir: Option<PressDirection>)
        ensures
            dir == Self::spec_from_u8(value),
    {
        match value {
            0x00 => Some(PressDirection::Down),
            0x01 => Some(PressDirection::Up),
            _ => None,
        }
    }
}

/// The three touch-screens, left to right.
#[derive(Debug, Clone, Copy, PartialEq, Eq, Structural)]
pub enum Screen {
    Left,
    Center,
    Right,
}

impl Screen {
    /// The on-wire code of a screen.
    pub open spec fn spec_code(self) -> u16 {
        match self {
            Screen::Left => 0x004C,
            Screen::Center => 0x0041,
            Screen::Right => 0x0052,
        }
    }

    /// The screen that a horizontal touch coordinate falls on, if any.
    pub open spec fn spec_from_x_coor(x: u16) -> Option<Screen> {
        if x <= LEFT_SCREEN_MAX_X {
            Some(Screen::Left)
        } else if x <= CENTER_SCREEN_MAX_X {
            Some(Screen::Center)
        } else if x <= RIGHT_SCREEN_MAX_X {
            Some(Screen::Right)
        } else {
            None
        }
    }

    /// On-wire code of this screen.
    #[verifier::when_used_as_spec(spec_code)]
    pub fn code(self) -> (value: u16)
        ensures
            value == self.spec_code(),
    {
        match self {
            Screen::Left => 0x004C,
            Screen::Center => 0x0041,
            Screen::Right => 0x0052,
        }
    }

    /// Selects the screen under a horizontal touch coordinate: `0..=60` is the
    /// left screen, `61..=420` the centre, `421..=480` the right. Anything
    /// further right is off the touch surface.
    pub fn from_x_coor(x: u16) -> (screen: Option<Screen>)
        ensures
            screen == Self::spec_from_x_coor(x),
    {
        if x <= LEFT_SCREEN_MAX_X {
            Some(Screen::Left)
        } else if x <= CENTER_SCREEN_MAX_X {
            Some(Screen::Center)
        } else if x <= RIGHT_SCREEN_MAX_X {
            Some(Screen::Right)
        } else {
            None
        }
    }

    /// The two bytes of the screen's code as they go on the wire, high byte
    /// first.
    pub fn to_bytes(self) -> (bytes: Vec<u8>)
        ensures
            bytes@ == be16(self.spec_code()),
    {
        u16_to_be_bytes(self.code())
    }
}

/// Vibration patterns of the device's haptic motor.
#[derive(Debug, Clone, Copy, PartialEq, Eq, Structural)]
pub enum Haptic {
    Short,
    Medium,
    Long,
    Low,
    ShortLow,
    ShortLower,
    Lower,
    Lowest,
    DescendSlow,
    DescendMed,
    DescendFast,
    AscendSlow,
    AscendMed,
    AscendFast,
    RevSlowest,
    RevSlow,
    RevMed,
    RevFast,
    RevFaster,
    RevFastest,
    RiseFall,
    Buzz,
    Rumble5,
    Rumble4,
    Rumble3,
    Rumble2,
    Rumble1,
    VeryLong,
}

impl Haptic {
    /// The on-wire level code of a vibration pattern.
    pub open spec fn spec_code(self) -> u8 {
        match self {
            Haptic::Short => 0x01,
            Haptic::Medium => 0x0a,
            Haptic::Long => 0x0f,
            Haptic::Low => 0x31,
            Haptic::ShortLow => 0x32,
            Haptic::ShortLower => 0x33,
            Haptic::Lower => 0x40,
            Haptic::Lowest => 0x41,
            Haptic::DescendSlow => 0x46,
            Haptic::DescendMed => 0x47,
            Haptic::DescendFast => 0x48,
            Haptic::AscendSlow => 0x52,
            Haptic::AscendMed => 0x53,
            Haptic::AscendFast => 0x58,
            Haptic::RevSlowest => 0x5e,
            Haptic::RevSlow => 0x5f,
            Haptic::RevMed => 0x60,
            Haptic::RevFast => 0x61,
            Haptic::RevFaster => 0x62,
            Haptic::RevFastest => 0x63,
            Haptic::RiseFall => 0x6a,
            Haptic::Buzz => 0x70,
            Haptic::Rumble5 => 0x77,
            Haptic::Rumble4 => 0x78,
            Haptic::Rumble3 => 0x79,
            Haptic::Rumble2 => 0x7a,
            Haptic::Rumble1 => 0x7b,
            Haptic::VeryLong => 0x76,
        }
    }

    /// On-wire level code of this pattern.
    #[verifier::when_used_as_spec(spec_code)]
    pub fn code(self) -> (value: u8)
        ensures
            value == self.spec_code(),
    {
        match self {
            Haptic::Short => 0x01,
            Haptic::Medium => 0x0a,
            Haptic::Long => 0x0f,
            Haptic::Low => 0x31,
            Haptic::ShortLow => 0x32,
            Haptic::ShortLower => 0x33,
            Haptic::Lower => 0x40,
            Haptic::Lowest => 0x41,
            Haptic::DescendSlow => 0x46,
            Haptic::DescendMed => 0x47,
            Haptic::DescendFast => 0x48,
            Haptic::AscendSlow => 0x52,
            Haptic::AscendMed => 0x53,
            Haptic::AscendFast => 0x58,
            Haptic::RevSlowest => 0x5e,
            Haptic::RevSlow => 0x5f,
            Haptic::RevMed => 0x60,
            Haptic::RevFast => 0x61,
            Haptic::RevFaster => 0x62,
            Haptic::RevFastest => 0x63,
            Haptic::RiseFall => 0x6a,
            Haptic::Buzz => 0x70,
            Haptic::Rumble5 => 0x77,
            Haptic::Rumble4 => 0x78,
            Haptic::Rumble3 => 0x79,
            Haptic::Rumble2 => 0x7a,
            Haptic::Rumble1 => 0x7b,
            Haptic::VeryLong => 0x76,
        }
    }
}

/// The header table is a bijection between the nineteen headers and their
/// wire values: looking a header's value up gives the header back, and a value
/// that names a header is that header's value.
pub proof fn lemma_header_codes_bijective(header: MessageHeader, value: u16)
    ensures
        MessageHeader::spec_from_u16(header.spec_code()) == Some(header),
        MessageHeader::spec_from_u16(value) == Some(header) <==> header.spec_code() == value,
{
}

/// Button codes and buttons correspond one to one, on `0x01..=0x0e`.
pub proof fn lemma_button_codes_bijective(button: Button, value: u8)
    ensures
        Button::spec_from_u8(button.spec_code()) == Some(button),
        Button::spec_from_u8(value) == Some(button) <==> button.spec_code() == value,
        Button::spec_from_u8(value) is Some <==> 0x01 <= value <= 0x0e,
{
}

/// Knob codes and knobs correspond one to one, on `0x01..=0x06`.
pub proof fn lemma_knob_codes_bijective(knob: Knob, value: u8)
    ensures
        Knob::spec_from_u8(knob.spec_code()) == Some(knob),
        Knob::spec_from_u8(value) == Some(knob) <==> knob.spec_code() == value,
        Knob::spec_from_u8(value) is Some <==> 0x01 <= value <= 0x06,
{
}

/// Direction codes and directions correspond one to one, on `0x00..=0x01`.
pub proof fn lemma_direction_codes_bijective(dir: PressDirection, value: u8)
    ensures
        PressDirection::spec_from_u8(dir.spec_code()) == Some(dir),
        PressDirection::spec_from_u8(value) == Some(dir) <==> dir.spec_code() == value,
{
}

} // verus!
