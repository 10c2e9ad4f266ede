//! Host-side core of a Loupedeck control surface: the wire codec, the pixel
//! codec, the transport's bookkeeping, the plugin registry and the page
//! controller, each with a machine-checked contract.
//!
//! Nothing here touches a serial port, a channel or a shared library. Every
//! operation takes plain values and hands plain values back: the bytes to
//! write, the events to publish, the instance to call. The program around the
//! library does the reading, the writing and the waiting.

pub mod bytes;
pub mod codec;
pub mod constants;
pub mod controller;
pub mod event;
pub mod keyed;
pub mod layout;
pub mod pixel;
pub mod plugin;
pub mod reader;
pub mod transport;

pub use crate::codec::{
    construct_draw_buffer_payload, construct_message_payload, encode_message, format_version,
    parse_serial_message, to_hex, Message, ProtocolError,
};
pub use crate::constants::{
    Button, Haptic, Knob, MessageHeader, PressDirection, Screen, KEY_SIZE,
};
pub use crate::controller::{
    Controller, ControllerConfig, ControllerState, DeviceConnectionStatus, Page, PageConfig,
    Reaction, ScreenPluginProxy,
};
pub use crate::event::{
    get_tx_id, ButtonPressEvent, ConfirmFrameBufferInEvent, DrawInEvent, Event, FallbackEvent,
    KnobRotateEvent, SerialInEvent, TouchEvent, VersionInEvent,
};
pub use crate::keyed::{Key, KeyedList};
pub use crate::pixel::{
    convert_argb888_to_rgb565, convert_draw_target_to_rgb565, convert_pixels_to_rgb565,
};
pub use crate::plugin::{
    KeyLocation, LDPluginRequirement, LocalLoadedPlugin, PluginDeclaration, PluginError,
    PluginIdentifier, PluginRegistrar, PluginRegistry, PluginScreenContext, PluginType,
    ScreenPlugin, ScreenPluginOptions, TempPluginRegistrar, CORE_VERSION,
};
pub use crate::reader::FrameReader;
pub use crate::transport::{
    contains_subslice, get_loupedeck_ports, upgrade_accepted, Delivery,
    Device, DeviceInfo, ExternalMessage, LinkState, Outbound, SerialPortInfo, TransportError,
    LOUPEDECK_VENDOR_ID, WS_UPGRADE_HEADER,
};
