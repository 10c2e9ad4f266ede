//! The plugin side of the host: key locations, the context handed to a
//! plugin instance, what a plugin declares, and the registry of loaded
//! plugins.

use vstd::prelude::*;
use crate::bytes::be16;
use crate::codec::{construct_draw_buffer_payload, draw_buffer_payload, ProtocolError};
use crate::constants::{Haptic, MessageHeader, Screen, CENTER_ORIGIN_X, KEY_SIZE};
use crate::event::TouchEvent;
use crate::keyed::{Key, KeyedList};
use crate::pixel::{convert_draw_target_to_rgb565, draw_target_pixels, rgb565_bytes};
use crate::transport::ExternalMessage;

verus! {

/// Version of this host. A plugin built against another version is not
/// loaded.
pub const CORE_VERSION: &'static str = "0.1.0";

/// One key of the centre screen's grid: column `x`, row `y`.
#[derive(Debug, Clone, Copy, PartialEq, Eq, Hash, Structural)]
pub struct KeyLocation {
    pub x: u8,
    pub y: u8,
}

impl View for KeyLocation {
    type V = KeyLocation;

    open spec fn view(&self) -> KeyLocation {
        *self
    }
}

impl Key for KeyLocation {
    fn same(&self, other: &Self) -> (same: bool) {
        self.x == other.x && self.y == other.y
    }

    fn duplicate(&self) -> (copy: Self) {
        *self
    }
}

impl KeyLocation {
    /// Whether the pixel (`x`, `y`) lies on the key grid: not left of the
    /// grid's origin, and in a column and a row that a key location can name.
    pub open spec fn covers(x: u16, y: u16) -> bool {
        &&& x >= CENTER_ORIGIN_X
        &&& (x - CENTER_ORIGIN_X) / (KEY_SIZE as int) <= u8::MAX
        &&& y / KEY_SIZE <= u8::MAX
    }

    /// The key under the pixel (`x`, `y`): keys are 90 pixels square, and the
    /// first column begins at pixel 60.
    pub open spec fn spec_from_location(x: u16, y: u16) -> KeyLocation {
        KeyLocation {
            x: ((x - CENTER_ORIGIN_X) / (KEY_SIZE as int)) as u8,
            y: (y / KEY_SIZE) as u8,
        }
    }

    /// The pixel at which a key's region begins.
    pub open spec fn spec_origin(self) -> (u16, u16) {
        ((KEY_SIZE * self.x) as u16, (KEY_SIZE * self.y) as u16)
    }

    /// The key in column `x` and row `y`.
    pub fn new(x: u8, y: u8) -> (key: KeyLocation)
        ensures
            key == (KeyLocation { x, y }),
    {
        KeyLocation { x, y }
    }

    /// The key under a touch at pixel (`x`, `y`), which must lie on the grid.
    pub fn from_location(x: u16, y: u16) -> (key: KeyLocation)
        requires
            Self::covers(x, y),
        ensures
            key == Self::spec_from_location(x, y),
    {
        KeyLocation { x: ((x - CENTER_ORIGIN_X) / KEY_SIZE) as u8, y: (y / KEY_SIZE) as u8 }
    }

    /// The key under a touch at pixel (`x`, `y`), if the pixel lies on the
    /// grid.
    pub fn locate(x: u16, y: u16) -> (key: Option<KeyLocation>)
        ensures
            key == if Self::covers(x, y) {
                Some(Self::spec_from_location(x, y))
            } else {
                None
            },
    {
        if x >= CENTER_ORIGIN_X && (x - CENTER_ORIGIN_X) / KEY_SIZE <= 0xFF && y / KEY_SIZE <= 0xFF {
            Some(Self::from_location(x, y))
        } else {
            None
        }
    }

    /// The pixel at which the key's region begins: 90 times its column, 90
    /// times its row.
    pub fn origin(self) -> (at: (u16, u16))
        ensures
            at == self.spec_origin(),
    {
        (KEY_SIZE * (self.x as u16), KEY_SIZE * (self.y as u16))
    }
}

/// A touch on the centre screen falls on a key of the grid: for x from 61 to
/// 420 and y up to 269 the row is 0, 1 or 2 and the column is at most 4. Up
/// to x = 419 the column is at most 3; the last pixel column of the centre
/// screen, x = 420, already belongs to column 4.
pub proof fn lemma_center_touch_key(x: u16, y: u16)
    requires
        61 <= x <= 420,
        y <= 269,
    ensures
        KeyLocation::covers(x, y),
        Screen::spec_from_x_coor(x) == Some(Screen::Center),
        KeyLocation::spec_from_location(x, y).y <= 2,
        KeyLocation::spec_from_location(x, y).x <= 4,
        x <= 419 ==> KeyLocation::spec_from_location(x, y).x <= 3,
        x == 420 ==> KeyLocation::spec_from_location(x, y).x == 4,
{
}

/// A key's region begins where the touches that fall on the key begin: the
/// pixel at 60 plus the region's x, and at the region's y, is on the key.
pub proof fn lemma_key_origin_on_key(key: KeyLocation)
    ensures
        KeyLocation::covers((CENTER_ORIGIN_X + key.spec_origin().0) as u16, key.spec_origin().1),
        KeyLocation::spec_from_location(
            (CENTER_ORIGIN_X + key.spec_origin().0) as u16,
            key.spec_origin().1,
        ) == key,
{
}

/// Why a plugin was not loaded, or why it failed.
#[derive(Debug, Clone, Copy, PartialEq, Eq, Structural)]
pub enum PluginError {
    /// The library could not be opened.
    LibraryOpen,
    /// The library exports no plugin declaration.
    MissingDeclaration,
    /// The plugin was built against another version of the host.
    VersionMismatch,
    /// The plugin's registration failed.
    Registration,
    /// A plugin instance failed to handle an event.
    Handler,
}

/// What a plugin asks of the place it is bound to.
#[derive(Debug, Clone, Copy, PartialEq, Eq, Structural)]
pub struct LDPluginRequirement {
    pub exclusive: bool,
}

/// The kinds of control that a plugin can be bound to.
#[derive(Debug, Clone, Copy, PartialEq, Eq, Structural)]
pub enum PluginType {
    Screen,
    Button,
    Knob,
}

/// Options of a screen plugin. `exclusive` is carried along; dispatch does
/// not look at it.
#[derive(Debug, Clone, Copy, PartialEq, Eq, Structural)]
pub struct ScreenPluginOptions {
    pub exclusive: bool,
}

/// What every plugin library declares of itself: the versions it was built
/// against, and its id.
#[derive(Debug, PartialEq, Eq)]
pub struct PluginDeclaration {
    pub rustc_version: String,
    pub core_version: String,
    pub plugin_id: String,
}

/// Names one screen factory: the plugin that registered it, and the name it
/// was registered under.
#[derive(Debug, PartialEq, Eq)]
pub struct PluginIdentifier {
    pub plugin_id: String,
    pub plugin_ref: String,
}

impl Clone for PluginIdentifier {
    fn clone(&self) -> (copy: Self)
        ensures
            copy == *self,
    {
        PluginIdentifier { plugin_id: self.plugin_id.clone(), plugin_ref: self.plugin_ref.clone() }
    }
}

/// A live plugin instance on one key of a screen.
pub trait ScreenPlugin {
    /// Called for every touch that falls on the instance's key.
    fn on_touch(&self, position: TouchEvent) -> Result<(), PluginError>;
}

/// The handle that a plugin instance gets when it is made: the screen and the
/// key it stands on, and the emitter through which its messages reach the
/// device.
#[derive(Debug, Clone)]
pub struct PluginScreenContext<E> {
    pub device_event_emitter: E,
    pub position: Screen,
    pub key_id: KeyLocation,
}

/// The two messages that draw a key: the write of its region of the frame
/// buffer, and the refresh of its screen.
pub open spec fn key_draw_messages(
    position: Screen,
    key_id: KeyLocation,
    data: Seq<u8>,
    write: ExternalMessage,
    refresh: ExternalMessage,
) -> bool {
    &&& write.action == MessageHeader::WriteFrameBuffer
    &&& write.data@ == draw_buffer_payload(
        position,
        key_id.spec_origin().0,
        key_id.spec_origin().1,
        KEY_SIZE,
        KEY_SIZE,
        data,
    )
    &&& refresh.action == MessageHeader::DrawOut
    &&& refresh.data@ == be16(position.spec_code())
}

impl<E> PluginScreenContext<E> {
    /// The context of the instance on key `key_id` of screen `position`.
    pub fn new(device_event_emitter: E, position: Screen, key_id: KeyLocation) -> (ctx: Self)
        ensures
            ctx == (PluginScreenContext { device_event_emitter, position, key_id }),
    {
        PluginScreenContext { device_event_emitter, position, key_id }
    }

    /// Draws RGB565 pixels on the instance's key: a region of 90 by 90 pixels
    /// that begins at 90 times the key's column and row. Gives the messages to
    /// emit, the write first; a buffer of any other length than two bytes for
    /// each pixel is refused.
    pub fn draw_rgb565(&self, data: &[u8]) -> (res: Result<
        (ExternalMessage, ExternalMessage),
        ProtocolError,
    >)
        ensures
            match res {
                Ok((write, refresh)) => {
                    &&& data@.len() == 2 * KEY_SIZE * KEY_SIZE
                    &&& key_draw_messages(self.position, self.key_id, data@, write, refresh)
                },
                Err(error) => {
                    &&& data@.len() != 2 * KEY_SIZE * KEY_SIZE
                    &&& error == ProtocolError::InvalidBufferLength
                },
            },
    {
        let (x, y) = self.key_id.origin();
        let payload: Vec<u8> = match construct_draw_buffer_payload(
            self.position,
            x,
            y,
            KEY_SIZE,
            KEY_SIZE,
            data,
        ) {
            Ok(payload) => payload,
            Err(error) => {
                return Err(error);
            },
        };
        let write = ExternalMessage::new(MessageHeader::WriteFrameBuffer, payload);
        let refresh = ExternalMessage::new(MessageHeader::DrawOut, self.position.to_bytes());
        Ok((write, refresh))
    }

    /// Draws a surface on the instance's key: the surface is converted to
    /// RGB565 and drawn as `draw_rgb565` draws.
    pub fn draw_target(&self, target: raqote::DrawTarget) -> (res: Result<
        (ExternalMessage, ExternalMessage),
        ProtocolError,
    >)
        ensures
            match res {
                Ok((write, refresh)) => {
                    &&& draw_target_pixels(target).len() == KEY_SIZE * KEY_SIZE
                    &&& key_draw_messages(
                        self.position,
                        self.key_id,
                        rgb565_bytes(draw_target_pixels(target)),
                        write,
                        refresh,
                    )
                },
                Err(error) => {
                    &&& draw_target_pixels(target).len() != KEY_SIZE * KEY_SIZE
                    &&& error == ProtocolError::InvalidBufferLength
                },
            },
    {
        let data: Vec<u8> = convert_draw_target_to_rgb565(target);
        self.draw_rgb565(data.as_slice())
    }

    /// Makes the device vibrate. Gives the message to emit.
    pub fn vibrate(&self, level: Haptic) -> (message: ExternalMessage)
        ensures
            message.action == MessageHeader::SetVibration,
            message.data@ == seq![level.spec_code()],
    {
        ExternalMessage::vibrate(level)
    }
}

/// What the host keeps of a loaded plugin: the handle of its library, its id
/// and the screen factories that it registered, by name. The handle is kept
/// for as long as the record is, so that the factories stay valid.
pub struct LocalLoadedPlugin<L, F> {
    pub lib: L,
    pub plugin_id: String,
    pub screens: KeyedList<String, F>,
}

/// What a plugin sees of the host while it registers.
pub trait PluginRegistrar<F> {
    /// Whether the registrar is in a state to register.
    spec fn ready(&self) -> bool;

    /// The factories registered so far, by name.
    spec fn registered(&self) -> Map<Seq<char>, F>;

    /// Registers a screen factory under a name. A factory registered earlier
    /// under the same name is replaced.
    fn register_screen(&mut self, name: &str, options: ScreenPluginOptions, create: F) -> (res:
        Result<(), PluginError>)
        requires
            old(self).ready(),
        ensures
            res is Ok,
            final(self).ready(),
            final(self).registered() == old(self).registered().insert(name@, create),
    ;
}

/// The registrar that a plugin registers with while it is loaded. It holds
/// the library's handle until the registration is turned into a record.
pub struct TempPluginRegistrar<L, F> {
    pub screens: KeyedList<String, F>,
    pub lib: L,
}

impl<L, F> TempPluginRegistrar<L, F> {
    /// A registrar for the library behind `lib`, with nothing registered.
    pub fn new(lib: L) -> (registrar: Self)
        ensures
            registrar.lib == lib,
            registrar.screens.wf(),
            registrar.screens.ids() == Seq::<Seq<char>>::empty(),
            registrar.screens@ == Map::<Seq<char>, F>::empty(),
    {
        TempPluginRegistrar { screens: KeyedList::new(), lib }
    }

    /// Turns the registration into the record of a loaded plugin.
    pub fn to_local_plugin(self, plugin_id: String) -> (plugin: LocalLoadedPlugin<L, F>)
        ensures
            plugin == (LocalLoadedPlugin { lib: self.lib, plugin_id, screens: self.screens }),
    {
        LocalLoadedPlugin { lib: self.lib, plugin_id, screens: self.screens }
    }
}

impl<L, F> PluginRegistrar<F> for TempPluginRegistrar<L, F> {
    open spec fn ready(&self) -> bool {
        self.screens.wf()
    }

    open spec fn registered(&self) -> Map<Seq<char>, F> {
        self.screens@
    }

    fn register_screen(&mut self, name: &str, options: ScreenPluginOptions, create: F) -> (res:
        Result<(), PluginError>)
        ensures
            final(self).lib == old(self).lib,
            final(self).screens.ids() == KeyedList::<String, F>::ids_with(
                old(self).screens.ids(),
                name@,
            ),
    {
        self.screens.insert(name.to_owned(), create);
        Ok(())
    }
}

/// The plugins that the host has loaded, by id, and the versions that a
/// plugin must have been built against to be let in.
pub struct PluginRegistry<L, F> {
    pub plugins: KeyedList<String, LocalLoadedPlugin<L, F>>,
    pub rustc_version: String,
    pub core_version: String,
}

impl<L, F> PluginRegistry<L, F> {
    /// The table of plugins is in order, and so is each plugin's table of
    /// factories.
    pub open spec fn wf(&self) -> bool {
        &&& self.plugins.wf()
        &&& forall|i: int|
            0 <= i < self.plugins.vals().len() ==> (#[trigger] self.plugins.vals()[i]).screens.wf()
    }

    /// Whether a plugin with this declaration is let in: both of its version
    /// strings equal the host's.
    pub open spec fn admits(&self, decl: PluginDeclaration) -> bool {
        &&& decl.rustc_version@ == self.rustc_version@
        &&& decl.core_version@ == self.core_version@
    }

    /// The factory that an identifier names, if the plugin is loaded and has
    /// registered that name.
    pub open spec fn resolve(&self, id: PluginIdentifier) -> Option<F> {
        if self.plugins@.contains_key(id.plugin_id@)
            && self.plugins@[id.plugin_id@].screens@.contains_key(id.plugin_ref@) {
            Some(self.plugins@[id.plugin_id@].screens@[id.plugin_ref@])
        } else {
            None
        }
    }

    /// An empty registry of a host of the given versions.
    pub fn new(rustc_version: String, core_version: String) -> (registry: Self)
        ensures
            registry.wf(),
            registry.rustc_version == rustc_version,
            registry.core_version == core_version,
            registry.plugins.ids() == Seq::<Seq<char>>::empty(),
            registry.plugins@ == Map::<Seq<char>, LocalLoadedPlugin<L, F>>::empty(),
    {
        PluginRegistry { plugins: KeyedList::new(), rustc_version, core_version }
    }

    /// Checks a declaration against the host's versions.
    pub fn check_versions(&self, decl: &PluginDeclaration) -> (res: Result<(), PluginError>)
        ensures
            res is Ok <==> self.admits(*decl),
            res matches Err(error) ==> error == PluginError::VersionMismatch,
    {
        if decl.rustc_version == self.rustc_version && decl.core_version == self.core_version {
            Ok(())
        } else {
            Err(PluginError::VersionMismatch)
        }
    }

    /// Looks a factory up by the plugin's id and the name it was registered
    /// under.
    pub fn lookup(&self, id: &PluginIdentifier) -> (factory: Option<&F>)
        requires
            self.wf(),
        ensures
            match factory {
                Some(f) => self.resolve(*id) == Some(*f),
                None => self.resolve(*id) is None,
            },
    {
        match self.plugins.find(&id.plugin_id) {
            None => None,
            Some(index) => {
                proof {
                    self.plugins.lemma_entry(index as int);
                }
                self.plugins.value_at(index).screens.get(&id.plugin_ref)
            },
        }
    }

    /// Loads a plugin whose library is open and whose declaration was read.
    /// A declaration of other versions than the host's is refused before any
    /// of the plugin's code runs, and the registry stays as it is. Else the
    /// plugin registers its factories with a fresh registrar, and the record
    /// made of them goes into the registry under the plugin's id, in the place
    /// of an earlier record of that id.
    pub fn load<R>(&mut self, lib: L, decl: &PluginDeclaration, register: R) -> (res: Result<
        (),
        PluginError,
    >) where R: FnOnce(TempPluginRegistrar<L, F>) -> TempPluginRegistrar<L, F>
        requires
            old(self).wf(),
            forall|registrar: TempPluginRegistrar<L, F>|
                registrar.screens.wf() ==> call_requires(register, (registrar,)),
            forall|registrar: TempPluginRegistrar<L, F>, done: TempPluginRegistrar<L, F>|
                registrar.screens.wf() && call_ensures(register, (registrar,), done)
                    ==> done.screens.wf(),
        ensures
            final(self).wf(),
            final(self).rustc_version == old(self).rustc_version,
            final(self).core_version == old(self).core_version,
            match res {
                Ok(()) => {
                    &&& old(self).admits(*decl)
                    &&& final(self).plugins.ids() == KeyedList::<
                        String,
                        LocalLoadedPlugin<L, F>,
                    >::ids_with(old(self).plugins.ids(), decl.plugin_id@)
                    &&& exists|fresh: TempPluginRegistrar<L, F>, done: TempPluginRegistrar<L, F>|
                        {
                            &&& fresh.lib == lib
                            &&& fresh.screens.ids() == Seq::<Seq<char>>::empty()
                            &&& #[trigger] call_ensures(register, (fresh,), done)
                            &&& final(self).plugins@ == old(self).plugins@.insert(
                                decl.plugin_id@,
                                LocalLoadedPlugin {
                                    lib: done.lib,
                                    plugin_id: decl.plugin_id,
                                    screens: done.screens,
                                },
                            )
                        }
                },
                Err(error) => {
                    &&& error == PluginError::VersionMismatch
                    &&& !old(self).admits(*decl)
                    &&& *final(self) == *old(self)
                },
            },
    {
        match self.check_versions(decl) {
            Err(error) => {
                return Err(error);
            },
            Ok(()) => {},
        }
        let fresh: TempPluginRegistrar<L, F> = TempPluginRegistrar::new(lib);
        let done: TempPluginRegistrar<L, F> = register(fresh);
        let plugin: LocalLoadedPlugin<L, F> = done.to_local_plugin(decl.plugin_id.clone());
        self.plugins.insert(decl.plugin_id.clone(), plugin);
        Ok(())
    }
}

} // verus!
