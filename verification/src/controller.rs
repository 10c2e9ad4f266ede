//! The page controller: the configuration of named pages, the making of a
//! page's plugin instances, and the dispatcher that routes device events to
//! the instances of the active page.

use vstd::pervasive::cloned;
use vstd::prelude::*;
use crate::constants::{Haptic, PressDirection, Screen, CENTER_ORIGIN_X, KEY_SIZE};
use crate::event::{Event, EventView, TouchEvent};
use crate::keyed::{Key, KeyedList};
use crate::plugin::{
    KeyLocation, LocalLoadedPlugin, PluginDeclaration, PluginError, PluginIdentifier,
    PluginRegistry, PluginScreenContext, ScreenPlugin, TempPluginRegistrar,
};

verus! {

/// The haptic answer to every button that goes down.
pub const BUTTON_FEEDBACK: Haptic = Haptic::ShortLow;

/// The configuration of one page: its name, and the screen factory bound to
/// each key.
#[derive(Debug)]
pub struct PageConfig {
    pub name: String,
    pub screen: KeyedList<KeyLocation, PluginIdentifier>,
}

impl PageConfig {
    /// The table of keys is in order.
    pub open spec fn wf(&self) -> bool {
        self.screen.wf()
    }

    /// Whether two configurations say the same: the same name, and the same
    /// bindings in the same order.
    pub open spec fn same_as(&self, other: PageConfig) -> bool {
        &&& self.name@ == other.name@
        &&& self.screen.ids() == other.screen.ids()
        &&& self.screen.vals() == other.screen.vals()
    }

    /// A page of the given name, with no key bound.
    pub fn new(name: String) -> (page: PageConfig)
        ensures
            page.wf(),
            page.name == name,
            page.screen.ids() == Seq::<KeyLocation>::empty(),
            page.screen.vals() == Seq::<PluginIdentifier>::empty(),
    {
        PageConfig { name, screen: KeyedList::new() }
    }

    /// Binds a key to a screen factory. A key that was bound already is bound
    /// anew.
    pub fn bind(&mut self, key: KeyLocation, plugin: PluginIdentifier)
        requires
            old(self).wf(),
        ensures
            final(self).wf(),
            final(self).name == old(self).name,
            final(self).screen@ == old(self).screen@.insert(key, plugin),
            final(self).screen.ids() == KeyedList::<KeyLocation, PluginIdentifier>::ids_with(
                old(self).screen.ids(),
                key,
            ),
    {
        self.screen.insert(key, plugin);
    }
}

impl Clone for PageConfig {
    fn clone(&self) -> (copy: Self)
        ensures
            copy.name == self.name,
            copy.same_as(*self),
            self.wf() ==> copy.wf(),
    {
        let copy = PageConfig { name: self.name.clone(), screen: self.screen.clone() };
        assert(copy.screen.vals() =~= self.screen.vals());
        copy
    }
}

/// The configuration of the controller: its pages, by name.
#[derive(Debug)]
pub struct ControllerConfig {
    pub pages: KeyedList<String, PageConfig>,
}

impl ControllerConfig {
    /// The table of pages is in order, and so is each page.
    pub open spec fn wf(&self) -> bool {
        &&& self.pages.wf()
        &&& forall|i: int| 0 <= i < self.pages.vals().len() ==> (#[trigger] self.pages.vals()[i]).wf()
    }
}

/// Whether the controller has a device.
#[derive(Debug, Clone, Copy, PartialEq, Eq, Structural)]
pub enum DeviceConnectionStatus {
    Connecting,
    Connected,
    Disconnected,
}

/// A live plugin instance, as a page holds it.
pub struct ScreenPluginProxy<P> {
    pub plugin: P,
}

/// A page in use: its name, and the live plugin instance on each key.
pub struct Page<P> {
    pub name: String,
    pub screen: KeyedList<KeyLocation, ScreenPluginProxy<P>>,
}

impl<P> Page<P> {
    /// The table of instances is in order.
    pub open spec fn wf(&self) -> bool {
        self.screen.wf()
    }

    /// A page of the given name, with no instance.
    pub fn new(name: String) -> (page: Page<P>)
        ensures
            page.wf(),
            page.name == name,
            page.screen.ids() == Seq::<KeyLocation>::empty(),
            page.screen.vals() == Seq::<ScreenPluginProxy<P>>::empty(),
    {
        Page { name, screen: KeyedList::new() }
    }
}

/// What the dispatcher does about an event.
#[derive(Debug, Clone, Copy, PartialEq, Eq, Structural)]
pub enum Reaction {
    /// Nothing: the event matches nothing.
    Ignore,
    /// The device is made to vibrate.
    Vibrate(Haptic),
    /// The touch is handed to the instance on this key of the active page.
    Touch(KeyLocation),
}

/// The dispatcher's rule. A button that goes down is answered with a short
/// vibration. A touch is handed to the instance of the active page on the key
/// under the touch, if there is an active page, the touch lies on the key grid
/// and the key has an instance. Everything else is ignored.
pub open spec fn reaction<P>(page: Option<Page<P>>, event: EventView) -> Reaction {
    match event {
        EventView::ButtonPress(press) => if press.dir == PressDirection::Down {
            Reaction::Vibrate(BUTTON_FEEDBACK)
        } else {
            Reaction::Ignore
        },
        EventView::TouchEvent(touch) => match page {
            Some(active) => if KeyLocation::covers(touch.x, touch.y) && active.screen@.contains_key(
                KeyLocation::spec_from_location(touch.x, touch.y),
            ) {
                Reaction::Touch(KeyLocation::spec_from_location(touch.x, touch.y))
            } else {
                Reaction::Ignore
            },
            None => Reaction::Ignore,
        },
        _ => Reaction::Ignore,
    }
}

/// Every touch inside a key's square reaches the key's instance: with an
/// instance on key `key` of the active page, a touch whose x lies in the 90
/// pixels from 60 plus 90 times the key's column on, and whose y lies in the
/// 90 pixels from 90 times the key's row on, is handed to that key.
pub proof fn lemma_touch_on_key<P>(page: Page<P>, key: KeyLocation, touch: TouchEvent)
    requires
        page.screen@.contains_key(key),
        CENTER_ORIGIN_X + KEY_SIZE * key.x <= touch.x < CENTER_ORIGIN_X + KEY_SIZE * key.x + KEY_SIZE,
        KEY_SIZE * key.y <= touch.y < KEY_SIZE * key.y + KEY_SIZE,
    ensures
        reaction(Some(page), EventView::TouchEvent(touch)) == Reaction::Touch(key),
{
}

/// The dispatcher's state: the active page, if there is one. At most one
/// page is active at any time.
pub struct ControllerState<P> {
    pub current_page: Option<Page<P>>,
}

impl<P> ControllerState<P> {
    /// The active page, if any, is in order.
    pub open spec fn wf(&self) -> bool {
        self.current_page matches Some(page) ==> page.wf()
    }

    /// A dispatcher without an active page.
    pub fn new() -> (state: ControllerState<P>)
        ensures
            state.wf(),
            state.current_page is None,
    {
        ControllerState { current_page: None }
    }

    /// Makes `page` the active page. The page that was active before is
    /// handed back: it receives no event from now on, and dropping it destroys
    /// its instances.
    pub fn swap_page(&mut self, page: Page<P>) -> (previous: Option<Page<P>>)
        requires
            old(self).wf(),
            page.wf(),
        ensures
            final(self).wf(),
            final(self).current_page == Some(page),
            previous == old(self).current_page,
    {
        let mut slot: Option<Page<P>> = Some(page);
        core::mem::swap(&mut self.current_page, &mut slot);
        slot
    }

    /// Decides what to do about an event.
    pub fn react(&self, event: &Event) -> (decision: Reaction)
        requires
            self.wf(),
        ensures
            decision == reaction(self.current_page, event@),
    {
        match event {
            Event::ButtonPress(press) => {
                if press.dir == PressDirection::Down {
                    Reaction::Vibrate(BUTTON_FEEDBACK)
                } else {
                    Reaction::Ignore
                }
            },
            Event::TouchEvent(touch) => {
                match &self.current_page {
                    None => Reaction::Ignore,
                    Some(page) => match KeyLocation::locate(touch.x, touch.y) {
                        None => Reaction::Ignore,
                        Some(key) => match page.screen.find(&key) {
                            None => Reaction::Ignore,
                            Some(index) => {
                                proof {
                                    page.screen.lemma_entry(index as int);
                                }
                                Reaction::Touch(key)
                            },
                        },
                    },
                }
            },
            _ => Reaction::Ignore,
        }
    }

    /// Handles one event. A touch that falls on an instance of the active
    /// page is handed to that instance, once; whatever the instance answers,
    /// the dispatcher goes on. What comes back is the vibration that the
    /// caller is to send to the device, if the event asks for one.
    pub fn dispatch(&self, event: &Event) -> (feedback: Option<Haptic>) where P: ScreenPlugin
        requires
            self.wf(),
        ensures
            feedback == match reaction(self.current_page, event@) {
                Reaction::Vibrate(level) => Some(level),
                _ => None,
            },
    {
        match self.react(event) {
            Reaction::Ignore => None,
            Reaction::Vibrate(level) => Some(level),
            Reaction::Touch(key) => {
                match (&self.current_page, event) {
                    (Some(page), Event::TouchEvent(touch)) => {
                        match page.screen.get(&key) {
                            Some(instance) => {
                                let _ = instance.plugin.on_touch(*touch);
                            },
                            None => {},
                        }
                    },
                    _ => {},
                }
                None
            },
        }
    }
}

/// The instances that a page configuration gives: for each binding, in the
/// configuration's order, whose plugin is loaded and has registered the name,
/// the key and the factory. Bindings that name nothing are left out.
pub open spec fn planned<L, F>(
    registry: PluginRegistry<L, F>,
    keys: Seq<KeyLocation>,
    bindings: Seq<PluginIdentifier>,
) -> Seq<(KeyLocation, F)>
    decreases keys.len(),
{
    if keys.len() == 0 || bindings.len() != keys.len() {
        Seq::<(KeyLocation, F)>::empty()
    } else {
        let before = planned(registry, keys.drop_last(), bindings.drop_last());
        match registry.resolve(bindings.last()) {
            Some(factory) => before.push((keys.last(), factory)),
            None => before,
        }
    }
}

/// Whether `instance` is what `factory` made for the key `key` of the centre
/// screen, from a context that holds a clone of `emitter`.
pub open spec fn instantiated<E: Clone, F, P>(
    emitter: E,
    factory: F,
    key: KeyLocation,
    instance: P,
) -> bool where F: Fn(PluginScreenContext<E>) -> P {
    exists|ctx: PluginScreenContext<E>|
        {
            &&& ctx.position == Screen::Center
            &&& ctx.key_id == key
            &&& cloned::<E>(emitter, ctx.device_event_emitter)
            &&& #[trigger] call_ensures(factory, (ctx,), instance)
        }
}

/// Whether a factory can be called with a context.
pub open spec fn callable<E, F, P>(factory: F, ctx: PluginScreenContext<E>) -> bool where
    F: Fn(PluginScreenContext<E>) -> P,
 {
    call_requires(factory, (ctx,))
}

/// The identifiers of one plugin's factories, in the order of registration.
pub open spec fn plugin_identifiers(plugin_id: Seq<char>, names: Seq<Seq<char>>) -> Seq<
    (Seq<char>, Seq<char>),
> {
    names.map_values(|name: Seq<char>| (plugin_id, name))
}

/// The identifiers of all factories of all plugins: plugin after plugin in the
/// order of loading, and within a plugin in the order of registration.
pub open spec fn all_identifiers<L, F>(
    plugin_ids: Seq<Seq<char>>,
    plugins: Seq<LocalLoadedPlugin<L, F>>,
) -> Seq<(Seq<char>, Seq<char>)>
    decreases plugin_ids.len(),
{
    if plugin_ids.len() == 0 || plugins.len() != plugin_ids.len() {
        Seq::<(Seq<char>, Seq<char>)>::empty()
    } else {
        all_identifiers(plugin_ids.drop_last(), plugins.drop_last()) + plugin_identifiers(
            plugin_ids.last(),
            plugins.last().screens.ids(),
        )
    }
}

/// A list of identifiers as pairs of plugin id and factory name.
pub open spec fn identifier_views(identifiers: Seq<PluginIdentifier>) -> Seq<
    (Seq<char>, Seq<char>),
> {
    identifiers.map_values(|id: PluginIdentifier| (id.plugin_id@, id.plugin_ref@))
}

/// A list of strings as character sequences.
pub open spec fn string_views(strings: Seq<String>) -> Seq<Seq<char>> {
    strings.map_values(|s: String| s@)
}

/// Every planned key is one of the configuration's keys, and there are no
/// more planned instances than bindings.
pub proof fn lemma_planned_keys<L, F>(
    registry: PluginRegistry<L, F>,
    keys: Seq<KeyLocation>,
    bindings: Seq<PluginIdentifier>,
)
    ensures
        planned(registry, keys, bindings).len() <= keys.len(),
        forall|i: int|
            0 <= i < planned(registry, keys, bindings).len() ==> keys.contains(
                (#[trigger] planned(registry, keys, bindings)[i]).0,
            ),
    decreases keys.len(),
{
    if keys.len() > 0 && bindings.len() == keys.len() {
        lemma_planned_keys(registry, keys.drop_last(), bindings.drop_last());
        let before = planned(registry, keys.drop_last(), bindings.drop_last());
        let all = planned(registry, keys, bindings);
        assert forall|i: int| 0 <= i < all.len() implies keys.contains((#[trigger] all[i]).0) by {
            if i < before.len() {
                let at = choose|at: int|
                    0 <= at < keys.drop_last().len() && keys.drop_last()[at] == before[i].0;
                assert(keys[at] == all[i].0);
            } else {
                assert(keys.last() == all[i].0);
            }
        }
    }
}

/// The page controller: the loaded plugins, the configured pages, and the
/// emitter through which plugin instances reach the device, once there is a
/// device.
pub struct Controller<E, L, F> {
    pub plugin_registry: PluginRegistry<L, F>,
    pub config: ControllerConfig,
    pub event_emitter: Option<E>,
}

impl<E: Clone, L, F, P> Controller<E, L, F> where F: Fn(PluginScreenContext<E>) -> P {
    /// The registry and the configuration are in order.
    pub open spec fn wf(&self) -> bool {
        &&& self.plugin_registry.wf()
        &&& self.config.wf()
    }

    /// Whether the controller has been started with a device.
    pub open spec fn started(&self) -> bool {
        self.event_emitter is Some
    }

    /// Every registered factory can be called with every context.
    pub open spec fn factories_callable(&self) -> bool {
        forall|id: PluginIdentifier, ctx: PluginScreenContext<E>|
            self.plugin_registry.resolve(id) is Some ==> #[trigger] callable(
                self.plugin_registry.resolve(id)->Some_0,
                ctx,
            )
    }

    /// Whether `page` is the page that the configuration `config` gives: it
    /// has the configuration's name; before the controller is started it has
    /// no instance; after that it has, in the configuration's order, one
    /// instance for each binding that names a registered factory, made by that
    /// factory for the binding's key.
    pub open spec fn materialises(&self, config: PageConfig, page: Page<P>) -> bool {
        &&& page.wf()
        &&& page.name@ == config.name@
        &&& match self.event_emitter {
            None => page.screen.ids() == Seq::<KeyLocation>::empty(),
            Some(emitter) => {
                let plan = planned(self.plugin_registry, config.screen.ids(), config.screen.vals());
                &&& page.screen.ids() == plan.map_values(|entry: (KeyLocation, F)| entry.0)
                &&& forall|i: int|
                    0 <= i < plan.len() ==> instantiated(
                        emitter,
                        plan[i].1,
                        plan[i].0,
                        (#[trigger] page.screen.vals()[i]).plugin,
                    )
            },
        }
    }

    /// A controller of a host of the given versions, with no plugin, no page
    /// and no device.
    pub fn new(rustc_version: String, core_version: String) -> (controller: Self)
        ensures
            controller.wf(),
            !controller.started(),
            controller.plugin_registry.rustc_version == rustc_version,
            controller.plugin_registry.core_version == core_version,
            controller.plugin_registry.plugins.ids() == Seq::<Seq<char>>::empty(),
            controller.config.pages.ids() == Seq::<Seq<char>>::empty(),
    {
        Controller {
            plugin_registry: PluginRegistry::new(rustc_version, core_version),
            config: ControllerConfig { pages: KeyedList::new() },
            event_emitter: None,
        }
    }

    /// Loads a plugin whose library is open and whose declaration was read, as
    /// the registry does.
    pub fn load_plugin<R>(&mut self, lib: L, decl: &PluginDeclaration, register: R) -> (res:
        Result<(), PluginError>) where
        R: FnOnce(TempPluginRegistrar<L, F>) -> TempPluginRegistrar<L, F>,

        requires
            old(self).wf(),
            forall|registrar: TempPluginRegistrar<L, F>|
                registrar.screens.wf() ==> call_requires(register, (registrar,)),
            forall|registrar: TempPluginRegistrar<L, F>, done: TempPluginRegistrar<L, F>|
                registrar.screens.wf() && call_ensures(register, (registrar,), done)
                    ==> done.screens.wf(),
        ensures
            final(self).wf(),
            final(self).config == old(self).config,
            final(self).event_emitter == old(self).event_emitter,
            final(self).plugin_registry.rustc_version == old(self).plugin_registry.rustc_version,
            final(self).plugin_registry.core_version == old(self).plugin_registry.core_version,
            match res {
                Ok(()) => {
                    &&& old(self).plugin_registry.admits(*decl)
                    &&& final(self).plugin_registry.plugins.ids() == KeyedList::<
                        String,
                        LocalLoadedPlugin<L, F>,
                    >::ids_with(old(self).plugin_registry.plugins.ids(), decl.plugin_id@)
                    &&& exists|fresh: TempPluginRegistrar<L, F>, done: TempPluginRegistrar<L, F>|
                        {
                            &&& fresh.lib == lib
                            &&& fresh.screens.ids() == Seq::<Seq<char>>::empty()
                            &&& #[trigger] call_ensures(register, (fresh,), done)
                            &&& final(self).plugin_registry.plugins@ == old(
                                self,
                            ).plugin_registry.plugins@.insert(
                                decl.plugin_id@,
                                LocalLoadedPlugin {
                                    lib: done.lib,
                                    plugin_id: decl.plugin_id,
                                    screens: done.screens,
                                },
                            )
                        }
                },
                Err(error) => {
                    &&& error == PluginError::VersionMismatch
                    &&& !old(self).plugin_registry.admits(*decl)
                    &&& *final(self) == *old(self)
                },
            },
    {
        self.plugin_registry.load(lib, decl, register)
    }

    /// Whether the controller has a device: connected once it was started,
    /// disconnected before.
    pub fn get_connection_status(&self) -> (res: Result<DeviceConnectionStatus, PluginError>)
        ensures
            res == Ok::<DeviceConnectionStatus, PluginError>(
                if self.started() {
                    DeviceConnectionStatus::Connected
                } else {
                    DeviceConnectionStatus::Disconnected
                },
            ),
    {
        if self.event_emitter.is_none() {
            Ok(DeviceConnectionStatus::Disconnected)
        } else {
            Ok(DeviceConnectionStatus::Connected)
        }
    }

    /// Starts the controller with the emitter of a connected device. From now
    /// on pages get their instances.
    pub fn start(&mut self, emitter: E)
        ensures
            final(self).event_emitter == Some(emitter),
            final(self).plugin_registry == old(self).plugin_registry,
            final(self).config == old(self).config,
    {
        self.event_emitter = Some(emitter);
    }

    /// Puts a page into the configuration, in the place of an earlier page of
    /// the same name if there is one. The active page is not touched.
    pub fn set_page(&mut self, page: PageConfig) -> (res: Result<(), PluginError>)
        requires
            old(self).wf(),
            page.wf(),
        ensures
            res is Ok,
            final(self).wf(),
            final(self).config.pages@ == old(self).config.pages@.insert(page.name@, page),
            final(self).config.pages.ids() == KeyedList::<String, PageConfig>::ids_with(
                old(self).config.pages.ids(),
                page.name@,
            ),
            final(self).plugin_registry == old(self).plugin_registry,
            final(self).event_emitter == old(self).event_emitter,
    {
        let name: String = page.name.clone();
        self.config.pages.insert(name, page);
        Ok(())
    }

    /// The configuration of the page of the given name, if there is one.
    pub fn get_page(&self, page_name: String) -> (page: Option<PageConfig>)
        requires
            self.wf(),
        ensures
            match page {
                Some(config) => {
                    &&& self.config.pages@.contains_key(page_name@)
                    &&& config.same_as(self.config.pages@[page_name@])
                    &&& config.wf()
                },
                None => !self.config.pages@.contains_key(page_name@),
            },
    {
        match self.config.pages.find(&page_name) {
            None => None,
            Some(index) => {
                proof {
                    self.config.pages.lemma_entry(index as int);
                }
                Some(self.config.pages.value_at(index).clone())
            },
        }
    }

    /// The names of the configured pages, in the order in which they were
    /// first set.
    pub fn get_page_names(&self) -> (names: Vec<String>)
        requires
            self.wf(),
        ensures
            string_views(names@) == self.config.pages.ids(),
    {
        let mut names: Vec<String> = Vec::new();
        let mut i: usize = 0;
        while i < self.config.pages.len()
            invariant
                self.wf(),
                i <= self.config.pages.ids().len(),
                string_views(names@) == self.config.pages.ids().take(i as int),
            decreases self.config.pages.ids().len() - i,
        {
            names.push(self.config.pages.key_at(i).duplicate());
            assert(self.config.pages.ids().take(i as int + 1) =~= self.config.pages.ids().take(
                i as int,
            ).push(self.config.pages.ids()[i as int]));
            i = i + 1;
        }
        names
    }

    /// The identifiers of all registered screen factories: plugin after plugin
    /// in the order of loading, and within a plugin in the order of
    /// registration.
    pub fn list_plugins(&self) -> (res: Result<Vec<PluginIdentifier>, PluginError>)
        requires
            self.wf(),
        ensures
            res matches Ok(identifiers) && identifier_views(identifiers@) == all_identifiers(
                self.plugin_registry.plugins.ids(),
                self.plugin_registry.plugins.vals(),
            ),
    {
        let plugins = &self.plugin_registry.plugins;
        let mut identifiers: Vec<PluginIdentifier> = Vec::new();
        let mut i: usize = 0;
        while i < plugins.len()
            invariant
                self.wf(),
                *plugins == self.plugin_registry.plugins,
                i <= plugins.ids().len(),
                identifier_views(identifiers@) == all_identifiers(
                    plugins.ids().take(i as int),
                    plugins.vals().take(i as int),
                ),
            decreases plugins.ids().len() - i,
        {
            let plugin = plugins.value_at(i);
            let ghost done = identifier_views(identifiers@);
            let ghost plugin_id = plugins.ids()[i as int];
            let mut j: usize = 0;
            while j < plugin.screens.len()
                invariant
                    self.wf(),
                    *plugins == self.plugin_registry.plugins,
                    i < plugins.ids().len(),
                    *plugin == plugins.vals()[i as int],
                    plugin_id == plugins.ids()[i as int],
                    plugin.screens.wf(),
                    j <= plugin.screens.ids().len(),
                    identifier_views(identifiers@) == done + plugin_identifiers(
                        plugin_id,
                        plugin.screens.ids().take(j as int),
                    ),
                decreases plugin.screens.ids().len() - j,
            {
                let ghost before = identifiers@;
                let identifier = PluginIdentifier {
                    plugin_id: plugins.key_at(i).duplicate(),
                    plugin_ref: plugin.screens.key_at(j).duplicate(),
                };
                identifiers.push(identifier);
                proof {
                    assert(identifier_views(identifiers@) =~= identifier_views(before).push(
                        (identifier.plugin_id@, identifier.plugin_ref@),
                    ));
                }
                j = j + 1;
            }
            proof {
                assert(plugins.ids().take(i as int + 1).drop_last() =~= plugins.ids().take(
                    i as int,
                ));
                assert(plugins.vals().take(i as int + 1).drop_last() =~= plugins.vals().take(
                    i as int,
                ));
            }
            i = i + 1;
        }
        proof {
            assert(plugins.ids().take(i as int) =~= plugins.ids());
            assert(plugins.vals().take(i as int) =~= plugins.vals());
        }
        Ok(identifiers)
    }

    /// Makes the instances of a page: for each binding of the configuration,
    /// in order, the plugin is looked up by id and the factory by name, and
    /// the factory is called with a context for the binding's key on the
    /// centre screen. A binding whose plugin or factory is missing is skipped.
    /// Before the controller is started, no instance is made.
    pub fn create_page_instance(&self, page_config: &PageConfig) -> (res: Result<
        Page<P>,
        PluginError,
    >)
        requires
            self.wf(),
            page_config.wf(),
            self.factories_callable(),
        ensures
            res matches Ok(page) && self.materialises(*page_config, page),
    {
        let mut page: Page<P> = Page::new(page_config.name.clone());
        let emitter: &E = match &self.event_emitter {
            None => {
                return Ok(page);
            },
            Some(emitter) => emitter,
        };
        let ghost keys = page_config.screen.ids();
        let ghost bindings = page_config.screen.vals();
        let ghost registry = self.plugin_registry;
        let mut i: usize = 0;
        while i < page_config.screen.len()
            invariant
                self.wf(),
                page_config.wf(),
                self.factories_callable(),
                self.event_emitter == Some(*emitter),
                keys == page_config.screen.ids(),
                bindings == page_config.screen.vals(),
                registry == self.plugin_registry,
                i <= keys.len(),
                page.wf(),
                page.name@ == page_config.name@,
                page.screen.ids() == planned(
                    registry,
                    keys.take(i as int),
                    bindings.take(i as int),
                ).map_values(|entry: (KeyLocation, F)| entry.0),
                forall|k: int|
                    0 <= k < planned(registry, keys.take(i as int), bindings.take(i as int)).len()
                        ==> instantiated(
                        *emitter,
                        planned(registry, keys.take(i as int), bindings.take(i as int))[k].1,
                        planned(registry, keys.take(i as int), bindings.take(i as int))[k].0,
                        (#[trigger] page.screen.vals()[k]).plugin,
                    ),
            decreases keys.len() - i,
        {
            let key: KeyLocation = *page_config.screen.key_at(i);
            let binding: &PluginIdentifier = page_config.screen.value_at(i);
            let ghost before = planned(registry, keys.take(i as int), bindings.take(i as int));
            let ghost after = planned(
                registry,
                keys.take(i as int + 1),
                bindings.take(i as int + 1),
            );
            proof {
                assert(keys.take(i as int + 1).drop_last() =~= keys.take(i as int));
                assert(bindings.take(i as int + 1).drop_last() =~= bindings.take(i as int));
                lemma_planned_keys(registry, keys.take(i as int), bindings.take(i as int));
            }
            match self.plugin_registry.lookup(binding) {
                None => {},
                Some(factory) => {
                    let ctx = PluginScreenContext::new(emitter.clone(), Screen::Center, key);
                    proof {
                        assert(callable(self.plugin_registry.resolve(*binding)->Some_0, ctx));
                    }
                    let instance: P = factory(ctx);
                    proof {
                        // the key is new to the page: a planned key is an
                        // earlier key of the configuration, and no key of the
                        // configuration occurs twice
                        if page.screen.ids().contains(key) {
                            let at = page.screen.ids().index_of(key);
                            assert(keys.take(i as int).contains(before[at].0));
                            let earlier = choose|earlier: int|
                                0 <= earlier < i && keys.take(i as int)[earlier] == key;
                            assert(keys[earlier] == keys[i as int]);
                        }
                    }
                    page.screen.insert(key, ScreenPluginProxy { plugin: instance });
                    assert(after == before.push((key, *factory)));
                },
            }
            i = i + 1;
        }
        proof {
            assert(keys.take(i as int) =~= keys);
            assert(bindings.take(i as int) =~= bindings);
        }
        Ok(page)
    }

    /// Makes the page of the given name ready to become the active page. If
    /// there is no page of that name, or the controller has not been started,
    /// nothing is made. Else the page's instances are made and the page is
    /// handed back, for the dispatcher to put in the place of the active page.
    pub fn set_current_page(&self, page_name: String) -> (res: Result<
        Option<Page<P>>,
        PluginError,
    >)
        requires
            self.wf(),
            self.factories_callable(),
        ensures
            match res {
                Ok(Some(page)) => {
                    &&& self.started()
                    &&& self.config.pages@.contains_key(page_name@)
                    &&& self.materialises(self.config.pages@[page_name@], page)
                },
                Ok(None) => !self.started() || !self.config.pages@.contains_key(page_name@),
                Err(_) => false,
            },
    {
        let page_config: &PageConfig = match self.config.pages.find(&page_name) {
            None => {
                return Ok(None);
            },
            Some(index) => {
                proof {
                    self.config.pages.lemma_entry(index as int);
                }
                self.config.pages.value_at(index)
            },
        };
        let page: Page<P> = match self.create_page_instance(page_config) {
            Ok(page) => page,
            Err(error) => {
                return Err(error);
            },
        };
        if self.event_emitter.is_some() {
            Ok(Some(page))
        } else {
            Ok(None)
        }
    }
}

} // verus!
