use loupedeck::{
    Button, ButtonPressEvent, Controller, ControllerState, Device, DeviceConnectionStatus,
    DrawInEvent, Event, FrameReader, Haptic, KeyLocation, Knob, KnobRotateEvent, Page, PageConfig,
    PluginDeclaration, PluginError, PluginIdentifier, PluginRegistrar, PluginScreenContext,
    PressDirection, Reaction, Screen, ScreenPlugin, ScreenPluginOptions, ScreenPluginProxy,
    TempPluginRegistrar, TouchEvent, CORE_VERSION,
};
use std::cell::RefCell;
use std::rc::Rc;

const HOST_ABI: &str = "rustc 1.70.0";

/// What an instance saw, shared with the test.
type Log = Rc<RefCell<Vec<(KeyLocation, TouchEvent)>>>;

struct Recorder {
    kind: &'static str,
    screen: Screen,
    key: KeyLocation,
    log: Log,
}

impl ScreenPlugin for Recorder {
    fn on_touch(&self, position: TouchEvent) -> Result<(), PluginError> {
        self.log.borrow_mut().push((self.key, position));
        if self.kind == "failing" {
            Err(PluginError::Handler)
        } else {
            Ok(())
        }
    }
}

type Factory = fn(PluginScreenContext<Log>) -> Recorder;
type Registrar = TempPluginRegistrar<(), Factory>;
type TestController = Controller<Log, (), Factory>;

fn make_clock(ctx: PluginScreenContext<Log>) -> Recorder {
    Recorder { kind: "clock", screen: ctx.position, key: ctx.key_id, log: ctx.device_event_emitter }
}

fn make_date(ctx: PluginScreenContext<Log>) -> Recorder {
    Recorder { kind: "date", screen: ctx.position, key: ctx.key_id, log: ctx.device_event_emitter }
}

fn make_failing(ctx: PluginScreenContext<Log>) -> Recorder {
    Recorder {
        kind: "failing",
        screen: ctx.position,
        key: ctx.key_id,
        log: ctx.device_event_emitter,
    }
}

fn register_time_plugin(mut registrar: Registrar) -> Registrar {
    let options = ScreenPluginOptions { exclusive: false };
    registrar.register_screen("current-time", options, make_clock as Factory).unwrap();
    registrar.register_screen("current-date", options, make_date as Factory).unwrap();
    registrar
}

fn register_failing_plugin(mut registrar: Registrar) -> Registrar {
    let options = ScreenPluginOptions { exclusive: true };
    registrar.register_screen("fails", options, make_failing as Factory).unwrap();
    registrar
}

fn declaration(plugin_id: &str) -> PluginDeclaration {
    PluginDeclaration {
        rustc_version: HOST_ABI.to_string(),
        core_version: CORE_VERSION.to_string(),
        plugin_id: plugin_id.to_string(),
    }
}

fn identifier(plugin_id: &str, plugin_ref: &str) -> PluginIdentifier {
    PluginIdentifier { plugin_id: plugin_id.to_string(), plugin_ref: plugin_ref.to_string() }
}

fn controller_with_time_plugin() -> TestController {
    let mut controller: TestController =
        Controller::new(HOST_ABI.to_string(), CORE_VERSION.to_string());
    controller
        .load_plugin((), &declaration("time-plugin"), register_time_plugin)
        .expect("Failed to load plugin");
    controller
}

fn basic_page() -> PageConfig {
    let mut page = PageConfig::new("basic".to_string());
    page.bind(KeyLocation::new(0, 0), identifier("time-plugin", "current-time"));
    page.bind(KeyLocation::new(2, 2), identifier("time-plugin", "current-date"));
    page
}

fn touch(dir: PressDirection, x: u16, y: u16) -> TouchEvent {
    TouchEvent { tx_id: 7, dir, touch_id: 0, x, y, screen: Screen::from_x_coor(x).unwrap() }
}

fn keys_of(page: &Page<Recorder>) -> Vec<KeyLocation> {
    let mut keys: Vec<KeyLocation> = Vec::new();
    for i in 0..page.screen.len() {
        keys.push(*page.screen.key_at(i));
    }
    keys
}

#[test]
fn a_new_controller_is_empty_and_disconnected() {
    let controller: TestController =
        Controller::new(HOST_ABI.to_string(), CORE_VERSION.to_string());
    assert_eq!(controller.get_connection_status(), Ok(DeviceConnectionStatus::Disconnected));
    assert_eq!(controller.get_page_names(), Vec::<String>::new());
    assert_eq!(controller.list_plugins(), Ok(Vec::new()));
    assert!(controller.get_page("basic".to_string()).is_none());
}

#[test]
fn starting_connects() {
    let mut controller = controller_with_time_plugin();
    controller.start(Log::default());
    assert_eq!(controller.get_connection_status(), Ok(DeviceConnectionStatus::Connected));
}

#[test]
fn pages_are_set_listed_and_read_back() {
    let mut controller = controller_with_time_plugin();
    controller.set_page(basic_page()).expect("Failed to add page");
    controller.set_page(PageConfig::new("empty".to_string())).expect("Failed to add page");
    assert_eq!(controller.get_page_names(), vec!["basic".to_string(), "empty".to_string()]);

    let page = controller.get_page("basic".to_string()).unwrap();
    assert_eq!(page.name, "basic");
    assert_eq!(page.screen.len(), 2);
    assert_eq!(
        page.screen.get(&KeyLocation::new(0, 0)),
        Some(&identifier("time-plugin", "current-time"))
    );
    assert_eq!(
        page.screen.get(&KeyLocation::new(2, 2)),
        Some(&identifier("time-plugin", "current-date"))
    );
    assert_eq!(page.screen.get(&KeyLocation::new(2, 1)), None);

    let empty = controller.get_page("empty".to_string()).unwrap();
    assert_eq!(empty.screen.len(), 0);
    assert!(controller.get_page("Basic".to_string()).is_none());
    assert!(controller.get_page(String::new()).is_none());
}

#[test]
fn setting_a_page_again_replaces_it_in_place() {
    let mut controller = controller_with_time_plugin();
    controller.set_page(basic_page()).unwrap();
    controller.set_page(PageConfig::new("second".to_string())).unwrap();

    let mut changed = PageConfig::new("basic".to_string());
    changed.bind(KeyLocation::new(1, 1), identifier("time-plugin", "current-date"));
    controller.set_page(changed).unwrap();

    assert_eq!(controller.get_page_names(), vec!["basic".to_string(), "second".to_string()]);
    let page = controller.get_page("basic".to_string()).unwrap();
    assert_eq!(page.screen.len(), 1);
    assert_eq!(
        page.screen.get(&KeyLocation::new(1, 1)),
        Some(&identifier("time-plugin", "current-date"))
    );
    assert_eq!(page.screen.get(&KeyLocation::new(0, 0)), None);
}

#[test]
fn binding_a_key_again_rebinds_it() {
    let mut page = basic_page();
    page.bind(KeyLocation::new(0, 0), identifier("other", "thing"));
    assert_eq!(page.screen.len(), 2);
    assert_eq!(page.screen.get(&KeyLocation::new(0, 0)), Some(&identifier("other", "thing")));
    assert_eq!(*page.screen.key_at(0), KeyLocation::new(0, 0));
    assert_eq!(*page.screen.key_at(1), KeyLocation::new(2, 2));
}

#[test]
fn plugins_are_listed_in_order_of_loading_and_registration() {
    let mut controller = controller_with_time_plugin();
    controller.load_plugin((), &declaration("bad-plugin"), register_failing_plugin).unwrap();
    controller.load_plugin((), &declaration("idle-plugin"), |registrar: Registrar| registrar).unwrap();
    assert_eq!(
        controller.list_plugins(),
        Ok(vec![
            identifier("time-plugin", "current-time"),
            identifier("time-plugin", "current-date"),
            identifier("bad-plugin", "fails"),
        ])
    );
}

#[test]
fn a_plugin_of_another_version_leaves_the_controller_as_it_was() {
    let mut controller = controller_with_time_plugin();
    let mut decl = declaration("bad-plugin");
    decl.core_version = "9.9.9".to_string();
    assert_eq!(
        controller.load_plugin((), &decl, register_failing_plugin),
        Err(PluginError::VersionMismatch)
    );
    assert_eq!(
        controller.list_plugins(),
        Ok(vec![
            identifier("time-plugin", "current-time"),
            identifier("time-plugin", "current-date"),
        ])
    );
}

#[test]
fn no_page_is_made_before_the_controller_is_started() {
    let mut controller = controller_with_time_plugin();
    controller.set_page(basic_page()).unwrap();
    assert!(controller.set_current_page("basic".to_string()).unwrap().is_none());
    let page = controller.create_page_instance(&basic_page()).unwrap();
    assert_eq!(page.name, "basic");
    assert_eq!(page.screen.len(), 0);
}

#[test]
fn an_unknown_page_is_not_an_error() {
    let mut controller = controller_with_time_plugin();
    controller.start(Log::default());
    controller.set_page(basic_page()).unwrap();
    assert!(controller.set_current_page("missing".to_string()).unwrap().is_none());
}

#[test]
fn a_page_gets_one_instance_for_each_binding() {
    let mut controller = controller_with_time_plugin();
    controller.start(Log::default());
    controller.set_page(basic_page()).unwrap();
    let page = controller.set_current_page("basic".to_string()).unwrap().unwrap();
    assert_eq!(page.name, "basic");
    assert_eq!(keys_of(&page), vec![KeyLocation::new(0, 0), KeyLocation::new(2, 2)]);

    let clock = &page.screen.get(&KeyLocation::new(0, 0)).unwrap().plugin;
    assert_eq!(clock.kind, "clock");
    assert_eq!(clock.key, KeyLocation::new(0, 0));
    assert_eq!(clock.screen, Screen::Center);
    let date = &page.screen.get(&KeyLocation::new(2, 2)).unwrap().plugin;
    assert_eq!(date.kind, "date");
    assert_eq!(date.key, KeyLocation::new(2, 2));
    assert_eq!(date.screen, Screen::Center);
}

#[test]
fn bindings_that_name_nothing_are_skipped() {
    let mut controller = controller_with_time_plugin();
    controller.start(Log::default());
    let mut config = PageConfig::new("partial".to_string());
    config.bind(KeyLocation::new(0, 0), identifier("missing-plugin", "current-time"));
    config.bind(KeyLocation::new(1, 0), identifier("time-plugin", "current-time"));
    config.bind(KeyLocation::new(2, 0), identifier("time-plugin", "missing-ref"));
    config.bind(KeyLocation::new(3, 0), identifier("time-plugin", "current-date"));
    config.bind(KeyLocation::new(4, 0), identifier("", ""));
    controller.set_page(config).unwrap();
    let page = controller.set_current_page("partial".to_string()).unwrap().unwrap();
    assert_eq!(keys_of(&page), vec![KeyLocation::new(1, 0), KeyLocation::new(3, 0)]);
    assert_eq!(page.screen.get(&KeyLocation::new(1, 0)).unwrap().plugin.kind, "clock");
    assert_eq!(page.screen.get(&KeyLocation::new(3, 0)).unwrap().plugin.kind, "date");
}

#[test]
fn a_button_going_down_is_answered_with_a_short_vibration() {
    let state: ControllerState<Recorder> = ControllerState::new();
    for button in [Button::Knob0, Button::Home, Button::Circle7] {
        let down =
            Event::ButtonPress(ButtonPressEvent { tx_id: 0, button, dir: PressDirection::Down });
        let up = Event::ButtonPress(ButtonPressEvent { tx_id: 0, button, dir: PressDirection::Up });
        assert_eq!(state.react(&down), Reaction::Vibrate(Haptic::ShortLow));
        assert_eq!(state.dispatch(&down), Some(Haptic::ShortLow));
        assert_eq!(state.react(&up), Reaction::Ignore);
        assert_eq!(state.dispatch(&up), None);
    }
}

#[test]
fn events_that_match_nothing_are_ignored() {
    let mut state: ControllerState<Recorder> = ControllerState::new();
    let log = Log::default();
    let knob = Event::KnobRotate(KnobRotateEvent { tx_id: 0, knob: Knob::Knob1, value: -3 });
    let ack = Event::DrawIn(DrawInEvent { tx_id: 3 });
    let on_key = Event::TouchEvent(touch(PressDirection::Down, 240, 90));
    // without an active page nothing is touched
    for event in [&knob, &ack, &on_key] {
        assert_eq!(state.react(event), Reaction::Ignore);
        assert_eq!(state.dispatch(event), None);
    }

    let mut page: Page<Recorder> = Page::new("one".to_string());
    page.screen.insert(
        KeyLocation::new(2, 1),
        ScreenPluginProxy {
            plugin: Recorder {
                kind: "clock",
                screen: Screen::Center,
                key: KeyLocation::new(2, 1),
                log: log.clone(),
            },
        },
    );
    assert!(state.swap_page(page).is_none());

    let beside = Event::TouchEvent(touch(PressDirection::Down, 150, 90));
    let left_screen = Event::TouchEvent(touch(PressDirection::Down, 30, 90));
    let below = Event::TouchEvent(touch(PressDirection::Down, 240, 180));
    for event in [&knob, &ack, &beside, &left_screen, &below] {
        assert_eq!(state.react(event), Reaction::Ignore);
        assert_eq!(state.dispatch(event), None);
    }
    assert!(log.borrow().is_empty());
}

#[test]
fn touch_dispatch() {
    let mut controller = controller_with_time_plugin();
    let log = Log::default();
    controller.start(log.clone());
    let mut config = PageConfig::new("one".to_string());
    config.bind(KeyLocation::new(2, 1), identifier("time-plugin", "current-time"));
    controller.set_page(config).unwrap();

    let mut state: ControllerState<Recorder> = ControllerState::new();
    let page = controller.set_current_page("one".to_string()).unwrap().unwrap();
    assert!(state.swap_page(page).is_none());

    // the bytes of TouchDown(tx_id = 7, x = 240, y = 90, touch_id = 0), framed
    let wire: Vec<u8> = vec![0x82, 0x09, 0x09, 0x4D, 0x07, 0x00, 0x00, 0xF0, 0x00, 0x5A, 0x00];
    let mut device = Device::new("COM3".to_string());
    let mut reader = FrameReader::new();
    let deliveries = device.receive(&mut reader, &wire);
    assert_eq!(deliveries.len(), 1);
    let event = &deliveries[0].event;
    assert_eq!(*event, Event::TouchEvent(touch(PressDirection::Down, 240, 90)));

    assert_eq!(state.react(event), Reaction::Touch(KeyLocation { x: 2, y: 1 }));
    assert!(log.borrow().is_empty());
    assert_eq!(state.dispatch(event), None);
    // the instance on key (2, 1) was called exactly once, with the event
    assert_eq!(
        *log.borrow(),
        vec![(KeyLocation { x: 2, y: 1 }, touch(PressDirection::Down, 240, 90))]
    );
}

#[test]
fn touches_up_and_down_both_reach_the_instance() {
    let mut state: ControllerState<Recorder> = ControllerState::new();
    let log = Log::default();
    let mut page: Page<Recorder> = Page::new("one".to_string());
    for (x, y) in [(0u8, 0u8), (3, 2)] {
        page.screen.insert(
            KeyLocation::new(x, y),
            ScreenPluginProxy {
                plugin: Recorder {
                    kind: "clock",
                    screen: Screen::Center,
                    key: KeyLocation::new(x, y),
                    log: log.clone(),
                },
            },
        );
    }
    state.swap_page(page);
    let down = touch(PressDirection::Down, 61, 0);
    let up = touch(PressDirection::Up, 419, 269);
    assert_eq!(state.dispatch(&Event::TouchEvent(down)), None);
    assert_eq!(state.dispatch(&Event::TouchEvent(up)), None);
    assert_eq!(
        *log.borrow(),
        vec![(KeyLocation::new(0, 0), down), (KeyLocation::new(3, 2), up)]
    );
}

#[test]
fn a_failing_instance_does_not_stop_the_dispatcher() {
    let mut controller: TestController =
        Controller::new(HOST_ABI.to_string(), CORE_VERSION.to_string());
    controller.load_plugin((), &declaration("bad-plugin"), register_failing_plugin).unwrap();
    let log = Log::default();
    controller.start(log.clone());
    let mut config = PageConfig::new("bad".to_string());
    config.bind(KeyLocation::new(0, 0), identifier("bad-plugin", "fails"));
    controller.set_page(config).unwrap();
    let mut state: ControllerState<Recorder> = ControllerState::new();
    state.swap_page(controller.set_current_page("bad".to_string()).unwrap().unwrap());

    let event = Event::TouchEvent(touch(PressDirection::Down, 100, 50));
    assert_eq!(state.dispatch(&event), None);
    assert_eq!(state.dispatch(&event), None);
    assert_eq!(log.borrow().len(), 2);
}

#[test]
fn page_swap_destroys_previous_instances() {
    let mut controller = controller_with_time_plugin();
    let log = Log::default();
    controller.start(log.clone());

    let mut a = PageConfig::new("A".to_string());
    a.bind(KeyLocation::new(0, 0), identifier("time-plugin", "current-time"));
    let mut b = PageConfig::new("B".to_string());
    b.bind(KeyLocation::new(1, 0), identifier("time-plugin", "current-time"));
    controller.set_page(a).unwrap();
    controller.set_page(b).unwrap();

    let mut state: ControllerState<Recorder> = ControllerState::new();
    let page_a = controller.set_current_page("A".to_string()).unwrap().unwrap();
    assert!(state.swap_page(page_a).is_none());
    assert_eq!(state.current_page.as_ref().unwrap().name, "A");
    // the log is held by the controller, by this test, and by A's one instance
    assert_eq!(Rc::strong_count(&log), 3);

    let page_b = controller.set_current_page("B".to_string()).unwrap().unwrap();
    let previous = state.swap_page(page_b);
    assert_eq!(state.current_page.as_ref().unwrap().name, "B");
    assert_eq!(previous.as_ref().unwrap().name, "A");
    assert_eq!(Rc::strong_count(&log), 4);
    drop(previous);
    // A's instance is gone
    assert_eq!(Rc::strong_count(&log), 3);

    // touches go to B's instance on key (1, 0); A's key (0, 0) has nothing now
    let on_a = Event::TouchEvent(touch(PressDirection::Down, 100, 10));
    let on_b = Event::TouchEvent(touch(PressDirection::Down, 200, 10));
    assert_eq!(state.react(&on_a), Reaction::Ignore);
    assert_eq!(state.dispatch(&on_a), None);
    assert!(log.borrow().is_empty());
    assert_eq!(state.react(&on_b), Reaction::Touch(KeyLocation::new(1, 0)));
    assert_eq!(state.dispatch(&on_b), None);
    assert_eq!(*log.borrow(), vec![(KeyLocation::new(1, 0), touch(PressDirection::Down, 200, 10))]);
}
