use loupedeck::{
    ExternalMessage, Haptic, KeyLocation, LocalLoadedPlugin, MessageHeader, PluginDeclaration,
    PluginError, PluginIdentifier, PluginRegistrar, PluginRegistry, PluginScreenContext,
    ProtocolError, Screen, ScreenPluginOptions, TempPluginRegistrar, CORE_VERSION,
};
use raqote::{DrawOptions, DrawTarget, SolidSource, Source};

type Registry = PluginRegistry<u32, &'static str>;
type Registrar = TempPluginRegistrar<u32, &'static str>;

const HOST_ABI: &str = "rustc 1.70.0";

fn declaration(plugin_id: &str) -> PluginDeclaration {
    PluginDeclaration {
        rustc_version: HOST_ABI.to_string(),
        core_version: CORE_VERSION.to_string(),
        plugin_id: plugin_id.to_string(),
    }
}

fn options() -> ScreenPluginOptions {
    ScreenPluginOptions { exclusive: false }
}

fn identifier(plugin_id: &str, plugin_ref: &str) -> PluginIdentifier {
    PluginIdentifier { plugin_id: plugin_id.to_string(), plugin_ref: plugin_ref.to_string() }
}

fn register_time_plugin(mut registrar: Registrar) -> Registrar {
    registrar.register_screen("current-time", options(), "time factory").unwrap();
    registrar.register_screen("current-date", options(), "date factory").unwrap();
    registrar
}

#[test]
fn a_touch_maps_to_the_key_under_it() {
    assert_eq!(KeyLocation::from_location(240, 90), KeyLocation { x: 2, y: 1 });
    assert_eq!(KeyLocation::from_location(60, 0), KeyLocation { x: 0, y: 0 });
    assert_eq!(KeyLocation::from_location(149, 89), KeyLocation { x: 0, y: 0 });
    assert_eq!(KeyLocation::from_location(150, 90), KeyLocation { x: 1, y: 1 });
    assert_eq!(KeyLocation::from_location(419, 269), KeyLocation { x: 3, y: 2 });
    assert_eq!(KeyLocation::from_location(420, 269), KeyLocation { x: 4, y: 2 });
    assert_eq!(KeyLocation::from_location(480, 270), KeyLocation { x: 4, y: 3 });
    assert_eq!(KeyLocation::new(2, 1), KeyLocation { x: 2, y: 1 });
}

#[test]
fn centre_touches_stay_on_the_grid() {
    for x in 61u16..=420 {
        for y in 0u16..=269 {
            let key = KeyLocation::from_location(x, y);
            assert!(key.y <= 2);
            assert!(key.x <= 4);
            if x <= 419 {
                assert!(key.x <= 3);
            }
            assert_eq!(KeyLocation::locate(x, y), Some(key));
        }
    }
}

#[test]
fn touches_off_the_grid_map_to_no_key() {
    assert_eq!(KeyLocation::locate(0, 0), None);
    assert_eq!(KeyLocation::locate(59, 100), None);
    assert_eq!(KeyLocation::locate(60, 100), Some(KeyLocation { x: 0, y: 1 }));
    // the last column and row that a key location can name
    assert_eq!(KeyLocation::locate(23099, 23039), Some(KeyLocation { x: 255, y: 255 }));
    assert_eq!(KeyLocation::locate(23100, 0), None);
    assert_eq!(KeyLocation::locate(60, 23040), None);
    assert_eq!(KeyLocation::locate(u16::MAX, u16::MAX), None);
}

#[test]
fn a_key_begins_at_ninety_times_its_column_and_row() {
    assert_eq!(KeyLocation { x: 0, y: 0 }.origin(), (0, 0));
    assert_eq!(KeyLocation { x: 2, y: 1 }.origin(), (180, 90));
    assert_eq!(KeyLocation { x: 255, y: 255 }.origin(), (22950, 22950));
    for x in 0u8..=4 {
        for y in 0u8..=2 {
            let key = KeyLocation { x, y };
            let (px, py) = key.origin();
            assert_eq!(KeyLocation::from_location(60 + px, py), key);
            assert_eq!(KeyLocation::from_location(60 + px + 89, py + 89), key);
        }
    }
}

#[test]
fn a_context_draws_its_key() {
    let ctx = PluginScreenContext::new((), Screen::Center, KeyLocation { x: 2, y: 1 });
    let data: Vec<u8> = vec![0x5A; 16200];
    let (write, refresh) = ctx.draw_rgb565(&data).unwrap();
    assert_eq!(write.action, MessageHeader::WriteFrameBuffer);
    assert_eq!(&write.data[..10], &[0x00, 0x41, 0x00, 0xB4, 0x00, 0x5A, 0x00, 0x5A, 0x00, 0x5A]);
    assert_eq!(&write.data[10..], data.as_slice());
    assert_eq!(refresh, ExternalMessage::new(MessageHeader::DrawOut, vec![0x00, 0x41]));

    let frame: Vec<u8> = write.into_frame();
    assert_eq!(
        &frame[..17],
        &[0x82, 0xFF, 0, 0, 0, 0, 0x00, 0x00, 0x3F, 0x55, 0, 0, 0, 0, 0xFF, 0x10, 0x01]
    );
}

#[test]
fn a_context_refuses_a_buffer_of_the_wrong_length() {
    let ctx = PluginScreenContext::new((), Screen::Center, KeyLocation { x: 0, y: 0 });
    assert_eq!(ctx.draw_rgb565(&[]), Err(ProtocolError::InvalidBufferLength));
    assert_eq!(ctx.draw_rgb565(&vec![0u8; 16198]), Err(ProtocolError::InvalidBufferLength));
    assert_eq!(ctx.draw_rgb565(&vec![0u8; 16202]), Err(ProtocolError::InvalidBufferLength));
    assert_eq!(ctx.draw_target(DrawTarget::new(1, 1)), Err(ProtocolError::InvalidBufferLength));
    assert_eq!(ctx.draw_target(DrawTarget::new(90, 89)), Err(ProtocolError::InvalidBufferLength));
}

#[test]
fn a_context_converts_and_draws_a_surface() {
    let ctx = PluginScreenContext::new((), Screen::Left, KeyLocation { x: 1, y: 2 });
    let mut target = DrawTarget::new(90, 90);
    let blue: SolidSource = SolidSource::from_unpremultiplied_argb(255, 0x00, 0x00, 0xFF);
    target.fill_rect(0.0, 0.0, 90.0, 90.0, &Source::Solid(blue), &DrawOptions::new());
    let (write, refresh) = ctx.draw_target(target).unwrap();
    assert_eq!(&write.data[..10], &[0x00, 0x4C, 0x00, 0x5A, 0x00, 0xB4, 0x00, 0x5A, 0x00, 0x5A]);
    assert_eq!(write.data.len(), 10 + 16200);
    for pixel in write.data[10..].chunks(2) {
        assert_eq!(pixel, &[0x1F, 0x00]);
    }
    assert_eq!(refresh.data, vec![0x00, 0x4C]);
    assert_eq!(refresh.action, MessageHeader::DrawOut);
}

#[test]
fn a_context_vibrates() {
    let ctx = PluginScreenContext::new((), Screen::Center, KeyLocation { x: 0, y: 0 });
    let message = ctx.vibrate(Haptic::Medium);
    assert_eq!(message, ExternalMessage::new(MessageHeader::SetVibration, vec![0x0A]));
}

#[test]
fn registering_under_a_name_again_replaces_the_factory() {
    let mut registrar: Registrar = TempPluginRegistrar::new(7);
    assert_eq!(registrar.register_screen("a", options(), "first"), Ok(()));
    assert_eq!(registrar.register_screen("b", options(), "second"), Ok(()));
    assert_eq!(
        registrar.register_screen("a", ScreenPluginOptions { exclusive: true }, "third"),
        Ok(())
    );
    let plugin: LocalLoadedPlugin<u32, &'static str> = registrar.to_local_plugin("p".to_string());
    assert_eq!(plugin.lib, 7);
    assert_eq!(plugin.plugin_id, "p");
    assert_eq!(plugin.screens.len(), 2);
    assert_eq!(plugin.screens.get(&"a".to_string()), Some(&"third"));
    assert_eq!(plugin.screens.get(&"b".to_string()), Some(&"second"));
    assert_eq!(plugin.screens.get(&"c".to_string()), None);
    // the replaced name keeps its place
    assert_eq!(plugin.screens.key_at(0), "a");
    assert_eq!(plugin.screens.key_at(1), "b");
}

#[test]
fn a_plugin_of_the_hosts_versions_is_loaded() {
    let mut registry: Registry = PluginRegistry::new(HOST_ABI.to_string(), CORE_VERSION.to_string());
    assert_eq!(registry.check_versions(&declaration("time-plugin")), Ok(()));
    assert_eq!(registry.load(1, &declaration("time-plugin"), register_time_plugin), Ok(()));
    assert_eq!(registry.plugins.len(), 1);
    let plugin = registry.plugins.get(&"time-plugin".to_string()).unwrap();
    assert_eq!(plugin.plugin_id, "time-plugin");
    assert_eq!(plugin.lib, 1);
    assert_eq!(
        registry.lookup(&identifier("time-plugin", "current-time")),
        Some(&"time factory")
    );
    assert_eq!(
        registry.lookup(&identifier("time-plugin", "current-date")),
        Some(&"date factory")
    );
    assert_eq!(registry.lookup(&identifier("time-plugin", "current-year")), None);
    assert_eq!(registry.lookup(&identifier("date-plugin", "current-date")), None);
}

#[test]
fn plugin_version_mismatch() {
    let mut registry: Registry = PluginRegistry::new(HOST_ABI.to_string(), CORE_VERSION.to_string());
    assert_eq!(registry.load(1, &declaration("time-plugin"), register_time_plugin), Ok(()));

    let mut other_core = declaration("other-plugin");
    other_core.core_version = "0.2.0".to_string();
    let mut called: bool = false;
    let res = registry.load(2, &other_core, |registrar: Registrar| {
        called = true;
        registrar
    });
    assert_eq!(res, Err(PluginError::VersionMismatch));
    // the plugin's code did not run, and the registry is as it was
    assert!(!called);
    assert_eq!(registry.plugins.len(), 1);
    assert!(registry.plugins.get(&"other-plugin".to_string()).is_none());
    assert!(registry.plugins.get(&"time-plugin".to_string()).is_some());

    let mut other_abi = declaration("time-plugin");
    other_abi.rustc_version = "rustc 1.71.0".to_string();
    assert_eq!(registry.check_versions(&other_abi), Err(PluginError::VersionMismatch));
    assert_eq!(
        registry.load(3, &other_abi, register_time_plugin),
        Err(PluginError::VersionMismatch)
    );
    assert_eq!(registry.plugins.get(&"time-plugin".to_string()).unwrap().lib, 1);

    let mut both = declaration("x");
    both.rustc_version = String::new();
    both.core_version = String::new();
    assert_eq!(registry.check_versions(&both), Err(PluginError::VersionMismatch));
}

#[test]
fn loading_a_plugin_again_replaces_its_record() {
    let mut registry: Registry = PluginRegistry::new(HOST_ABI.to_string(), CORE_VERSION.to_string());
    assert_eq!(registry.load(1, &declaration("a"), register_time_plugin), Ok(()));
    assert_eq!(registry.load(2, &declaration("b"), |registrar: Registrar| registrar), Ok(()));
    assert_eq!(
        registry.load(3, &declaration("a"), |mut registrar: Registrar| {
            registrar.register_screen("only", options(), "new factory").unwrap();
            registrar
        }),
        Ok(())
    );
    assert_eq!(registry.plugins.len(), 2);
    assert_eq!(registry.plugins.key_at(0), "a");
    assert_eq!(registry.plugins.key_at(1), "b");
    let a = registry.plugins.get(&"a".to_string()).unwrap();
    assert_eq!(a.lib, 3);
    assert_eq!(a.screens.len(), 1);
    assert_eq!(registry.lookup(&identifier("a", "only")), Some(&"new factory"));
    assert_eq!(registry.lookup(&identifier("a", "current-time")), None);
    assert_eq!(registry.plugins.get(&"b".to_string()).unwrap().screens.len(), 0);
}
