use bevy_ratatui::crossterm_context::context::{configure_plugin_group, PluginEntry};
use bevy_ratatui::crossterm_context::PluginKind;
use bevy_ratatui::{CrosstermPlugin, Features, GroupMember, RatatuiPlugins};

fn features(crossterm: bool, windowed: bool, keyboard: bool, mouse: bool) -> Features {
    Features { crossterm, windowed, keyboard, mouse }
}

fn entry(kind: PluginKind, enabled: bool) -> PluginEntry {
    PluginEntry { kind, enabled }
}

fn enabled(entries: &[PluginEntry]) -> Vec<PluginKind> {
    entries.iter().filter(|e| e.enabled).map(|e| e.kind).collect()
}

#[test]
fn ratatui_plugins_default_settings() {
    let group = RatatuiPlugins::default();
    assert!(group.enable_kitty_protocol);
    assert!(!group.enable_mouse_capture);
    assert!(!group.enable_input_forwarding);
}

#[test]
fn crossterm_plugin_default_settings() {
    let plugin = CrosstermPlugin::default();
    assert!(plugin.enable_kitty_protocol);
    assert!(!plugin.enable_mouse_capture);
    assert!(!plugin.enable_input_forwarding);
}

#[test]
fn group_adds_crossterm_plugin_with_its_settings() {
    let group = RatatuiPlugins {
        enable_kitty_protocol: false,
        enable_mouse_capture: true,
        enable_input_forwarding: true,
    };
    let members = group.build(features(true, false, true, true));
    assert_eq!(
        members,
        vec![GroupMember::Crossterm(CrosstermPlugin {
            enable_kitty_protocol: false,
            enable_mouse_capture: true,
            enable_input_forwarding: true,
        })]
    );
}

#[test]
fn default_group_member_is_default_plugin() {
    let members = RatatuiPlugins::default().build(features(true, false, false, false));
    assert_eq!(members, vec![GroupMember::Crossterm(CrosstermPlugin::default())]);
}

#[test]
fn windowed_group_holds_the_windowed_plugin() {
    let group = RatatuiPlugins::default();
    assert_eq!(group.build(features(true, true, true, true)), vec![GroupMember::Windowed]);
    assert_eq!(group.build(features(false, true, false, false)), vec![GroupMember::Windowed]);
}

#[test]
fn group_without_backend_is_empty() {
    let group = RatatuiPlugins::default();
    assert!(group.build(features(false, false, true, true)).is_empty());
}

#[test]
fn default_plugin_adds_core_and_kitty() {
    let plugins = CrosstermPlugin::default().build(features(true, false, true, true));
    assert_eq!(
        plugins,
        vec![PluginKind::Cleanup, PluginKind::Error, PluginKind::Event, PluginKind::Kitty]
    );
}

#[test]
fn plugin_with_everything_enabled() {
    let plugin = CrosstermPlugin {
        enable_kitty_protocol: true,
        enable_mouse_capture: true,
        enable_input_forwarding: true,
    };
    assert_eq!(
        plugin.build(features(true, false, true, true)),
        vec![
            PluginKind::Cleanup,
            PluginKind::Error,
            PluginKind::Event,
            PluginKind::Kitty,
            PluginKind::Mouse,
            PluginKind::Translation,
        ]
    );
}

#[test]
fn plugin_settings_need_their_features() {
    let plugin = CrosstermPlugin {
        enable_kitty_protocol: false,
        enable_mouse_capture: true,
        enable_input_forwarding: true,
    };
    assert_eq!(
        plugin.build(features(true, false, false, false)),
        vec![PluginKind::Cleanup, PluginKind::Error, PluginKind::Event]
    );
    assert_eq!(
        plugin.build(features(true, false, false, true)),
        vec![PluginKind::Cleanup, PluginKind::Error, PluginKind::Event, PluginKind::Mouse]
    );
    assert_eq!(
        plugin.build(features(true, false, true, false)),
        vec![PluginKind::Cleanup, PluginKind::Error, PluginKind::Event, PluginKind::Translation]
    );
}

#[test]
fn configured_group_with_all_features() {
    let group = RatatuiPlugins::default();
    assert_eq!(
        configure_plugin_group(&group, features(true, false, true, true)),
        vec![
            entry(PluginKind::Cleanup, true),
            entry(PluginKind::Error, true),
            entry(PluginKind::Event, true),
            entry(PluginKind::Kitty, true),
            entry(PluginKind::Mouse, false),
            entry(PluginKind::Translation, false),
        ]
    );
}

#[test]
fn configured_group_disables_kitty() {
    let group = RatatuiPlugins {
        enable_kitty_protocol: false,
        enable_mouse_capture: true,
        enable_input_forwarding: false,
    };
    assert_eq!(
        configure_plugin_group(&group, features(true, false, false, true)),
        vec![
            entry(PluginKind::Cleanup, true),
            entry(PluginKind::Error, true),
            entry(PluginKind::Event, true),
            entry(PluginKind::Kitty, false),
            entry(PluginKind::Mouse, true),
        ]
    );
}

#[test]
fn configured_group_without_optional_features() {
    let group = RatatuiPlugins {
        enable_kitty_protocol: true,
        enable_mouse_capture: true,
        enable_input_forwarding: true,
    };
    assert_eq!(
        configure_plugin_group(&group, features(true, false, false, false)),
        vec![
            entry(PluginKind::Cleanup, true),
            entry(PluginKind::Error, true),
            entry(PluginKind::Event, true),
            entry(PluginKind::Kitty, true),
        ]
    );
}

#[test]
fn configured_group_runs_what_the_plugin_adds() {
    for bits in 0u8..32 {
        let group = RatatuiPlugins {
            enable_kitty_protocol: bits & 1 != 0,
            enable_mouse_capture: bits & 2 != 0,
            enable_input_forwarding: bits & 4 != 0,
        };
        let f = features(true, false, bits & 8 != 0, bits & 16 != 0);
        let plugin = CrosstermPlugin {
            enable_kitty_protocol: group.enable_kitty_protocol,
            enable_mouse_capture: group.enable_mouse_capture,
            enable_input_forwarding: group.enable_input_forwarding,
        };
        assert_eq!(enabled(&configure_plugin_group(&group, f)), plugin.build(f));
    }
}

#[test]
fn no_plugin_is_added_twice() {
    let group = RatatuiPlugins {
        enable_kitty_protocol: true,
        enable_mouse_capture: true,
        enable_input_forwarding: true,
    };
    let entries = configure_plugin_group(&group, features(true, false, true, true));
    for (i, a) in entries.iter().enumerate() {
        for b in entries.iter().skip(i + 1) {
            assert_ne!(a.kind, b.kind);
        }
    }
}
