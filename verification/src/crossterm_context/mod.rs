//! Drawing to the terminal through crossterm: the plugins that make it up and the context that
//! owns the terminal.

use vstd::prelude::*;

use crate::features::Features;

pub mod context;

verus! {

/// The plugins that the crossterm integration is made of.
///
/// `Cleanup` restores the terminal when the app exits, `Error` restores it before a panic is
/// reported, `Event` turns terminal input into messages, `Kitty` enables the kitty keyboard
/// protocol, `Mouse` captures the mouse and `Translation` forwards input to Bevy's input system.
#[derive(Clone, Copy, Debug, PartialEq, Eq, Structural)]
pub enum PluginKind {
    Cleanup,
    Error,
    Event,
    Kitty,
    Mouse,
    Translation,
}

/// A plugin that sets up the crossterm terminal context and its input handling.
#[derive(Clone, Copy, Debug, PartialEq, Eq, Structural)]
pub struct CrosstermPlugin {
    /// Use kitty protocol if available and enabled.
    pub enable_kitty_protocol: bool,
    /// Capture mouse if enabled.
    pub enable_mouse_capture: bool,
    /// Forwards terminal input events to the bevy input system if enabled.
    pub enable_input_forwarding: bool,
}

/// The default settings of the crossterm plugin: kitty protocol on, mouse capture and input
/// forwarding off.
pub open spec fn default_plugin() -> CrosstermPlugin {
    CrosstermPlugin {
        enable_kitty_protocol: true,
        enable_mouse_capture: false,
        enable_input_forwarding: false,
    }
}

impl Default for CrosstermPlugin {
    /// Kitty protocol on, mouse capture and input forwarding off.
    fn default() -> (plugin: Self)
        ensures
            plugin == default_plugin(),
    {
        CrosstermPlugin {
            enable_kitty_protocol: true,
            enable_mouse_capture: false,
            enable_input_forwarding: false,
        }
    }
}

/// The one-element sequence of `kind` when `present` holds, the empty one otherwise.
pub open spec fn optional_kind(present: bool, kind: PluginKind) -> Seq<PluginKind> {
    if present {
        seq![kind]
    } else {
        Seq::empty()
    }
}

impl CrosstermPlugin {
    /// The plugins that building this plugin adds to the app, in order: cleanup, error handling
    /// and events always; then the kitty protocol when it is enabled; mouse capture when the
    /// build has the mouse feature and capture is enabled; input forwarding when the build has
    /// the keyboard feature and forwarding is enabled.
    pub open spec fn added_plugins(self, features: Features) -> Seq<PluginKind> {
        seq![PluginKind::Cleanup, PluginKind::Error, PluginKind::Event]
            + optional_kind(self.enable_kitty_protocol, PluginKind::Kitty)
            + optional_kind(features.mouse && self.enable_mouse_capture, PluginKind::Mouse)
            + optional_kind(
            features.keyboard && self.enable_input_forwarding,
            PluginKind::Translation,
        )
    }

    /// Builds the plugin: the plugins to add to the app, in the order in which they are added.
    pub fn build(&self, features: Features) -> (plugins: Vec<PluginKind>)
        ensures
            plugins@ == self.added_plugins(features),
    {
        let mut plugins: Vec<PluginKind> = Vec::new();
        plugins.push(PluginKind::Cleanup);
        plugins.push(PluginKind::Error);
        plugins.push(PluginKind::Event);
        let ghost core = plugins@;
        if self.enable_kitty_protocol {
            plugins.push(PluginKind::Kitty);
        }
        let ghost with_kitty = plugins@;
        assert(with_kitty == core + optional_kind(self.enable_kitty_protocol, PluginKind::Kitty));
        if features.mouse && self.enable_mouse_capture {
            plugins.push(PluginKind::Mouse);
        }
        let ghost with_mouse = plugins@;
        assert(with_mouse == with_kitty + optional_kind(
            features.mouse && self.enable_mouse_capture,
            PluginKind::Mouse,
        ));
        if features.keyboard && self.enable_input_forwarding {
            plugins.push(PluginKind::Translation);
        }
        assert(plugins@ == with_mouse + optional_kind(
            features.keyboard && self.enable_input_forwarding,
            PluginKind::Translation,
        ));
        plugins
    }
}

/// Building the crossterm plugin adds no plugin twice, and always adds cleanup, error handling
/// and events first, in that order.
pub proof fn lemma_added_plugins_distinct(plugin: CrosstermPlugin, features: Features)
    ensures
        plugin.added_plugins(features).no_duplicates(),
        plugin.added_plugins(features).subrange(0, 3) == seq![
            PluginKind::Cleanup,
            PluginKind::Error,
            PluginKind::Event,
        ],
{
    let kinds = plugin.added_plugins(features);
    assert(kinds.subrange(0, 3) =~= seq![PluginKind::Cleanup, PluginKind::Error, PluginKind::Event]);
    assert forall|i: int, j: int| 0 <= i < kinds.len() && 0 <= j < kinds.len() && i != j implies kinds[i]
        != kinds[j] by {
        let k = optional_kind(plugin.enable_kitty_protocol, PluginKind::Kitty);
        let m = optional_kind(features.mouse && plugin.enable_mouse_capture, PluginKind::Mouse);
        let t = optional_kind(
            features.keyboard && plugin.enable_input_forwarding,
            PluginKind::Translation,
        );
        assert(kinds =~= seq![PluginKind::Cleanup, PluginKind::Error, PluginKind::Event] + k + m + t);
        assert(forall|x: int| 0 <= x < k.len() ==> k[x] == PluginKind::Kitty);
        assert(forall|x: int| 0 <= x < m.len() ==> m[x] == PluginKind::Mouse);
        assert(forall|x: int| 0 <= x < t.len() ==> t[x] == PluginKind::Translation);
    }
}

/// The place of each kind of plugin in the order in which the crossterm integration adds them.
pub open spec fn kind_rank(kind: PluginKind) -> int {
    match kind {
        PluginKind::Cleanup => 0,
        PluginKind::Error => 1,
        PluginKind::Event => 2,
        PluginKind::Kitty => 3,
        PluginKind::Mouse => 4,
        PluginKind::Translation => 5,
    }
}

/// Building the crossterm plugin adds cleanup, error handling and events always; the kitty
/// protocol exactly when it is enabled; mouse capture exactly when the build has the mouse
/// feature and capture is enabled; input forwarding exactly when the build has the keyboard
/// feature and forwarding is enabled; each at most once, in the order cleanup, error, event,
/// kitty, mouse, translation.
pub proof fn lemma_added_plugins_follow_settings(plugin: CrosstermPlugin, features: Features)
    ensures
        plugin.added_plugins(features).contains(PluginKind::Cleanup),
        plugin.added_plugins(features).contains(PluginKind::Error),
        plugin.added_plugins(features).contains(PluginKind::Event),
        plugin.added_plugins(features).contains(PluginKind::Kitty) <==> plugin.enable_kitty_protocol,
        plugin.added_plugins(features).contains(PluginKind::Mouse) <==> (features.mouse
            && plugin.enable_mouse_capture),
        plugin.added_plugins(features).contains(PluginKind::Translation) <==> (features.keyboard
            && plugin.enable_input_forwarding),
        forall|i: int, j: int|
            0 <= i < j < plugin.added_plugins(features).len() ==> kind_rank(
                #[trigger] plugin.added_plugins(features)[i],
            ) < kind_rank(#[trigger] plugin.added_plugins(features)[j]),
{
    let ks = plugin.added_plugins(features);
    let k = plugin.enable_kitty_protocol;
    let m = features.mouse && plugin.enable_mouse_capture;
    let t = features.keyboard && plugin.enable_input_forwarding;
    let c = seq![PluginKind::Cleanup, PluginKind::Error, PluginKind::Event];
    let full = c + (if k { seq![PluginKind::Kitty] } else { Seq::empty() }) + (if m {
        seq![PluginKind::Mouse]
    } else {
        Seq::empty()
    }) + (if t { seq![PluginKind::Translation] } else { Seq::empty() });
    assert(ks =~= full);
    assert(ks[0] == PluginKind::Cleanup);
    assert(ks[1] == PluginKind::Error);
    assert(ks[2] == PluginKind::Event);
    if k {
        assert(ks[3] == PluginKind::Kitty);
    }
    if m {
        assert(ks[3 + (if k { 1int } else { 0int })] == PluginKind::Mouse);
    }
    if t {
        assert(ks[3 + (if k { 1int } else { 0int }) + (if m { 1int } else { 0int })]
            == PluginKind::Translation);
    }
    assert forall|i: int, j: int| 0 <= i < j < ks.len() implies kind_rank(ks[i]) < kind_rank(
        ks[j],
    ) by {
        assert(ks =~= full);
    }
}

} // verus!
