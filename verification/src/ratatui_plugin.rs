use vstd::prelude::*;

use crate::crossterm_context::CrosstermPlugin;
use crate::features::Features;

verus! {

/// A plugin group that includes all the plugins of the library.
#[derive(Clone, Copy, Debug, PartialEq, Eq, Structural)]
pub struct RatatuiPlugins {
    /// Use kitty protocol if available and enabled.
    pub enable_kitty_protocol: bool,
    /// Capture mouse if enabled.
    pub enable_mouse_capture: bool,
    /// Forwards terminal input events to the bevy input system if enabled.
    pub enable_input_forwarding: bool,
}

/// The default settings of the plugin group: kitty protocol on, mouse capture and input
/// forwarding off.
pub open spec fn default_group() -> RatatuiPlugins {
    RatatuiPlugins {
        enable_kitty_protocol: true,
        enable_mouse_capture: false,
        enable_input_forwarding: false,
    }
}

impl Default for RatatuiPlugins {
    /// Kitty protocol on, mouse capture and input forwarding off.
    fn default() -> (group: Self)
        ensures
            group == default_group(),
    {
        RatatuiPlugins {
            enable_kitty_protocol: true,
            enable_mouse_capture: false,
            enable_input_forwarding: false,
        }
    }
}

/// A member of the plugin group.
#[derive(Clone, Copy, Debug, PartialEq, Eq, Structural)]
pub enum GroupMember {
    /// The crossterm plugin, which draws to the terminal, with the group's settings.
    Crossterm(CrosstermPlugin),
    /// The windowed plugin, which renders the terminal into a window.
    Windowed,
}

impl RatatuiPlugins {
    /// The crossterm plugin that carries this group's three settings.
    pub open spec fn crossterm_plugin(self) -> CrosstermPlugin {
        CrosstermPlugin {
            enable_kitty_protocol: self.enable_kitty_protocol,
            enable_mouse_capture: self.enable_mouse_capture,
            enable_input_forwarding: self.enable_input_forwarding,
        }
    }

    /// The members of the group, in order: the crossterm plugin with the group's settings when the
    /// build draws through crossterm and not into a window; the windowed plugin when the build
    /// renders into a window.
    pub open spec fn members(self, features: Features) -> Seq<GroupMember> {
        (if features.crossterm && !features.windowed {
            seq![GroupMember::Crossterm(self.crossterm_plugin())]
        } else {
            Seq::empty()
        }) + (if features.windowed {
            seq![GroupMember::Windowed]
        } else {
            Seq::empty()
        })
    }

    /// Builds the plugin group: its members, in the order in which they are added, all enabled.
    pub fn build(self, features: Features) -> (members: Vec<GroupMember>)
        ensures
            members@ == self.members(features),
    {
        let mut members: Vec<GroupMember> = Vec::new();
        if features.crossterm && !features.windowed {
            members.push(
                GroupMember::Crossterm(
                    CrosstermPlugin {
                        enable_kitty_protocol: self.enable_kitty_protocol,
                        enable_mouse_capture: self.enable_mouse_capture,
                        enable_input_forwarding: self.enable_input_forwarding,
                    },
                ),
            );
        }
        if features.windowed {
            members.push(GroupMember::Windowed);
        }
        assert(members@ =~= self.members(features));
        members
    }
}

/// The default plugin group is made of the crossterm plugin with its default settings where the
/// build draws through crossterm and not into a window, and of the windowed plugin where the build
/// renders into a window.
pub proof fn lemma_default_group_member_is_default_plugin(features: Features)
    ensures
        features.crossterm && !features.windowed ==> default_group().members(features) == seq![
            GroupMember::Crossterm(crate::crossterm_context::default_plugin()),
        ],
        features.windowed ==> default_group().members(features) == seq![GroupMember::Windowed],
        !features.crossterm && !features.windowed ==> default_group().members(features)
            == Seq::<GroupMember>::empty(),
{
    assert(features.crossterm && !features.windowed ==> default_group().members(features) =~= seq![
        GroupMember::Crossterm(crate::crossterm_context::default_plugin()),
    ]);
    assert(features.windowed ==> default_group().members(features) =~= seq![GroupMember::Windowed]);
    assert(!features.crossterm && !features.windowed ==> default_group().members(features)
        =~= Seq::<GroupMember>::empty());
}

/// The group hands each of its settings to the crossterm plugin unchanged: where the build draws
/// through crossterm and not into a window, the group's one member is the crossterm plugin whose
/// kitty protocol, mouse capture and input forwarding settings are the group's own, each to each.
/// Where the build renders into a window, the one member is the windowed plugin; where it does
/// neither, the group is empty.
pub proof fn lemma_group_passes_settings_through(group: RatatuiPlugins, features: Features)
    ensures
        features.crossterm && !features.windowed ==> {
            &&& group.members(features).len() == 1
            &&& group.members(features)[0] is Crossterm
            &&& group.members(features)[0]->Crossterm_0.enable_kitty_protocol
                == group.enable_kitty_protocol
            &&& group.members(features)[0]->Crossterm_0.enable_mouse_capture
                == group.enable_mouse_capture
            &&& group.members(features)[0]->Crossterm_0.enable_input_forwarding
                == group.enable_input_forwarding
        },
        features.windowed ==> group.members(features).len() == 1 && group.members(features)[0]
            is Windowed,
        !features.crossterm && !features.windowed ==> group.members(features).len() == 0,
{
}

} // verus!
