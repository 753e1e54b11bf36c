//! The terminal context: which plugins it configures, and the guard that lets only one context
//! own the terminal at a time.

use vstd::prelude::*;

use super::{kind_rank, PluginKind};
use crate::features::Features;
use crate::ratatui_plugin::RatatuiPlugins;

verus! {

/// A plugin of a plugin group and whether the group runs it.
#[derive(Clone, Copy, Debug, PartialEq, Eq, Structural)]
pub struct PluginEntry {
    pub kind: PluginKind,
    pub enabled: bool,
}

/// The one-element sequence of the entry `(kind, enabled)` when `present` holds, the empty one
/// otherwise.
pub open spec fn optional_entry(present: bool, kind: PluginKind, enabled: bool) -> Seq<PluginEntry> {
    if present {
        seq![PluginEntry { kind, enabled }]
    } else {
        Seq::empty()
    }
}

/// The entries that the terminal context adds to a plugin group, in order: cleanup, error
/// handling and events, all enabled; the kitty protocol, enabled as the group says; mouse
/// capture when the build has the mouse feature, enabled as the group says; input forwarding
/// when the build has the keyboard feature, enabled as the group says.
pub open spec fn configured_plugins(group: RatatuiPlugins, features: Features) -> Seq<PluginEntry> {
    seq![
        PluginEntry { kind: PluginKind::Cleanup, enabled: true },
        PluginEntry { kind: PluginKind::Error, enabled: true },
        PluginEntry { kind: PluginKind::Event, enabled: true },
        PluginEntry { kind: PluginKind::Kitty, enabled: group.enable_kitty_protocol },
    ] + optional_entry(features.mouse, PluginKind::Mouse, group.enable_mouse_capture)
        + optional_entry(features.keyboard, PluginKind::Translation, group.enable_input_forwarding)
}

/// The kinds of the enabled entries, in their order.
pub open spec fn enabled_kinds(entries: Seq<PluginEntry>) -> Seq<PluginKind>
    decreases entries.len(),
{
    if entries.len() == 0 {
        Seq::empty()
    } else {
        let rest = enabled_kinds(entries.drop_last());
        if entries.last().enabled {
            rest.push(entries.last().kind)
        } else {
            rest
        }
    }
}

/// Adds the terminal context's plugins to a plugin group configured by `group`: every plugin is
/// added, and those that the group's settings switch off are added disabled.
pub fn configure_plugin_group(group: &RatatuiPlugins, features: Features) -> (entries: Vec<
    PluginEntry,
>)
    ensures
        entries@ == configured_plugins(*group, features),
{
    let mut entries: Vec<PluginEntry> = Vec::new();
    entries.push(PluginEntry { kind: PluginKind::Cleanup, enabled: true });
    entries.push(PluginEntry { kind: PluginKind::Error, enabled: true });
    entries.push(PluginEntry { kind: PluginKind::Event, enabled: true });
    entries.push(PluginEntry { kind: PluginKind::Kitty, enabled: group.enable_kitty_protocol });
    let ghost core = entries@;
    if features.mouse {
        entries.push(PluginEntry { kind: PluginKind::Mouse, enabled: group.enable_mouse_capture });
    }
    let ghost with_mouse = entries@;
    assert(with_mouse == core + optional_entry(
        features.mouse,
        PluginKind::Mouse,
        group.enable_mouse_capture,
    ));
    if features.keyboard {
        entries.push(
            PluginEntry { kind: PluginKind::Translation, enabled: group.enable_input_forwarding },
        );
    }
    assert(entries@ == with_mouse + optional_entry(
        features.keyboard,
        PluginKind::Translation,
        group.enable_input_forwarding,
    ));
    entries
}

/// The enabled kinds of two runs of entries, one after the other, are those of the first run
/// followed by those of the second.
pub proof fn lemma_enabled_kinds_concat(a: Seq<PluginEntry>, b: Seq<PluginEntry>)
    ensures
        enabled_kinds(a + b) == enabled_kinds(a) + enabled_kinds(b),
    decreases b.len(),
{
    if b.len() == 0 {
        assert(a + b =~= a);
        assert(enabled_kinds(a) + enabled_kinds(b) =~= enabled_kinds(a));
    } else {
        lemma_enabled_kinds_concat(a, b.drop_last());
        assert((a + b).drop_last() =~= a + b.drop_last());
        assert((a + b).last() == b.last());
        if b.last().enabled {
            assert(enabled_kinds(a) + enabled_kinds(b.drop_last()).push(b.last().kind) =~= (
            enabled_kinds(a) + enabled_kinds(b.drop_last())).push(b.last().kind));
        }
    }
}

/// The enabled kinds of an optional entry.
proof fn lemma_enabled_kinds_optional(present: bool, kind: PluginKind, enabled: bool)
    ensures
        enabled_kinds(optional_entry(present, kind, enabled)) == super::optional_kind(
            present && enabled,
            kind,
        ),
{
    let e = optional_entry(present, kind, enabled);
    if present {
        assert(e.drop_last() =~= Seq::<PluginEntry>::empty());
        assert(enabled_kinds(e.drop_last()) =~= Seq::<PluginKind>::empty());
        if enabled {
            assert(Seq::<PluginKind>::empty().push(kind) =~= seq![kind]);
        }
    }
}

/// A plugin group configured by the terminal context runs exactly the plugins, in the same
/// order, that the crossterm plugin with the same three settings adds to the app.
pub proof fn lemma_configured_group_runs_crossterm_plugins(group: RatatuiPlugins, features: Features)
    ensures
        enabled_kinds(configured_plugins(group, features)) == group.crossterm_plugin().added_plugins(
            features,
        ),
{
    let core = seq![
        PluginEntry { kind: PluginKind::Cleanup, enabled: true },
        PluginEntry { kind: PluginKind::Error, enabled: true },
        PluginEntry { kind: PluginKind::Event, enabled: true },
    ];
    let kitty = optional_entry(true, PluginKind::Kitty, group.enable_kitty_protocol);
    let mouse = optional_entry(features.mouse, PluginKind::Mouse, group.enable_mouse_capture);
    let keyboard = optional_entry(
        features.keyboard,
        PluginKind::Translation,
        group.enable_input_forwarding,
    );
    assert(configured_plugins(group, features) =~= core + kitty + mouse + keyboard);
    reveal_with_fuel(enabled_kinds, 4);
    assert(core.drop_last().drop_last().drop_last() =~= Seq::<PluginEntry>::empty());
    assert(core.drop_last().drop_last() =~= seq![
        PluginEntry { kind: PluginKind::Cleanup, enabled: true },
    ]);
    assert(core.drop_last() =~= seq![
        PluginEntry { kind: PluginKind::Cleanup, enabled: true },
        PluginEntry { kind: PluginKind::Error, enabled: true },
    ]);
    assert(enabled_kinds(core) =~= seq![PluginKind::Cleanup, PluginKind::Error, PluginKind::Event]);
    lemma_enabled_kinds_concat(core, kitty);
    lemma_enabled_kinds_concat(core + kitty, mouse);
    lemma_enabled_kinds_concat(core + kitty + mouse, keyboard);
    lemma_enabled_kinds_optional(true, PluginKind::Kitty, group.enable_kitty_protocol);
    lemma_enabled_kinds_optional(features.mouse, PluginKind::Mouse, group.enable_mouse_capture);
    lemma_enabled_kinds_optional(
        features.keyboard,
        PluginKind::Translation,
        group.enable_input_forwarding,
    );
    assert(super::optional_kind(group.enable_kitty_protocol, PluginKind::Kitty)
        == super::optional_kind(true && group.enable_kitty_protocol, PluginKind::Kitty));
}

/// No plugin is added twice to a plugin group configured by the terminal context, so every
/// entry keeps the place and the setting that the configuration gives it.
pub proof fn lemma_configured_plugins_distinct(group: RatatuiPlugins, features: Features)
    ensures
        configured_plugins(group, features).map_values(|e: PluginEntry| e.kind).no_duplicates(),
{
    let kinds = configured_plugins(group, features).map_values(|e: PluginEntry| e.kind);
    assert forall|i: int, j: int| 0 <= i < kinds.len() && 0 <= j < kinds.len() && i != j implies kinds[i]
        != kinds[j] by {
        let es = configured_plugins(group, features);
        if features.mouse && features.keyboard {
            assert(es[4].kind == PluginKind::Mouse);
            assert(es[5].kind == PluginKind::Translation);
        } else if features.mouse {
            assert(es[4].kind == PluginKind::Mouse);
        } else if features.keyboard {
            assert(es[4].kind == PluginKind::Translation);
        }
    }
}

/// The terminal commands that claiming the terminal runs, in order.
#[derive(Clone, Copy, Debug, PartialEq, Eq, Structural)]
pub enum TerminalCommand {
    EnterAlternateScreen,
    EnableRawMode,
    LeaveAlternateScreen,
    ShowCursor,
    DisableRawMode,
}

/// Why a terminal context could not be created.
#[derive(Clone, Copy, Debug, PartialEq, Eq, Structural)]
pub enum ContextError {
    /// Another context owns the terminal.
    AlreadyInitialized,
}

impl ContextError {
    /// The message that reports the error.
    pub fn message(&self) -> (text: &'static str)
        ensures
            text@ == "Only one CrosstermContext can exist at a time"@,
    {
        match self {
            ContextError::AlreadyInitialized => "Only one CrosstermContext can exist at a time",
        }
    }
}

/// The commands that set the terminal up for a context: the alternate screen, then raw mode.
pub open spec fn init_commands() -> Seq<TerminalCommand> {
    seq![TerminalCommand::EnterAlternateScreen, TerminalCommand::EnableRawMode]
}

/// The commands that give the terminal back: leave the alternate screen, show the cursor, leave
/// raw mode.
pub open spec fn restore_commands() -> Seq<TerminalCommand> {
    seq![
        TerminalCommand::LeaveAlternateScreen,
        TerminalCommand::ShowCursor,
        TerminalCommand::DisableRawMode,
    ]
}

/// What creating a context decides when the terminal is (`initialized`) or is not owned: refuse,
/// or set the terminal up with the commands of `init_commands`.
pub open spec fn init_outcome(initialized: bool) -> Result<Seq<TerminalCommand>, ContextError> {
    if initialized {
        Err(ContextError::AlreadyInitialized)
    } else {
        Ok(init_commands())
    }
}

/// What restoring the terminal runs when it is (`initialized`) or is not owned: the commands of
/// `restore_commands`, or nothing.
pub open spec fn restore_outcome(initialized: bool) -> Seq<TerminalCommand> {
    if initialized {
        restore_commands()
    } else {
        Seq::empty()
    }
}

/// Whether a terminal context owns the terminal.
///
/// Creating a context claims the terminal, and the claim stands until the terminal is restored,
/// also where setting the terminal up fails afterwards.
pub struct TerminalGuard {
    initialized: bool,
}

impl View for TerminalGuard {
    type V = bool;

    closed spec fn view(&self) -> bool {
        self.initialized
    }
}

impl TerminalGuard {
    /// A guard under which no context owns the terminal.
    pub fn new() -> (guard: Self)
        ensures
            !guard@,
    {
        TerminalGuard { initialized: false }
    }

    /// Whether a context owns the terminal.
    pub fn is_initialized(&self) -> (initialized: bool)
        ensures
            initialized == self@,
    {
        self.initialized
    }

    /// Claims the terminal for a new context: refused where a context owns it already, else the
    /// commands that set the terminal up. The terminal is owned afterwards either way.
    pub fn begin_init(&mut self) -> (outcome: Result<Vec<TerminalCommand>, ContextError>)
        ensures
            final(self)@ == owned_after(old(self)@, seq![GuardCall::Init]),
            final(self)@,
            match outcome {
                Ok(commands) => init_outcome(old(self)@) == Ok::<Seq<TerminalCommand>, ContextError>(
                    commands@,
                ),
                Err(e) => init_outcome(old(self)@) == Err::<Seq<TerminalCommand>, ContextError>(e),
            },
    {
        let was_initialized = self.initialized;
        self.initialized = true;
        if was_initialized {
            return Err(ContextError::AlreadyInitialized);
        }
        let mut commands: Vec<TerminalCommand> = Vec::new();
        commands.push(TerminalCommand::EnterAlternateScreen);
        commands.push(TerminalCommand::EnableRawMode);
        assert(commands@ =~= init_commands());
        Ok(commands)
    }

    /// Gives the terminal back: the commands that restore it where a context owned it, none
    /// otherwise. No context owns the terminal afterwards.
    pub fn begin_restore(&mut self) -> (commands: Vec<TerminalCommand>)
        ensures
            final(self)@ == owned_after(old(self)@, seq![GuardCall::Restore]),
            !final(self)@,
            commands@ == restore_outcome(old(self)@),
    {
        let was_initialized = self.initialized;
        self.initialized = false;
        let mut commands: Vec<TerminalCommand> = Vec::new();
        if was_initialized {
            commands.push(TerminalCommand::LeaveAlternateScreen);
            commands.push(TerminalCommand::ShowCursor);
            commands.push(TerminalCommand::DisableRawMode);
        }
        assert(commands@ =~= restore_outcome(was_initialized));
        commands
    }
}

/// A call on the terminal guard: creating a context, or restoring the terminal.
#[derive(Clone, Copy, Debug, PartialEq, Eq, Structural)]
pub enum GuardCall {
    Init,
    Restore,
}

/// Whether a context owns the terminal after `calls`, starting where `initialized` says: a
/// creation always leaves it owned, a restore always leaves it free.
pub open spec fn owned_after(initialized: bool, calls: Seq<GuardCall>) -> bool
    decreases calls.len(),
{
    if calls.len() == 0 {
        initialized
    } else {
        match calls.last() {
            GuardCall::Init => true,
            GuardCall::Restore => false,
        }
    }
}

/// How many of `calls` created a context: the creations that `init_outcome` did not refuse.
pub open spec fn granted_inits(initialized: bool, calls: Seq<GuardCall>) -> nat
    decreases calls.len(),
{
    if calls.len() == 0 {
        0
    } else {
        let before = owned_after(initialized, calls.drop_last());
        granted_inits(initialized, calls.drop_last()) + if calls.last() == GuardCall::Init
            && init_outcome(before) is Ok {
            1nat
        } else {
            0nat
        }
    }
}

/// How many of `calls` gave the terminal back: the restores that ran the commands of
/// `restore_outcome`.
pub open spec fn effective_restores(initialized: bool, calls: Seq<GuardCall>) -> nat
    decreases calls.len(),
{
    if calls.len() == 0 {
        0
    } else {
        let before = owned_after(initialized, calls.drop_last());
        effective_restores(initialized, calls.drop_last()) + if calls.last() == GuardCall::Restore
            && restore_outcome(before).len() > 0 {
            1nat
        } else {
            0nat
        }
    }
}

/// Only one context exists at a time: over any run of creations and restores from a free
/// terminal, each created context is given back by a restore before the next one is created,
/// so the contexts created are those given back plus the one that owns the terminal, if any.
pub proof fn lemma_one_context_at_a_time(calls: Seq<GuardCall>)
    ensures
        granted_inits(false, calls) == effective_restores(false, calls) + if owned_after(
            false,
            calls,
        ) {
            1nat
        } else {
            0nat
        },
    decreases calls.len(),
{
    if calls.len() > 0 {
        lemma_one_context_at_a_time(calls.drop_last());
    }
}

/// A refused creation leaves the terminal with the context that owns it: creating a context
/// where one exists is refused, and the terminal stays owned.
pub proof fn lemma_second_init_refused(initialized: bool)
    ensures
        owned_after(initialized, seq![GuardCall::Init]),
        init_outcome(owned_after(initialized, seq![GuardCall::Init])) == Err::<
            Seq<TerminalCommand>,
            ContextError,
        >(ContextError::AlreadyInitialized),
{
}

/// Restoring gives the terminal back once: the first restore after a creation runs the restore
/// commands, a second runs nothing, and a creation after it is granted again.
pub proof fn lemma_restore_once_then_init_again(initialized: bool)
    ensures
        restore_outcome(owned_after(initialized, seq![GuardCall::Init])) == restore_commands(),
        restore_outcome(owned_after(initialized, seq![GuardCall::Init, GuardCall::Restore]))
            == Seq::<TerminalCommand>::empty(),
        init_outcome(owned_after(initialized, seq![GuardCall::Init, GuardCall::Restore])) == Ok::<
            Seq<TerminalCommand>,
            ContextError,
        >(init_commands()),
{
}

/// Whether the call at `index` of `calls` created a context: it is a creation, and no context
/// owned the terminal before it.
pub open spec fn granted_at(initialized: bool, calls: Seq<GuardCall>, index: int) -> bool {
    &&& 0 <= index < calls.len()
    &&& calls[index] == GuardCall::Init
    &&& init_outcome(owned_after(initialized, calls.take(index))) is Ok
}

/// Over any run of creations and restores from a free terminal, between two creations that are
/// granted there is a restore, so before the first restore, and between any two restores, at most
/// one creation is granted.
pub proof fn lemma_restore_between_granted_inits(calls: Seq<GuardCall>, i: int, j: int)
    requires
        i < j,
        granted_at(false, calls, i),
        granted_at(false, calls, j),
    ensures
        exists|k: int| i < k < j && calls[k] == GuardCall::Restore,
{
    let before = calls.take(j);
    assert(before.len() > 0);
    assert(before.last() == calls[j - 1]);
    if calls[j - 1] == GuardCall::Init {
        assert(owned_after(false, before));
        assert(false);
    }
    assert(i < j - 1);
    assert(calls[j - 1] == GuardCall::Restore);
}

/// After any run of creations and restores from a free terminal, a context owns the terminal
/// exactly when the last call was a creation.
pub proof fn lemma_owned_after_last_call(calls: Seq<GuardCall>)
    ensures
        owned_after(false, calls) == (calls.len() > 0 && calls.last() == GuardCall::Init),
{
}

/// The group's setting that decides whether the plugin of `kind` runs: cleanup, error handling
/// and events always run, the kitty protocol, mouse capture and input forwarding each run as
/// their own setting says.
pub open spec fn setting_for(group: RatatuiPlugins, kind: PluginKind) -> bool {
    match kind {
        PluginKind::Cleanup | PluginKind::Error | PluginKind::Event => true,
        PluginKind::Kitty => group.enable_kitty_protocol,
        PluginKind::Mouse => group.enable_mouse_capture,
        PluginKind::Translation => group.enable_input_forwarding,
    }
}

/// Which plugins the terminal context adds to a group does not depend on the group's settings:
/// cleanup, error handling, events and the kitty protocol always, mouse capture exactly when the
/// build has the mouse feature, input forwarding exactly when it has the keyboard feature; each
/// once, in the order cleanup, error, event, kitty, mouse, translation. The settings decide only
/// which of them are enabled: each one's own setting, and always for cleanup, error and events.
pub proof fn lemma_configured_kinds_follow_features(group: RatatuiPlugins, features: Features)
    ensures
        configured_plugins(group, features).map_values(|e: PluginEntry| e.kind).contains(
            PluginKind::Cleanup,
        ),
        configured_plugins(group, features).map_values(|e: PluginEntry| e.kind).contains(
            PluginKind::Error,
        ),
        configured_plugins(group, features).map_values(|e: PluginEntry| e.kind).contains(
            PluginKind::Event,
        ),
        configured_plugins(group, features).map_values(|e: PluginEntry| e.kind).contains(
            PluginKind::Kitty,
        ),
        configured_plugins(group, features).map_values(|e: PluginEntry| e.kind).contains(
            PluginKind::Mouse,
        ) <==> features.mouse,
        configured_plugins(group, features).map_values(|e: PluginEntry| e.kind).contains(
            PluginKind::Translation,
        ) <==> features.keyboard,
        forall|i: int, j: int|
            0 <= i < j < configured_plugins(group, features).len() ==> kind_rank(
                #[trigger] configured_plugins(group, features)[i].kind,
            ) < kind_rank(#[trigger] configured_plugins(group, features)[j].kind),
        forall|i: int|
            0 <= i < configured_plugins(group, features).len() ==> #[trigger] configured_plugins(
                group,
                features,
            )[i].enabled == setting_for(group, configured_plugins(group, features)[i].kind),
{
    let es = configured_plugins(group, features);
    let ks = es.map_values(|e: PluginEntry| e.kind);
    let m = features.mouse;
    let t = features.keyboard;
    let full = seq![
        PluginEntry { kind: PluginKind::Cleanup, enabled: true },
        PluginEntry { kind: PluginKind::Error, enabled: true },
        PluginEntry { kind: PluginKind::Event, enabled: true },
        PluginEntry { kind: PluginKind::Kitty, enabled: group.enable_kitty_protocol },
    ] + (if m {
        seq![PluginEntry { kind: PluginKind::Mouse, enabled: group.enable_mouse_capture }]
    } else {
        Seq::empty()
    }) + (if t {
        seq![PluginEntry { kind: PluginKind::Translation, enabled: group.enable_input_forwarding }]
    } else {
        Seq::empty()
    });
    assert(es =~= full);
    let kfull = seq![PluginKind::Cleanup, PluginKind::Error, PluginKind::Event, PluginKind::Kitty]
        + (if m { seq![PluginKind::Mouse] } else { Seq::empty() }) + (if t {
        seq![PluginKind::Translation]
    } else {
        Seq::empty()
    });
    assert(ks =~= kfull);
    assert(ks[0] == PluginKind::Cleanup);
    assert(ks[1] == PluginKind::Error);
    assert(ks[2] == PluginKind::Event);
    assert(ks[3] == PluginKind::Kitty);
    if m {
        assert(ks[4] == PluginKind::Mouse);
    }
    if t {
        assert(ks[4 + (if m { 1int } else { 0int })] == PluginKind::Translation);
    }
    assert forall|i: int, j: int| 0 <= i < j < es.len() implies kind_rank(es[i].kind) < kind_rank(
        es[j].kind,
    ) by {
        assert(es =~= full);
    }
    assert forall|i: int| 0 <= i < es.len() implies #[trigger] es[i].enabled == setting_for(
        group,
        es[i].kind,
    ) by {
        assert(es =~= full);
    }
}

} // verus!
