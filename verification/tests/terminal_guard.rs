use bevy_ratatui::crossterm_context::context::{ContextError, TerminalCommand, TerminalGuard};

#[test]
fn new_guard_owns_nothing() {
    let guard = TerminalGuard::new();
    assert!(!guard.is_initialized());
}

#[test]
fn first_init_sets_the_terminal_up() {
    let mut guard = TerminalGuard::new();
    let commands = guard.begin_init().unwrap();
    assert_eq!(
        commands,
        vec![TerminalCommand::EnterAlternateScreen, TerminalCommand::EnableRawMode]
    );
    assert!(guard.is_initialized());
}

#[test]
fn second_init_is_refused() {
    let mut guard = TerminalGuard::new();
    assert!(guard.begin_init().is_ok());
    assert_eq!(guard.begin_init(), Err(ContextError::AlreadyInitialized));
    assert!(guard.is_initialized());
}

#[test]
fn refusal_message() {
    assert_eq!(
        ContextError::AlreadyInitialized.message(),
        "Only one CrosstermContext can exist at a time"
    );
}

#[test]
fn restore_after_init_gives_the_terminal_back() {
    let mut guard = TerminalGuard::new();
    guard.begin_init().unwrap();
    assert_eq!(
        guard.begin_restore(),
        vec![
            TerminalCommand::LeaveAlternateScreen,
            TerminalCommand::ShowCursor,
            TerminalCommand::DisableRawMode,
        ]
    );
    assert!(!guard.is_initialized());
}

#[test]
fn restore_twice_runs_nothing_the_second_time() {
    let mut guard = TerminalGuard::new();
    guard.begin_init().unwrap();
    assert_eq!(guard.begin_restore().len(), 3);
    assert!(guard.begin_restore().is_empty());
    assert!(!guard.is_initialized());
}

#[test]
fn restore_without_context_runs_nothing() {
    let mut guard = TerminalGuard::new();
    assert!(guard.begin_restore().is_empty());
}

#[test]
fn init_again_after_restore() {
    let mut guard = TerminalGuard::new();
    guard.begin_init().unwrap();
    guard.begin_restore();
    assert_eq!(
        guard.begin_init(),
        Ok(vec![TerminalCommand::EnterAlternateScreen, TerminalCommand::EnableRawMode])
    );
}

#[test]
fn contexts_created_match_contexts_given_back() {
    let mut guard = TerminalGuard::new();
    let calls = [true, true, false, false, true, false, true, true, true, false];
    let mut granted = 0;
    let mut given_back = 0;
    for init in calls {
        if init {
            if guard.begin_init().is_ok() {
                granted += 1;
            }
        } else if !guard.begin_restore().is_empty() {
            given_back += 1;
        }
        let owned = if guard.is_initialized() { 1 } else { 0 };
        assert_eq!(granted, given_back + owned);
    }
    assert_eq!(granted, 3);
}

#[test]
fn a_restore_stands_between_granted_inits() {
    let mut guard = TerminalGuard::new();
    let calls = [true, true, false, true, true, false, false, true];
    let mut last_granted: Option<usize> = None;
    let mut restore_since = false;
    for (index, init) in calls.iter().enumerate() {
        if *init {
            if guard.begin_init().is_ok() {
                if last_granted.is_some() {
                    assert!(restore_since);
                }
                last_granted = Some(index);
                restore_since = false;
            }
        } else {
            guard.begin_restore();
            restore_since = true;
        }
        assert_eq!(guard.is_initialized(), *init);
    }
    assert_eq!(last_granted, Some(7));
}
