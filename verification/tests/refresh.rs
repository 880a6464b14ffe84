use erltop::metrics::{finish_get_system_version, CallError, FacadeError};
use erltop::session::RunError;
use erltop::term::Term;
use erltop::ui::{EventOutcome, InputEvent, KeyInput, LoopState, UiState};

fn key(c: char) -> InputEvent {
    InputEvent::Key(KeyInput::Char(c))
}

#[test]
fn quit_key_terminates_within_the_iteration() {
    let mut ui = UiState::new();
    let events = vec![key('p'), key('q'), InputEvent::Resize(80, 24), key('x')];
    let processed = ui.handle_events(&events);
    // The quit is seen in this very call; the queued events after it are
    // discarded unread.
    assert_eq!(processed, 2);
    assert_eq!(ui.state, LoopState::Terminating);
}

#[test]
fn without_a_quit_all_events_are_processed() {
    let mut ui = UiState::new();
    let events = vec![key('p'), InputEvent::Resize(80, 24), key('x'), InputEvent::Other];
    let processed = ui.handle_events(&events);
    assert_eq!(processed, events.len());
    assert_eq!(ui.state, LoopState::Running);
}

#[test]
fn resize_forces_a_redraw() {
    let mut ui = UiState::new();
    assert_eq!(ui.handle_event(InputEvent::Resize(120, 40)), EventOutcome::Redraw);
    assert_eq!(ui.state, LoopState::Running);
}

#[test]
fn navigation_keys_redraw_without_quitting() {
    let mut ui = UiState::new();
    assert_eq!(ui.handle_key_event(KeyInput::Char('p')), EventOutcome::Redraw);
    assert_eq!(ui.handle_key_event(KeyInput::Left), EventOutcome::Redraw);
    assert_eq!(ui.handle_key_event(KeyInput::Right), EventOutcome::Redraw);
    assert_eq!(ui.handle_key_event(KeyInput::Up), EventOutcome::Redraw);
    assert_eq!(ui.handle_key_event(KeyInput::Down), EventOutcome::Redraw);
    assert_eq!(ui.state, LoopState::Running);
}

#[test]
fn unknown_keys_are_ignored() {
    let mut ui = UiState::new();
    assert_eq!(ui.handle_key_event(KeyInput::Char('x')), EventOutcome::Ignore);
    assert_eq!(ui.handle_key_event(KeyInput::Other), EventOutcome::Ignore);
    assert_eq!(ui.handle_event(InputEvent::Other), EventOutcome::Ignore);
    assert_eq!(ui.state, LoopState::Running);
}

#[test]
fn fresh_metrics_replace_the_cache_and_clear_the_notice() {
    let mut ui = UiState::new();
    ui.on_metrics(Err(FacadeError::Call(CallError {
        message: String::from("timeout"),
    })));
    assert!(ui.notice.is_some());
    let banner = "Erlang/OTP 25\n";
    let bytes = banner.bytes().map(|b| Term::FixInteger(b as i32)).collect();
    ui.on_metrics(finish_get_system_version(Ok(Term::List(bytes))));
    assert_eq!(ui.version.as_ref().map(|v| v.get()), Some(banner));
    assert!(ui.notice.is_none());
    assert!(ui.wants_metrics());
}

#[test]
fn a_call_failure_keeps_the_cached_version() {
    let mut ui = UiState::new();
    let bytes = "Erlang/OTP 25\n".bytes().map(|b| Term::FixInteger(b as i32)).collect();
    ui.on_metrics(finish_get_system_version(Ok(Term::List(bytes))));
    ui.on_metrics(Err(FacadeError::Call(CallError {
        message: String::from("timeout"),
    })));
    assert!(ui.version.is_some());
    assert!(matches!(ui.notice, Some(FacadeError::Call(_))));
    // A transient call failure does not stop the refresh cadence.
    assert!(ui.wants_metrics());
}

#[test]
fn session_death_turns_refreshing_off() {
    let mut ui = UiState::new();
    ui.on_metrics(Err(FacadeError::SessionDown(RunError {
        message: String::from("driver exited"),
    })));
    assert!(!ui.wants_metrics());
    assert!(matches!(ui.notice, Some(FacadeError::SessionDown(_))));
    // The loop keeps running so the user sees the notice and can quit.
    assert_eq!(ui.state, LoopState::Running);
}
