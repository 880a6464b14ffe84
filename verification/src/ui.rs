//! The refresh loop's state machine.
//!
//! The foreground loop polls queued input events, redraws at a fixed cadence
//! and, on a longer cadence, refreshes metrics. The decisions — which event
//! quits, which forces a redraw, what a metrics outcome does to the cached
//! view state — are made here; the caller that owns the terminal performs
//! the drawing, polling and sleeping around them.
//!
//! The loop has two states, `Running` and `Terminating`; the only transition
//! to `Terminating` is an explicit quit input, and there is none back.

use vstd::prelude::*;

verus! {

use crate::metrics::{SystemVersion, FacadeError};

/// A keyboard key, as far as the loop distinguishes keys.
#[derive(Clone, Copy, Debug, PartialEq, Eq, Structural)]
pub enum KeyInput {
    Char(char),
    Left,
    Right,
    Up,
    Down,
    Other,
}

/// An input event the terminal delivers.
#[derive(Clone, Copy, Debug, PartialEq, Eq, Structural)]
pub enum InputEvent {
    Key(KeyInput),
    Resize(u16, u16),
    Other,
}

/// The two states of the refresh loop.
#[derive(Clone, Copy, Debug, PartialEq, Eq, Structural)]
pub enum LoopState {
    Running,
    Terminating,
}

/// What one event asks of the loop.
#[derive(Clone, Copy, Debug, PartialEq, Eq, Structural)]
pub enum EventOutcome {
    /// Stop the loop, discarding any events still queued.
    Quit,
    /// Redraw at once from the cached view state.
    Redraw,
    /// Nothing.
    Ignore,
}

/// What a key asks of the loop: `q` quits; `p` and the arrow keys update the
/// view and force a redraw; every other key is ignored.
pub open spec fn key_outcome(k: KeyInput) -> EventOutcome {
    match k {
        KeyInput::Char(c) => if c == 'q' {
            EventOutcome::Quit
        } else if c == 'p' {
            EventOutcome::Redraw
        } else {
            EventOutcome::Ignore
        },
        KeyInput::Left => EventOutcome::Redraw,
        KeyInput::Right => EventOutcome::Redraw,
        KeyInput::Up => EventOutcome::Redraw,
        KeyInput::Down => EventOutcome::Redraw,
        KeyInput::Other => EventOutcome::Ignore,
    }
}

/// What an event asks of the loop: keys as above; a resize forces an
/// immediate redraw from the latest known state; other events are ignored.
pub open spec fn event_outcome(e: InputEvent) -> EventOutcome {
    match e {
        InputEvent::Key(k) => key_outcome(k),
        InputEvent::Resize(_, _) => EventOutcome::Redraw,
        InputEvent::Other => EventOutcome::Ignore,
    }
}

/// Some event in the sequence asks the loop to quit.
pub open spec fn has_quit(es: Seq<InputEvent>) -> bool {
    exists|i: int| 0 <= i < es.len() && event_outcome(#[trigger] es[i]) == EventOutcome::Quit
}

/// The view state the loop redraws from, and the loop's own state.
pub struct UiState {
    /// Whether the loop keeps running.
    pub state: LoopState,
    /// The last successfully fetched version banner.
    pub version: Option<SystemVersion>,
    /// The last failure to display inline, if the latest refresh failed.
    pub notice: Option<FacadeError>,
    /// The session's driver is known dead: stop refreshing, show a terminal
    /// notice and an explicit quit path instead.
    pub session_dead: bool,
}

impl UiState {
    /// A fresh view state for a loop about to start.
    pub fn new() -> (s: Self)
        ensures
            s.state == LoopState::Running,
            s.version is None,
            s.notice is None,
            !s.session_dead,
    {
        UiState { state: LoopState::Running, version: None, notice: None, session_dead: false }
    }

    /// Decide one key: report what the key asks, and enter `Terminating` on
    /// a quit key.
    pub fn handle_key_event(&mut self, k: KeyInput) -> (r: EventOutcome)
        requires
            old(self).state == LoopState::Running,
        ensures
            r == key_outcome(k),
            final(self).state == if r == EventOutcome::Quit {
                LoopState::Terminating
            } else {
                LoopState::Running
            },
            final(self).version == old(self).version,
            final(self).notice == old(self).notice,
            final(self).session_dead == old(self).session_dead,
    {
        self.handle_event(InputEvent::Key(k))
    }

    /// Decide one event: report what it asks, and enter `Terminating` on a
    /// quit.
    pub fn handle_event(&mut self, e: InputEvent) -> (r: EventOutcome)
        requires
            old(self).state == LoopState::Running,
        ensures
            r == event_outcome(e),
            final(self).state == if r == EventOutcome::Quit {
                LoopState::Terminating
            } else {
                LoopState::Running
            },
            final(self).version == old(self).version,
            final(self).notice == old(self).notice,
            final(self).session_dead == old(self).session_dead,
    {
        let out = match e {
            InputEvent::Key(k) => match k {
                KeyInput::Char(c) => if c == 'q' {
                    EventOutcome::Quit
                } else if c == 'p' {
                    EventOutcome::Redraw
                } else {
                    EventOutcome::Ignore
                },
                KeyInput::Other => EventOutcome::Ignore,
                _ => EventOutcome::Redraw,
            },
            InputEvent::Resize(_, _) => EventOutcome::Redraw,
            InputEvent::Other => EventOutcome::Ignore,
        };
        if out == EventOutcome::Quit {
            self.state = LoopState::Terminating;
        }
        out
    }

    /// Decide one iteration's queued events, in order, stopping at the first
    /// quit and discarding the events after it. Returns how many events were
    /// decided. The loop leaves `Running` within this very call exactly when
    /// some queued event asks to quit.
    pub fn handle_events(&mut self, events: &Vec<InputEvent>) -> (n: usize)
        requires
            old(self).state == LoopState::Running,
        ensures
            final(self).state == if has_quit(events@) {
                LoopState::Terminating
            } else {
                LoopState::Running
            },
            n <= events@.len(),
            has_quit(events@) ==> n >= 1 && event_outcome(events@[n - 1]) == EventOutcome::Quit
                && !has_quit(events@.take(n - 1)),
            !has_quit(events@) ==> n == events@.len(),
            final(self).version == old(self).version,
            final(self).notice == old(self).notice,
            final(self).session_dead == old(self).session_dead,
    {
        let mut i: usize = 0;
        while i < events.len()
            invariant
                i <= events@.len(),
                self.state == LoopState::Running,
                !has_quit(events@.take(i as int)),
                self.version == old(self).version,
                self.notice == old(self).notice,
                self.session_dead == old(self).session_dead,
            decreases events@.len() - i,
        {
            let out = self.handle_event(events[i]);
            if out == EventOutcome::Quit {
                proof {
                    assert(has_quit(events@)) by {
                        assert(event_outcome(events@[i as int]) == EventOutcome::Quit);
                    }
                }
                return i + 1;
            }
            proof {
                assert(!has_quit(events@.take(i + 1))) by {
                    assert(forall|j: int|
                        0 <= j < i + 1 ==> event_outcome(#[trigger] events@.take(i + 1)[j])
                            != EventOutcome::Quit);
                }
            }
            i += 1;
        }
        proof {
            assert(events@.take(events@.len() as int) =~= events@);
        }
        events.len()
    }

    /// Record one metrics refresh outcome in the view state. A fresh value
    /// replaces the cached one and clears any notice; a failure keeps the
    /// cached value and is shown as a notice; a dead session additionally
    /// turns further refreshing off for good.
    pub fn on_metrics(&mut self, outcome: Result<SystemVersion, FacadeError>)
        ensures
            final(self).state == old(self).state,
            match outcome {
                Ok(v) => final(self).version == Some(v) && final(self).notice is None
                    && final(self).session_dead == old(self).session_dead,
                Err(e) => final(self).version == old(self).version && final(self).notice == Some(e)
                    && final(self).session_dead == (old(self).session_dead || e is SessionDown),
            },
    {
        match outcome {
            Ok(v) => {
                self.version = Some(v);
                self.notice = None;
            },
            Err(e) => {
                if let FacadeError::SessionDown(_) = &e {
                    self.session_dead = true;
                }
                self.notice = Some(e);
            },
        }
    }

    /// Whether the loop should still ask the facade for fresh metrics: not
    /// after the session's death has been recorded — repeating calls that
    /// must fail would be noise, the user is shown the terminal notice and
    /// the quit path instead.
    pub fn wants_metrics(&self) -> (r: bool)
        ensures
            r == !self.session_dead,
    {
        !self.session_dead
    }
}

} // verus!
