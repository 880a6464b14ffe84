//! The remote session's failure-propagation state.
//!
//! A session owns one background driver task that performs the connection
//! I/O. The driver's terminal error is delivered through a single-use signal:
//! written at most once, by the driver, and drained at most once by the
//! foreground. This module models that signal as an explicit state machine,
//! so that "not yet failed", "failed and unreported" and "failed and already
//! reported" are distinct states, and the failure stays cached after it has
//! been drained: a session that once failed keeps failing fast.
//!
//! The connection itself and the driver task live outside this state; the
//! caller that runs them reports the driver's exit through
//! [`RpcClient::record_failure`].

use vstd::prelude::*;

verus! {

/// The terminal error of a failed driver task.
#[derive(Debug)]
pub struct RunError {
    pub message: String,
}

impl View for RunError {
    type V = Seq<char>;

    open spec fn view(&self) -> Seq<char> {
        self.message@
    }
}

/// The driver task's lifecycle as the foreground observes it.
pub enum DriverState {
    /// The driver has not reported an error.
    Running,
    /// The driver exited with this error; nobody has been told yet.
    Failed(Seq<char>),
    /// The driver exited with this error and one check has reported it.
    Drained(Seq<char>),
}

/// What one failure check does to the driver state, and what it reports:
/// the first check after a failure drains the signal and returns the error,
/// every other check reports nothing and changes nothing.
pub open spec fn check_step(s: DriverState) -> (DriverState, Option<Seq<char>>) {
    match s {
        DriverState::Failed(m) => (DriverState::Drained(m), Some(m)),
        _ => (s, None),
    }
}

/// The session has observed the driver's death, reported or not.
pub open spec fn is_dead(s: DriverState) -> bool {
    !(s is Running)
}

/// A remote session: the foreground view of one connection and the one
/// driver task spawned for it at connect time.
pub struct RpcClient {
    status: FailureSignal,
}

/// The single-use failure delivery cell, with the drained error cached.
enum FailureSignal {
    Pending,
    Failed(RunError),
    Drained(RunError),
}

impl View for RpcClient {
    type V = DriverState;

    closed spec fn view(&self) -> DriverState {
        match self.status {
            FailureSignal::Pending => DriverState::Running,
            FailureSignal::Failed(e) => DriverState::Failed(e@),
            FailureSignal::Drained(e) => DriverState::Drained(e@),
        }
    }
}

impl RpcClient {
    /// A fresh session: the failure signal exists and holds nothing.
    pub fn new() -> (c: Self)
        ensures
            c@ is Running,
    {
        RpcClient { status: FailureSignal::Pending }
    }

    /// The driver task exited with an error. The signal is written at most
    /// once, so this may only happen while the session still counts as
    /// running.
    pub fn record_failure(&mut self, e: RunError)
        requires
            old(self)@ is Running,
        ensures
            final(self)@ == DriverState::Failed(e@),
    {
        self.status = FailureSignal::Failed(e);
    }

    /// Non-blocking check: report the driver's terminal error if it has
    /// exited and nobody has been told; otherwise report nothing. Safe to
    /// call repeatedly; exactly the first check after a failure returns the
    /// error, and the error stays cached for fail-fast callers.
    pub fn check_failure(&mut self) -> (r: Option<RunError>)
        ensures
            final(self)@ == check_step(old(self)@).0,
            match r {
                Some(e) => check_step(old(self)@).1 == Some(e@),
                None => check_step(old(self)@).1 is None,
            },
    {
        let failed: Option<String> = match &self.status {
            FailureSignal::Failed(e) => Some(e.message.clone()),
            _ => None,
        };
        match failed {
            Some(m) => {
                self.status = FailureSignal::Drained(RunError { message: m.clone() });
                Some(RunError { message: m })
            },
            None => None,
        }
    }

    /// The cached terminal error of a dead driver, drained or not; nothing
    /// while the driver has not reported an error. Unlike
    /// [`Self::check_failure`] this changes no state.
    pub fn failure_cause(&self) -> (r: Option<RunError>)
        ensures
            match self@ {
                DriverState::Running => r is None,
                DriverState::Failed(m) => r matches Some(e) && e@ == m,
                DriverState::Drained(m) => r matches Some(e) && e@ == m,
            },
    {
        match &self.status {
            FailureSignal::Pending => None,
            FailureSignal::Failed(e) => Some(RunError { message: e.message.clone() }),
            FailureSignal::Drained(e) => Some(RunError { message: e.message.clone() }),
        }
    }

    /// The session has observed the driver's death, whether or not the
    /// error was already drained.
    pub fn has_failed(&self) -> (r: bool)
        ensures
            r == is_dead(self@),
    {
        match &self.status {
            FailureSignal::Pending => false,
            _ => true,
        }
    }
}

/// The failure signal is single-use: after the driver fails, exactly the
/// first check reports the error; a second check right after reports
/// nothing, while the state keeps the error cached.
pub proof fn lemma_failure_reported_once(m: Seq<char>)
    ensures
        ({
            let (s1, r1) = check_step(DriverState::Failed(m));
            let (s2, r2) = check_step(s1);
            r1 == Some(m) && s1 == DriverState::Drained(m) && r2 is None && s2 == s1
        }),
{
}

} // verus!
