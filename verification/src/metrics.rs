//! The typed metrics facade layered on the remote session.
//!
//! Every metric getter follows one template: fail fast if the session's
//! driver is known to be dead, otherwise issue one remote call, decode the
//! dynamic result into a domain value, and propagate any failure with its
//! cause. The remote call itself is network I/O performed by the caller that
//! owns the connection; this module decides, before the call, whether it may
//! be dispatched at all ([`begin_get_system_version`]), and turns the call's
//! outcome into the domain value afterwards ([`finish_get_system_version`]).

use vstd::prelude::*;

verus! {

use crate::session::{RpcClient, DriverState, RunError, check_step, is_dead};
use crate::term::{Term, DecodeError, decode_text, decodes_as_text, text_of, text_decode_failure};

/// The version banner of the remote runtime, obtained only by successfully
/// decoding a remote response.
#[derive(Debug)]
pub struct SystemVersion(String);

impl View for SystemVersion {
    type V = Seq<char>;

    closed spec fn view(&self) -> Seq<char> {
        self.0@
    }
}

impl SystemVersion {
    /// The version text.
    pub fn get(&self) -> (r: &str)
        ensures
            r@ == self@,
    {
        self.0.as_str()
    }
}

/// A single remote call failed in transport.
#[derive(Debug)]
pub struct CallError {
    pub message: String,
}

impl View for CallError {
    type V = Seq<char>;

    open spec fn view(&self) -> Seq<char> {
        self.message@
    }
}

/// Why a metric getter failed.
#[derive(Debug)]
pub enum FacadeError {
    /// The session's driver task has died; no call was attempted.
    SessionDown(RunError),
    /// The remote call itself failed.
    Call(CallError),
    /// The remote response had an unexpected shape.
    Decode(DecodeError),
}

/// One remote procedure call: module, function, ordered arguments.
pub struct CallRequest {
    pub module: String,
    pub function: String,
    pub args: Vec<Term>,
}

/// The request is the version-information call: `erlang:system_info(system_version)`.
pub open spec fn is_system_version_request(q: CallRequest) -> bool {
    &&& q.module@ == "erlang"@
    &&& q.function@ == "system_info"@
    &&& q.args@.len() == 1
    &&& q.args@[0] matches Term::Atom(a) && a@ == "system_version"@
}

/// First half of `get_system_version`: check the failure signal, and only if
/// no driver death is known hand out the request to dispatch. On a session
/// whose driver has failed, the error is returned at once, drained if it was
/// still pending, and no request exists for the caller to dispatch.
pub fn begin_get_system_version(client: &mut RpcClient) -> (r: Result<
    CallRequest,
    FacadeError,
>)
    ensures
        final(client)@ == check_step(old(client)@).0,
        r is Ok <==> !is_dead(old(client)@),
        r matches Ok(q) ==> is_system_version_request(q),
        r matches Err(e) ==> e matches FacadeError::SessionDown(d) && match old(client)@ {
            DriverState::Failed(m) => d@ == m,
            DriverState::Drained(m) => d@ == m,
            DriverState::Running => false,
        },
{
    match client.check_failure() {
        Some(e) => Err(FacadeError::SessionDown(e)),
        None => match client.failure_cause() {
            // The signal was drained earlier; the cached death still
            // forbids the call.
            Some(e) => Err(FacadeError::SessionDown(e)),
            None => Ok(
                CallRequest {
                    module: "erlang".to_owned(),
                    function: "system_info".to_owned(),
                    args: vec![Term::Atom("system_version".to_owned())],
                },
            ),
        },
    }
}

/// Second half of `get_system_version`: turn the dispatched call's outcome
/// into the domain value. A transport error and a decode error each keep
/// their cause.
pub fn finish_get_system_version(outcome: Result<Term, CallError>) -> (r: Result<
    SystemVersion,
    FacadeError,
>)
    ensures
        outcome matches Err(c) ==> r == Err::<SystemVersion, FacadeError>(FacadeError::Call(c)),
        outcome matches Ok(t) ==> {
            &&& r is Ok <==> decodes_as_text(t)
            &&& r matches Ok(v) ==> v@ == text_of(t)
            &&& r matches Err(e) ==> e matches FacadeError::Decode(d) && text_decode_failure(t, d)
        },
{
    match outcome {
        Ok(t) => match decode_text(t) {
            Ok(s) => Ok(SystemVersion(s)),
            Err(d) => Err(FacadeError::Decode(d)),
        },
        Err(c) => Err(FacadeError::Call(c)),
    }
}

} // verus!
