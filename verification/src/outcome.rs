//! Per-request decision logic: which role a request may have, how a request
//! is planned from its variables, and how each outcome is classified —
//! per-request failures leave the connection serving, transport failures
//! tear only their own connection down.

use crate::translate::{spec_translate, translate, valid_head, CgiVars, RequestHead};
use vstd::prelude::*;

verus! {

/// The role a FastCGI request arrives under. Only the responder role — a
/// full HTTP-style response is wanted — is served.
#[derive(Clone, Copy, Debug, PartialEq, Eq, Structural)]
pub enum Role {
    /// Produce a full response: the one supported role.
    Responder,
    /// Access-decision role; unsupported.
    Authorizer,
    /// Stream-filter role; unsupported.
    Filter,
}

/// What one request's handling came to, as the protocol runner is told.
#[derive(Clone, Copy, Debug, PartialEq, Eq, Structural)]
pub enum RequestOutcome {
    /// The request was handled to the end: zero for success, non-zero for a
    /// per-request failure with the connection still healthy.
    Complete(u32),
    /// The connection itself is unusable and must be torn down.
    TransportFailure,
}

/// Whether an outcome leaves the connection open for further requests.
pub open spec fn keeps_connection(o: RequestOutcome) -> bool {
    o is Complete
}

/// Whether an outcome reports plain success.
pub open spec fn is_success(o: RequestOutcome) -> bool {
    o == RequestOutcome::Complete(0u32)
}

/// How one request proceeds after the checks that precede any application
/// work.
pub enum RequestPlan {
    /// Refuse the request with a non-zero completion; the connection stays.
    Reject(u32),
    /// Invoke the application with this translated head.
    Proceed(RequestHead),
}

/// Decide one request from its role and variables, exactly as the adapter
/// does before any response byte exists: an unsupported role is refused
/// with completion 1, a malformed head likewise, and anything else goes to
/// the application with the translated head.
pub fn plan_request(role: Role, vars: &CgiVars) -> (r: RequestPlan)
    ensures
        !(role is Responder) ==> r == RequestPlan::Reject(1u32),
        role is Responder && !valid_head(spec_translate(vars@)) ==> r == RequestPlan::Reject(1u32),
        role is Responder && valid_head(spec_translate(vars@)) ==> (r matches RequestPlan::Proceed(
            h,
        ) && h@ == spec_translate(vars@)),
{
    match role {
        Role::Responder => {},
        _ => {
            return RequestPlan::Reject(1);
        },
    }
    match translate(vars) {
        Ok(h) => RequestPlan::Proceed(h),
        Err(_) => RequestPlan::Reject(1),
    }
}

/// The outcome reported for a refused request.
pub fn rejection_outcome(code: u32) -> (r: RequestOutcome)
    requires
        code != 0,
    ensures
        r == RequestOutcome::Complete(code),
        keeps_connection(r),
        !is_success(r),
{
    RequestOutcome::Complete(code)
}

/// The outcome reported for a request handled to the end.
pub fn success_outcome() -> (r: RequestOutcome)
    ensures
        r == RequestOutcome::Complete(0u32),
        keeps_connection(r),
        is_success(r),
{
    RequestOutcome::Complete(0)
}

/// Law: a per-request failure is never a transport failure — it is reported
/// as a non-zero completion, and such an outcome leaves the connection open
/// for the requests that follow.
pub proof fn lemma_rejection_keeps_connection(code: u32)
    requires
        code != 0,
    ensures
        keeps_connection(RequestOutcome::Complete(code)),
        !is_success(RequestOutcome::Complete(code)),
        !keeps_connection(RequestOutcome::TransportFailure),
{
}

/// One event of the response-emission loop, seen from the connection.
#[derive(Clone, Copy, Debug, PartialEq, Eq, Structural)]
pub enum EmitEvent {
    /// A body chunk arrived and was written through.
    ChunkWritten,
    /// The body source ended; everything was written and flushed.
    BodyEnded,
    /// The application's body stream failed; nothing more can be sent.
    BodySourceFailed,
    /// A write onto the connection failed.
    WriteFailed,
}

/// What the emission loop does after an event.
#[derive(Clone, Copy, Debug, PartialEq, Eq, Structural)]
pub enum EmitStep {
    /// Keep streaming.
    Continue,
    /// Finish the request successfully.
    FinishOk,
    /// Tear the connection down: a transport-level failure.
    FailTransport,
}

/// Classify one emission event: only a written chunk continues the loop,
/// only a clean end of the body finishes the request, and every failure
/// during emission — of the write or of the body source — is
/// transport-level, since nothing further can be sent on this connection.
pub fn emit_step(ev: EmitEvent) -> (r: EmitStep)
    ensures
        ev is ChunkWritten <==> r is Continue,
        ev is BodyEnded <==> r is FinishOk,
        (ev is BodySourceFailed || ev is WriteFailed) <==> r is FailTransport,
{
    match ev {
        EmitEvent::ChunkWritten => EmitStep::Continue,
        EmitEvent::BodyEnded => EmitStep::FinishOk,
        EmitEvent::BodySourceFailed => EmitStep::FailTransport,
        EmitEvent::WriteFailed => EmitStep::FailTransport,
    }
}

} // verus!
