//! Connection-level decisions: the bounded pool of concurrency slots, the
//! acceptor's reaction to each accept attempt, and the biased race between
//! the cancellation signal and the accept loop.

use vstd::prelude::*;

verus! {

/// The bounded pool of concurrency slots. A lease is taken before a
/// connection is accepted and held until its task ends; the pool never has
/// more than `capacity` leases outstanding.
pub struct SlotPool {
    /// The configured maximum number of simultaneous connections.
    pub capacity: usize,
    /// How many leases are out right now.
    pub outstanding: usize,
}

impl SlotPool {
    /// The pool's invariant: never more leases out than the capacity.
    pub open spec fn wf(self) -> bool {
        self.outstanding <= self.capacity
    }

    /// A fresh pool of the given size, nothing leased.
    pub fn new(capacity: usize) -> (r: SlotPool)
        requires
            capacity >= 1,
        ensures
            r.wf(),
            r.capacity == capacity,
            r.outstanding == 0,
    {
        SlotPool { capacity, outstanding: 0 }
    }

    /// Take a lease if one is free. Exactly when every slot is out, the
    /// caller gets nothing and must wait for a release: the accept loop
    /// blocks here rather than over-admit.
    pub fn try_acquire(&mut self) -> (r: bool)
        requires
            old(self).wf(),
        ensures
            final(self).wf(),
            final(self).capacity == old(self).capacity,
            r <==> old(self).outstanding < old(self).capacity,
            r ==> final(self).outstanding == old(self).outstanding + 1,
            !r ==> *final(self) == *old(self),
    {
        if self.outstanding < self.capacity {
            self.outstanding = self.outstanding + 1;
            true
        } else {
            false
        }
    }

    /// Return a lease when a connection task ends, however it ended.
    pub fn release(&mut self)
        requires
            old(self).wf(),
            old(self).outstanding > 0,
        ensures
            final(self).wf(),
            final(self).capacity == old(self).capacity,
            final(self).outstanding == old(self).outstanding - 1,
    {
        self.outstanding = self.outstanding - 1;
    }
}

/// Law: under a concurrency limit, there are never more connection tasks
/// holding a slot than the limit — the pool's invariant, which every
/// acquire and release preserves and which acquisition enforces by refusing
/// a lease exactly when the pool is full.
pub proof fn lemma_bounded_concurrency(p: SlotPool)
    requires
        p.wf(),
    ensures
        p.outstanding <= p.capacity,
{
}

/// What one accept attempt came to.
#[derive(Clone, Copy, Debug, PartialEq, Eq, Structural)]
pub enum AcceptEvent {
    /// A connection was accepted.
    Connection,
    /// The accept call failed.
    Failure,
}

/// The acceptor's reaction to an attempt.
#[derive(Clone, Copy, Debug, PartialEq, Eq, Structural)]
pub enum AcceptAction {
    /// Spawn a connection-server task for the new connection and accept on.
    SpawnServer,
    /// Log and try the next accept: a failed accept never tears the
    /// listener down.
    RetryAccept,
}

/// Decide the accept loop's next action: exactly an accepted connection is
/// served on its own task; exactly a failure is retried.
pub fn accept_step(ev: AcceptEvent) -> (r: AcceptAction)
    ensures
        ev is Connection <==> r is SpawnServer,
        ev is Failure <==> r is RetryAccept,
{
    match ev {
        AcceptEvent::Connection => AcceptAction::SpawnServer,
        AcceptEvent::Failure => AcceptAction::RetryAccept,
    }
}

/// What the protocol runner reports next on one connection.
#[derive(Clone, Copy, Debug, PartialEq, Eq, Structural)]
pub enum ConnectionEvent {
    /// The next request on this connection is ready.
    RequestArrived,
    /// The peer closed the connection.
    Closed,
    /// Connection-level I/O failed.
    TransportError,
}

/// What the connection server does after an event.
#[derive(Clone, Copy, Debug, PartialEq, Eq, Structural)]
pub enum ConnectionAction {
    /// Dispatch the request to the request adapter, with a fresh clone of
    /// the application handle, then fetch the next one.
    DispatchRequest,
    /// End this connection's task. Nothing propagates to sibling
    /// connections: a connection failure is that connection's alone.
    EndTask,
}

/// Decide what the connection loop does after an event: a ready request
/// goes to the request adapter; a close or an I/O failure ends the task.
pub fn connection_step(ev: ConnectionEvent) -> (r: ConnectionAction)
    ensures
        ev is RequestArrived <==> r is DispatchRequest,
        (ev is Closed || ev is TransportError) <==> r is EndTask,
{
    match ev {
        ConnectionEvent::RequestArrived => ConnectionAction::DispatchRequest,
        ConnectionEvent::Closed => ConnectionAction::EndTask,
        ConnectionEvent::TransportError => ConnectionAction::EndTask,
    }
}

/// What the serve loop does next, once the race between the cancellation
/// signal and the acceptor has been looked at.
#[derive(Clone, Copy, Debug, PartialEq, Eq, Structural)]
pub enum ServeDecision {
    /// Stop accepting at once, then drain: wait for the connections already
    /// accepted and the requests in flight to finish, and only then return.
    DrainAndReturn,
    /// Keep accepting.
    KeepAccepting,
}

/// The biased race: whenever the cancellation signal is ready, it wins —
/// acceptor progress never starves it — and intake stops while in-flight
/// work is drained. Only while the signal is not ready does accepting go
/// on.
pub fn serve_step(signal_ready: bool) -> (r: ServeDecision)
    ensures
        signal_ready <==> r is DrainAndReturn,
        !signal_ready <==> r is KeepAccepting,
{
    if signal_ready {
        ServeDecision::DrainAndReturn
    } else {
        ServeDecision::KeepAccepting
    }
}

} // verus!
