//! Inherited-socket guard: decide, from the file type of the handle found in
//! the standard-input descriptor slot, whether the process may adopt it as a
//! listener, and carry the adopt-once discipline in the type system.

use vstd::prelude::*;

verus! {

/// The fixed diagnostic for a handle in the inherited slot that is not a
/// socket.
pub open spec fn spec_startup_diagnostic() -> Seq<char> {
    "Fatal error: wasn't executed by a compatible FastCGI client!\nThis server mode expects to be passed an open Unix socket on file descriptor 0,\nrather than the normal stdin stream. The main modern client that supports\nthis is Apache's mod_fcgid."@
}

/// The fixed, human-readable diagnostic printed once, before any
/// socket-related work, when startup fails because the inherited handle is
/// not a socket.
pub fn startup_diagnostic() -> (r: &'static str)
    ensures
        r@ == spec_startup_diagnostic(),
{
    "Fatal error: wasn't executed by a compatible FastCGI client!\nThis server mode expects to be passed an open Unix socket on file descriptor 0,\nrather than the normal stdin stream. The main modern client that supports\nthis is Apache's mod_fcgid."
}

/// Why startup must not proceed.
#[derive(Clone, Copy, Debug, PartialEq, Eq, Structural)]
pub enum StartupError {
    /// The handle in the inherited slot is not a socket.
    NotASocket,
}

/// The handle slot as first seen: not yet examined, not yet adopted.
/// Consuming it is the only way to reach [`AdoptedListener`], so the handle
/// can be adopted at most once.
pub struct InheritedSlot {
    examined: bool,
}

/// Witness that the inherited handle was verified to be a socket and that
/// ownership of it has passed to the listener; the slot value is gone.
pub struct AdoptedListener {
    adopted: bool,
}

impl InheritedSlot {
    /// A fresh, unexamined slot.
    pub fn new() -> (r: InheritedSlot) {
        InheritedSlot { examined: false }
    }

    /// Check-then-adopt as one step: given whether the handle's file type is
    /// a socket, either hand over the adoption witness or fail fast. The slot
    /// is consumed either way; there is no retry.
    pub fn adopt(self, is_socket: bool) -> (r: Result<AdoptedListener, StartupError>)
        ensures
            is_socket <==> r is Ok,
            !is_socket ==> r == Result::<AdoptedListener, StartupError>::Err(
                StartupError::NotASocket,
            ),
    {
        if is_socket {
            Ok(AdoptedListener { adopted: true })
        } else {
            Err(StartupError::NotASocket)
        }
    }
}

} // verus!
