//! Readiness-notification core for a completion-port platform.
//!
//! The library is the translation layer that emulates a Unix-style readiness
//! poller (register a socket with an interest mask and a token, wait for
//! `(token, readiness)` events) on top of a kernel whose native primitive is
//! a completion port fed by per-socket poll operations against the AFD
//! helper device.
//!
//! Everything that decides — the bitmask translation tables, the poll-group
//! allocator, the per-socket poll state machine, and the selector's queueing
//! and dispatch discipline — lives here, verified, over plain values.  The
//! kernel calls themselves (opening the helper device, issuing the poll
//! IOCTL, cancelling it, draining the completion port) are performed by the
//! embedding program, which hands their outcomes back as plain values.

use vstd::prelude::*;

pub mod event;
pub mod interests;
pub mod masks;
pub mod poll_group;
pub mod selector;
pub mod sock;

verus! {

/// One-time process-wide socket-library startup decision.
///
/// `init_done` is the caller's "already initialised" flag; `startup_ok`
/// reports whether the socket library's startup call succeeded (it is
/// consulted only when initialisation still has to run).  Returns `Err(())`
/// exactly when startup was attempted and failed, in which case the flag is
/// left unset so a later call retries.
pub fn init(init_done: &mut bool, startup_ok: bool) -> (r: Result<(), ()>)
    ensures
        *final(init_done) == (*old(init_done) || startup_ok),
        r is Ok <==> (*old(init_done) || startup_ok),
{
    if !*init_done {
        if !startup_ok {
            return Err(());
        }
        *init_done = true;
    }
    Ok(())
}

} // verus!
