//! The readiness event handed back to the user: the readiness bits that
//! fired, paired with the opaque token supplied at registration.

use vstd::prelude::*;

verus! {

/// One readiness notification: `readiness` is a user-alphabet bitmask,
/// `token` is echoed verbatim from the registration it belongs to.
#[derive(Clone, Copy, Debug, PartialEq, Eq, Structural)]
pub struct Event {
    pub readiness: u32,
    pub token: u64,
}

impl Event {
    pub fn new(readiness: u32, token: u64) -> (ev: Event)
        ensures
            ev == (Event { readiness, token }),
    {
        Event { readiness, token }
    }

    pub fn readiness(&self) -> (r: u32)
        ensures
            r == self.readiness,
    {
        self.readiness
    }

    pub fn token(&self) -> (t: u64)
        ensures
            t == self.token,
    {
        self.token
    }
}

} // verus!
