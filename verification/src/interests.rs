//! User-facing interest sets and their translation into the user event
//! alphabet.

use vstd::prelude::*;
use crate::masks::{EPOLLERR, EPOLLHUP, EPOLLIN, EPOLLONESHOT, EPOLLOUT, EPOLLRDHUP};

verus! {

/// What the user asks to be notified about.  A valid interest set names at
/// least one of readable or writable; error and hangup are monitored
/// implicitly and need not (and cannot) be requested.
#[derive(Clone, Copy, Debug, PartialEq, Eq, Structural)]
pub struct Interests {
    pub readable: bool,
    pub writable: bool,
    /// One-shot: the first delivered readiness clears the registration's
    /// interests; notifications resume only after a reregister.
    pub oneshot: bool,
}

/// The user-alphabet bits an interest set asks for.  Readable interest also
/// watches read-hangup, as the Unix counterpart does.
pub open spec fn interests_epoll_mask(interests: Interests) -> u32 {
    let k0 = 0u32;
    let k1 = if interests.readable {
        k0 | (EPOLLIN | EPOLLRDHUP)
    } else {
        k0
    };
    let k2 = if interests.writable {
        k1 | EPOLLOUT
    } else {
        k1
    };
    if interests.oneshot {
        k2 | EPOLLONESHOT
    } else {
        k2
    }
}

/// The full user-event mask a registration monitors for an interest set:
/// the requested bits plus the implicitly monitored error and hangup bits.
pub open spec fn user_events_mask(interests: Interests) -> u32 {
    interests_epoll_mask(interests) | EPOLLERR | EPOLLHUP
}

impl Interests {
    /// Builds an interest set; refuses one that asks for neither
    /// readability nor writability.
    pub fn new(readable: bool, writable: bool, oneshot: bool) -> (r: Option<Interests>)
        ensures
            r is Some <==> readable || writable,
            r is Some ==> r.unwrap() == (Interests { readable, writable, oneshot }),
    {
        if readable || writable {
            Some(Interests { readable, writable, oneshot })
        } else {
            None
        }
    }

    pub fn is_readable(&self) -> (r: bool)
        ensures
            r == self.readable,
    {
        self.readable
    }

    pub fn is_writable(&self) -> (r: bool)
        ensures
            r == self.writable,
    {
        self.writable
    }

    pub fn is_oneshot(&self) -> (r: bool)
        ensures
            r == self.oneshot,
    {
        self.oneshot
    }
}

/// Translate an interest set into the user event alphabet.
pub fn interests_to_epoll(interests: Interests) -> (kind: u32)
    ensures
        kind == interests_epoll_mask(interests),
{
    let mut kind: u32 = 0;

    if interests.is_readable() {
        kind = kind | (EPOLLIN | EPOLLRDHUP);
    }

    if interests.is_writable() {
        kind = kind | EPOLLOUT;
    }

    if interests.is_oneshot() {
        kind = kind | EPOLLONESHOT;
    }

    kind
}

} // verus!
