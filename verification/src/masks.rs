//! The two event alphabets and the pure translations between them.
//!
//! The user-facing alphabet uses the Unix readiness bit values; the kernel
//! alphabet is the native poll-flag vocabulary of the AFD helper device.
//! Both translation tables are total, pure functions over `u32` bitmasks.

use vstd::prelude::*;

verus! {

// User alphabet (Unix readiness bits, wire-compatible values).
pub const EPOLLIN: u32 = 0x0001;
pub const EPOLLPRI: u32 = 0x0002;
pub const EPOLLOUT: u32 = 0x0004;
pub const EPOLLERR: u32 = 0x0008;
pub const EPOLLHUP: u32 = 0x0010;
pub const EPOLLRDNORM: u32 = 0x0040;
pub const EPOLLRDBAND: u32 = 0x0080;
pub const EPOLLWRNORM: u32 = 0x0100;
pub const EPOLLWRBAND: u32 = 0x0200;
pub const EPOLLMSG: u32 = 0x0400;
pub const EPOLLRDHUP: u32 = 0x2000;
/// Interest modifier: the first delivered readiness clears all interests.
pub const EPOLLONESHOT: u32 = 0x8000_0000;

// Kernel alphabet (AFD poll flags).
pub const AFD_POLL_RECEIVE: u32 = 0x0001;
pub const AFD_POLL_RECEIVE_EXPEDITED: u32 = 0x0002;
pub const AFD_POLL_SEND: u32 = 0x0004;
pub const AFD_POLL_DISCONNECT: u32 = 0x0008;
pub const AFD_POLL_ABORT: u32 = 0x0010;
pub const AFD_POLL_LOCAL_CLOSE: u32 = 0x0020;
pub const AFD_POLL_ACCEPT: u32 = 0x0080;
pub const AFD_POLL_CONNECT_FAIL: u32 = 0x0100;

/// The user bits the state machine knows how to monitor through the kernel.
pub const SOCK_KNOWN_EPOLL_EVENTS: u32 = EPOLLIN | EPOLLPRI | EPOLLOUT | EPOLLERR | EPOLLHUP
    | EPOLLRDNORM | EPOLLRDBAND | EPOLLWRNORM | EPOLLWRBAND | EPOLLMSG | EPOLLRDHUP;

/// The user bits for which translating to the kernel alphabet and back is
/// lossless: every known bit except `EPOLLMSG`, which no kernel flag encodes.
pub const SOCK_ROUND_TRIP_EPOLL_EVENTS: u32 = EPOLLIN | EPOLLPRI | EPOLLOUT | EPOLLERR | EPOLLHUP
    | EPOLLRDNORM | EPOLLRDBAND | EPOLLWRNORM | EPOLLWRBAND | EPOLLRDHUP;

/// user mask -> kernel mask.  `AFD_POLL_LOCAL_CLOSE` is always monitored so
/// that closing the socket out from under the selector is observable.
pub open spec fn epoll_to_afd(epoll_events: u32) -> u32 {
    let a0 = AFD_POLL_LOCAL_CLOSE;
    let a1 = if epoll_events & (EPOLLIN | EPOLLRDNORM) != 0 {
        a0 | (AFD_POLL_RECEIVE | AFD_POLL_ACCEPT)
    } else {
        a0
    };
    let a2 = if epoll_events & (EPOLLPRI | EPOLLRDBAND) != 0 {
        a1 | AFD_POLL_RECEIVE_EXPEDITED
    } else {
        a1
    };
    let a3 = if epoll_events & (EPOLLOUT | EPOLLWRNORM | EPOLLWRBAND) != 0 {
        a2 | AFD_POLL_SEND
    } else {
        a2
    };
    let a4 = if epoll_events & (EPOLLIN | EPOLLRDNORM | EPOLLRDHUP) != 0 {
        a3 | AFD_POLL_DISCONNECT
    } else {
        a3
    };
    let a5 = if epoll_events & EPOLLHUP != 0 {
        a4 | AFD_POLL_ABORT
    } else {
        a4
    };
    if epoll_events & EPOLLERR != 0 {
        a5 | AFD_POLL_CONNECT_FAIL
    } else {
        a5
    }
}

/// kernel mask -> user mask.  The inverse of the compose table, except that
/// `AFD_POLL_CONNECT_FAIL` reports the superset of bits a failed connect
/// shows on Unix.
pub open spec fn afd_to_epoll(afd_events: u32) -> u32 {
    let e0 = 0u32;
    let e1 = if afd_events & (AFD_POLL_RECEIVE | AFD_POLL_ACCEPT) != 0 {
        e0 | (EPOLLIN | EPOLLRDNORM)
    } else {
        e0
    };
    let e2 = if afd_events & AFD_POLL_RECEIVE_EXPEDITED != 0 {
        e1 | (EPOLLPRI | EPOLLRDBAND)
    } else {
        e1
    };
    let e3 = if afd_events & AFD_POLL_SEND != 0 {
        e2 | (EPOLLOUT | EPOLLWRNORM | EPOLLWRBAND)
    } else {
        e2
    };
    let e4 = if afd_events & AFD_POLL_DISCONNECT != 0 {
        e3 | (EPOLLIN | EPOLLRDNORM | EPOLLRDHUP)
    } else {
        e3
    };
    let e5 = if afd_events & AFD_POLL_ABORT != 0 {
        e4 | EPOLLHUP
    } else {
        e4
    };
    if afd_events & AFD_POLL_CONNECT_FAIL != 0 {
        e5 | (EPOLLIN | EPOLLOUT | EPOLLERR | EPOLLRDNORM | EPOLLWRNORM | EPOLLRDHUP)
    } else {
        e5
    }
}

/// Translate a user interest mask into the kernel poll mask to hand to the
/// helper device.
pub fn sock_epoll_events_to_afd_events(epoll_events: u32) -> (afd_events: u32)
    ensures
        afd_events == epoll_to_afd(epoll_events),
{
    let mut afd_events = AFD_POLL_LOCAL_CLOSE;

    if 0 != (epoll_events & (EPOLLIN | EPOLLRDNORM)) {
        afd_events = afd_events | (AFD_POLL_RECEIVE | AFD_POLL_ACCEPT);
    }
    if 0 != (epoll_events & (EPOLLPRI | EPOLLRDBAND)) {
        afd_events = afd_events | AFD_POLL_RECEIVE_EXPEDITED;
    }
    if 0 != (epoll_events & (EPOLLOUT | EPOLLWRNORM | EPOLLWRBAND)) {
        afd_events = afd_events | AFD_POLL_SEND;
    }
    if 0 != (epoll_events & (EPOLLIN | EPOLLRDNORM | EPOLLRDHUP)) {
        afd_events = afd_events | AFD_POLL_DISCONNECT;
    }
    if 0 != (epoll_events & EPOLLHUP) {
        afd_events = afd_events | AFD_POLL_ABORT;
    }
    if 0 != (epoll_events & EPOLLERR) {
        afd_events = afd_events | AFD_POLL_CONNECT_FAIL;
    }

    afd_events
}

/// Translate a kernel completion mask back into user readiness bits.
pub fn sock_afd_events_to_epoll_events(afd_events: &u32) -> (epoll_events: u32)
    ensures
        epoll_events == afd_to_epoll(*afd_events),
{
    let mut epoll_events: u32 = 0;

    if 0 != (*afd_events & (AFD_POLL_RECEIVE | AFD_POLL_ACCEPT)) {
        epoll_events = epoll_events | (EPOLLIN | EPOLLRDNORM);
    }
    if 0 != (*afd_events & AFD_POLL_RECEIVE_EXPEDITED) {
        epoll_events = epoll_events | (EPOLLPRI | EPOLLRDBAND);
    }
    if 0 != (*afd_events & AFD_POLL_SEND) {
        epoll_events = epoll_events | (EPOLLOUT | EPOLLWRNORM | EPOLLWRBAND);
    }
    if 0 != (*afd_events & AFD_POLL_DISCONNECT) {
        epoll_events = epoll_events | (EPOLLIN | EPOLLRDNORM | EPOLLRDHUP);
    }
    if 0 != (*afd_events & AFD_POLL_ABORT) {
        epoll_events = epoll_events | EPOLLHUP;
    }
    if 0 != (*afd_events & AFD_POLL_CONNECT_FAIL) {
        epoll_events = epoll_events
            | (EPOLLIN | EPOLLOUT | EPOLLERR | EPOLLRDNORM | EPOLLWRNORM | EPOLLRDHUP);
    }

    epoll_events
}

/// Round trip: translating a user mask to the kernel alphabet and back loses
/// no requested bit, for every mask made of round-trippable bits.
/// (`EPOLLMSG` is the known bit this does not hold for: no kernel flag
/// carries it, so it never comes back.)
pub proof fn lemma_mask_round_trip(m: u32)
    by (bit_vector)
    requires
        m & !SOCK_ROUND_TRIP_EPOLL_EVENTS == 0,
    ensures
        afd_to_epoll(epoll_to_afd(m)) & m == m,
{
}

/// Widening a user mask can only widen the kernel mask it translates to:
/// whatever the kernel was asked to watch for the narrow mask is still
/// watched for the wider one.
pub proof fn lemma_epoll_to_afd_monotonic(narrow: u32, wide: u32)
    by (bit_vector)
    requires
        narrow & wide == narrow,
    ensures
        epoll_to_afd(narrow) & epoll_to_afd(wide) == epoll_to_afd(narrow),
{
}

} // verus!
