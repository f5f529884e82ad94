//! Per-socket poll state.
//!
//! Each registered socket carries a `State` record: the interests the user
//! asked for, the subset the kernel is currently known to be watching, the
//! lifecycle phase of the in-flight poll operation against the helper
//! device, and the bookkeeping flags that tie the record into the
//! selector's update and delete queues.

use vstd::prelude::*;
use crate::interests::{user_events_mask, Interests};
use crate::masks::{afd_to_epoll, AFD_POLL_LOCAL_CLOSE, EPOLLERR, SOCK_KNOWN_EPOLL_EVENTS};
use crate::event::Event;

verus! {

/// NTSTATUS code reported for an operation that was cancelled
/// (0xC0000120 as a signed 32-bit value).
pub const STATUS_CANCELLED: i32 = -1073741536;

/// Lifecycle phase of the kernel poll operation for one socket.
#[derive(Clone, Copy, Debug, PartialEq, Eq, Structural)]
pub enum SockPollState {
    /// No poll operation is in flight.
    Idle,
    /// A poll operation is in flight; its completion has not been seen.
    Pending,
    /// The in-flight operation was asked to cancel; the record waits for
    /// the cancellation's completion before issuing anything new.
    Cancelled,
}

/// The state record of one registered socket.
#[derive(Clone, Copy, Debug, PartialEq, Eq, Structural)]
pub struct State {
    /// The underlying kernel socket, unwrapped from any layered provider.
    pub base_sock: u64,
    /// Index of the poll group whose helper handle this socket's poll
    /// operations are issued through.
    pub poll_group: usize,
    /// Interests currently requested by the user (user alphabet), always
    /// including the implicit error and hangup bits.
    pub user_events: u32,
    /// Subset of `user_events` the kernel is currently known to watch.
    pub pending_events: u32,
    /// The user's token, echoed in emitted events.
    pub user_data: u64,
    /// True iff this record sits on the selector's update queue.
    pub update_enqueued: bool,
    /// True iff the user asked to deregister; no further event is emitted.
    pub delete_pending: bool,
    pub poll_state: SockPollState,
    /// False once the registration has been torn down; a dead slot is
    /// never reused and never referenced by a queue.
    pub active: bool,
}

/// What one raw completion reports about a socket's poll operation.
/// `status` is the operation's NTSTATUS; `number_of_handles` and `events`
/// are the kernel-written fields of the poll-info buffer.
#[derive(Clone, Copy, Debug, PartialEq, Eq, Structural)]
pub struct Completion {
    /// Index of the registration the completed operation belongs to.
    pub reg: usize,
    pub status: i32,
    pub number_of_handles: u32,
    pub events: u32,
}

impl State {
    /// The per-record invariant: the kernel never watches more than the
    /// user asked for, nothing is watched unless an operation is in
    /// flight, and a record bound for deletion has left the update queue.
    pub open spec fn inv(&self) -> bool {
        &&& self.pending_events & !self.user_events == 0
        &&& (self.poll_state != SockPollState::Pending ==> self.pending_events == 0)
        &&& (self.delete_pending ==> !self.update_enqueued)
    }

    /// A fresh record for a socket that was just registered: idle, with no
    /// interests yet and nothing watched.
    pub fn new(base_sock: u64, poll_group: usize) -> (st: State)
        ensures
            st == (State {
                base_sock,
                poll_group,
                user_events: 0,
                pending_events: 0,
                user_data: 0,
                update_enqueued: false,
                delete_pending: false,
                poll_state: SockPollState::Idle,
                active: true,
            }),
    {
        State {
            base_sock,
            poll_group,
            user_events: 0,
            pending_events: 0,
            user_data: 0,
            update_enqueued: false,
            delete_pending: false,
            poll_state: SockPollState::Idle,
            active: true,
        }
    }

    /// Replaces the record's interests and token.  Returns whether the
    /// user now wants strictly more than the kernel is known to watch, in
    /// which case the caller must schedule an update.
    pub fn set_events(&mut self, interests: Interests, token: u64) -> (needs_update: bool)
        ensures
            *final(self) == spec_set_events(*old(self), interests, token),
            needs_update == wants_update(*final(self)),
    {
        self.user_events = crate::interests::interests_to_epoll(interests) | EPOLLERR
            | crate::masks::EPOLLHUP;
        self.user_data = token;
        self.pending_events = self.pending_events & self.user_events;
        0 != (self.user_events & SOCK_KNOWN_EPOLL_EVENTS & !self.pending_events)
    }
}

/// Effect of `set_events` on a record: new interests and token, and the
/// watched set trimmed to the new interests so it never exceeds them.
pub open spec fn spec_set_events(st: State, interests: Interests, token: u64) -> State {
    State {
        user_events: user_events_mask(interests),
        user_data: token,
        pending_events: st.pending_events & user_events_mask(interests),
        ..st
    }
}

/// The user wants strictly more than the kernel is known to watch: the
/// in-flight (or next) poll operation does not cover the interests.
pub open spec fn wants_update(st: State) -> bool {
    st.user_events & SOCK_KNOWN_EPOLL_EVENTS & !st.pending_events != 0
}

/// A completion finalizes the registration's deletion: either the user
/// already asked for it, or the kernel reported that the socket was closed
/// locally out from under the selector.
pub open spec fn spec_feed_deletes(st: State, c: Completion) -> bool {
    st.delete_pending || (c.status != STATUS_CANCELLED && c.status >= 0 && c.number_of_handles >= 1
        && c.events & AFD_POLL_LOCAL_CLOSE != 0)
}

/// The unmasked readiness a completion reports: nothing for our own
/// cancellation, the error bit for a failed operation, nothing for a
/// spurious empty report, and the translated kernel mask otherwise.
pub open spec fn spec_feed_readiness(c: Completion) -> u32 {
    if c.status == STATUS_CANCELLED {
        0u32
    } else if c.status < 0 {
        EPOLLERR
    } else if c.number_of_handles < 1 {
        0u32
    } else {
        afd_to_epoll(c.events)
    }
}

/// A completion produces a user-visible event exactly when it does not
/// finalize a deletion and the readiness it reports intersects the
/// registration's current interests.
pub open spec fn spec_feed_emits(st: State, c: Completion) -> bool {
    !spec_feed_deletes(st, c) && spec_feed_readiness(c) & st.user_events != 0
}

/// The event a completion emits, if any: the reported readiness masked by
/// the user's interests, under the registration's token.
pub open spec fn spec_feed_event(st: State, c: Completion) -> Option<Event> {
    if spec_feed_emits(st, c) {
        Some(Event { readiness: spec_feed_readiness(c) & st.user_events, token: st.user_data })
    } else {
        None
    }
}

/// A torn-down record: the slot is dead and off every queue.
pub open spec fn spec_finalized(st: State) -> State {
    State { active: false, delete_pending: true, update_enqueued: false, ..st }
}

/// Effect of dispatching a completion on the record itself: the operation
/// leaves flight; a deletion is finalized; otherwise the record is
/// re-queued for re-arming, and a delivered one-shot clears the interests.
pub open spec fn spec_feed_state(st: State, c: Completion) -> State {
    let st1 = State { poll_state: SockPollState::Idle, pending_events: 0u32, ..st };
    if spec_feed_deletes(st, c) {
        spec_finalized(st1)
    } else {
        let emitted = spec_feed_readiness(c) & st.user_events != 0;
        let ue = if emitted && st.user_events & crate::masks::EPOLLONESHOT != 0 {
            0u32
        } else {
            st.user_events
        };
        State { user_events: ue, update_enqueued: true, ..st1 }
    }
}

/// A registration the user asked to deregister emits no further event:
/// its completion only finalizes the teardown.
pub proof fn lemma_delete_pending_silent(st: State, c: Completion)
    requires
        st.delete_pending,
    ensures
        spec_feed_event(st, c) is None,
        !spec_feed_state(st, c).active,
{
}

/// A socket closed out from under the selector emits no event: a
/// completion whose kernel mask reports the local close finalizes the
/// registration's deletion silently.
pub proof fn lemma_local_close_silent(st: State, c: Completion)
    requires
        c.status != STATUS_CANCELLED,
        c.status >= 0,
        c.number_of_handles >= 1,
        c.events & AFD_POLL_LOCAL_CLOSE != 0,
    ensures
        spec_feed_event(st, c) is None,
        !spec_feed_state(st, c).active,
{
}

/// A registration with no interests left emits nothing, whatever the
/// kernel reports.
pub proof fn lemma_no_interests_no_event(st: State, c: Completion)
    requires
        st.user_events == 0,
    ensures
        spec_feed_event(st, c) is None,
{
    lemma_zero_and(spec_feed_readiness(c));
}

/// One-shot: once a one-shot registration has delivered an event, its
/// interests are cleared, and no later completion produces an event until
/// a reregister resets them.
pub proof fn lemma_oneshot_single_event(st: State, c1: Completion, c2: Completion)
    requires
        st.user_events & crate::masks::EPOLLONESHOT != 0,
        spec_feed_emits(st, c1),
    ensures
        spec_feed_state(st, c1).user_events == 0,
        spec_feed_event(spec_feed_state(st, c1), c2) is None,
{
    lemma_no_interests_no_event(spec_feed_state(st, c1), c2);
}

/// Any mask intersected with another stays inside it.
pub proof fn lemma_mask_and_subset(a: u32, b: u32)
    by (bit_vector)
    ensures
        (a & b) & !b == 0,
{
}

/// A mask never reaches outside itself.
pub proof fn lemma_self_and_not(a: u32)
    by (bit_vector)
    ensures
        a & !a == 0,
{
}

/// Zero is inside every mask.
pub proof fn lemma_zero_and(a: u32)
    by (bit_vector)
    ensures
        0u32 & a == 0,
        0u32 & !a == 0,
        a & 0u32 == 0,
{
}

} // verus!
