//! The selector: registration slab, update and delete queues, poll-group
//! list and poll counter, with the dispatch discipline that drives each
//! socket's state machine.
//!
//! The kernel operations themselves — issuing the poll IOCTL, cancelling
//! it, waiting on the completion port — are performed by the embedding
//! program.  Where a step needs one, the selector returns a [`PollOp`]
//! describing it and is later handed the outcome as a plain value
//! (`apply_poll_result`, `cancel_poll`, [`Completion`]).  Everything the
//! selector decides is verified here.

use vstd::prelude::*;
use vstd::seq_lib::*;
use std::collections::VecDeque;
use crate::event::Event;
use crate::interests::{user_events_mask, Interests};
use crate::masks::{epoll_to_afd, sock_afd_events_to_epoll_events, sock_epoll_events_to_afd_events,
    AFD_POLL_LOCAL_CLOSE, EPOLLERR, EPOLLONESHOT, SOCK_KNOWN_EPOLL_EVENTS};
use crate::poll_group::{PollGroup, PollGroupError, PollGroupQueue, MAX_SOCKET_PER_POLL_GROUP};
use crate::sock::{spec_feed_deletes, spec_feed_event, spec_feed_readiness, spec_feed_state,
    spec_finalized, spec_set_events, wants_update, Completion, SockPollState, State,
    STATUS_CANCELLED};

verus! {

/// Kernel error code: the handle given to an operation is not valid (the
/// socket was closed out from under the selector).
pub const ERROR_INVALID_HANDLE: u32 = 6;

/// Kernel error code: the operation was accepted and completes later
/// through the completion port.
pub const ERROR_IO_PENDING: u32 = 997;

/// Socket-library error code with the same meaning as `ERROR_IO_PENDING`,
/// as the poll IOCTL reports it.
pub const WSAEINPROGRESS: u32 = 10036;

/// The poll-info payload for one poll IOCTL: which kernel socket to watch,
/// the kernel-alphabet event mask, and the operation's own timeout (always
/// the maximum: the operation is ended by readiness or cancellation).
#[derive(Clone, Copy, Debug, PartialEq, Eq, Structural)]
pub struct PollInfo {
    pub handle: u64,
    pub events: u32,
    pub timeout: i64,
}

/// A kernel operation the embedding program must perform on behalf of a
/// registration, through the helper handle of the registration's group.
#[derive(Clone, Copy, Debug, PartialEq, Eq, Structural)]
pub enum PollOp {
    /// Issue the poll IOCTL with `info`; report the outcome through
    /// `apply_poll_result`.
    Start { reg: usize, group_handle: u64, info: PollInfo },
    /// Cancel the in-flight poll operation; report the outcome through
    /// `cancel_poll`.
    Cancel { reg: usize, group_handle: u64 },
}

/// What happened when the embedding program tried to cancel an in-flight
/// poll operation.
#[derive(Clone, Copy, Debug, PartialEq, Eq, Structural)]
pub enum CancelOutcome {
    /// The operation had already completed; nothing was cancelled.
    AlreadyComplete,
    /// The cancel request was issued.
    Issued,
    /// The kernel no longer knows the operation — it finished between the
    /// check and the cancel.  Benign.
    NotFound,
    /// The cancel failed with this kernel error code.
    Failed(u32),
}

/// One step of draining the update queue.
#[derive(Clone, Copy, Debug, PartialEq, Eq, Structural)]
pub enum UpdateStep {
    /// The queue is empty; the drain is complete.
    QueueEmpty,
    /// The head registration needed no kernel work; call again.
    Applied,
    /// The head registration needs this kernel operation; perform it,
    /// report its outcome, then call again.
    Issue(PollOp),
}

/// Progress of a deregistration.
#[derive(Clone, Copy, Debug, PartialEq, Eq, Structural)]
pub enum DeleteStep {
    /// The in-flight poll operation must be cancelled first: do so, report
    /// through `cancel_poll`, then call again.
    NeedsCancel { reg: usize, group_handle: u64 },
    /// The registration is marked for deletion; teardown happens when the
    /// in-flight operation's completion arrives.
    Deferred,
    /// The registration is torn down and its poll-group slot released.
    Done,
}

/// How many registration slots a group index `g` is charged for: the
/// number of live registrations whose operations go through group `g`.
pub open spec fn group_contrib(st: State, g: int) -> nat {
    if st.active && st.poll_group == g {
        1nat
    } else {
        0nat
    }
}

pub open spec fn group_load(regs: Seq<State>, g: int) -> nat
    decreases regs.len(),
{
    if regs.len() == 0 {
        0nat
    } else {
        group_load(regs.drop_last(), g) + group_contrib(regs.last(), g)
    }
}

pub proof fn lemma_group_load_push(regs: Seq<State>, st: State, g: int)
    ensures
        group_load(regs.push(st), g) == group_load(regs, g) + group_contrib(st, g),
{
    assert(regs.push(st).drop_last() =~= regs);
}

pub proof fn lemma_group_load_update(regs: Seq<State>, i: int, st: State, g: int)
    requires
        0 <= i < regs.len(),
    ensures
        group_load(regs.update(i, st), g) + group_contrib(regs[i], g) == group_load(regs, g)
            + group_contrib(st, g),
    decreases regs.len(),
{
    if i == regs.len() - 1 {
        assert(regs.update(i, st).drop_last() =~= regs.drop_last());
    } else {
        assert(regs.update(i, st).drop_last() =~= regs.drop_last().update(i, st));
        lemma_group_load_update(regs.drop_last(), i, st, g);
        assert(regs.update(i, st).last() == regs.last());
    }
}

pub proof fn lemma_group_load_at_least(regs: Seq<State>, i: int, g: int)
    requires
        0 <= i < regs.len(),
        regs[i].active,
        regs[i].poll_group == g,
    ensures
        group_load(regs, g) >= 1,
    decreases regs.len(),
{
    if i < regs.len() - 1 {
        lemma_group_load_at_least(regs.drop_last(), i, g);
    }
}

/// Removing a value from a duplicate-free queue removes exactly its one
/// occurrence and nothing else.
pub proof fn lemma_remove_value_props(q: Seq<usize>, v: usize)
    requires
        q.no_duplicates(),
    ensures
        q.remove_value(v).no_duplicates(),
        !q.remove_value(v).contains(v),
        forall|x: usize| x != v ==> (#[trigger] q.remove_value(v).contains(x)) == q.contains(x),
        q.contains(v) ==> q.remove_value(v).len() == q.len() - 1,
        !q.contains(v) ==> q.remove_value(v) == q,
        forall|k: int|
            0 <= k < q.remove_value(v).len() ==> q.contains(#[trigger] q.remove_value(v)[k]),
{
    q.index_of_first_ensures(v);
    match q.index_of_first(v) {
        None => {},
        Some(j) => {
            q.remove_ensures(j);
            let q2 = q.remove(j);
            assert forall|k: int| 0 <= k < q2.len() implies q2[k] != v by {
                if k < j {
                    assert(q2[k] == q[k]);
                } else {
                    assert(q2[k] == q[k + 1]);
                }
            }
            assert forall|x: usize| x != v && q.contains(x) implies q2.contains(x) by {
                let k = choose|k: int| 0 <= k < q.len() && q[k] == x;
                if k < j {
                    assert(q2[k] == x);
                } else {
                    assert(k > j);
                    assert(q2[k - 1] == x);
                }
            }
            assert forall|x: usize| x != v && q2.contains(x) implies q.contains(x) by {
                let k = choose|k: int| 0 <= k < q2.len() && q2[k] == x;
                if k < j {
                    assert(q[k] == x);
                } else {
                    assert(q[k + 1] == x);
                }
            }
            assert forall|k: int| 0 <= k < q2.len() implies q.contains(#[trigger] q2[k]) by {
                if k < j {
                    assert(q2[k] == q[k]);
                } else {
                    assert(q2[k] == q[k + 1]);
                }
            }
            assert forall|k1: int, k2: int|
                0 <= k1 < k2 < q2.len() implies q2[k1] != q2[k2] by {
                let a1: int = if k1 < j {
                    k1
                } else {
                    k1 + 1
                };
                let a2: int = if k2 < j {
                    k2
                } else {
                    k2 + 1
                };
                assert(q2[k1] == q[a1]);
                assert(q2[k2] == q[a2]);
            }
        },
    }
}

/// Appending a value not yet present keeps a queue duplicate-free.
pub proof fn lemma_push_no_dup(q: Seq<usize>, v: usize)
    requires
        q.no_duplicates(),
        !q.contains(v),
    ensures
        q.push(v).no_duplicates(),
{
    let q2 = q.push(v);
    assert forall|k1: int, k2: int| 0 <= k1 < k2 < q2.len() implies q2[k1] != q2[k2] by {
        if k2 == q.len() {
            assert(q2[k1] == q[k1]);
        }
    }
}

/// The selector: the registration slab, the two queues (holding slab
/// indices), the poll-group list, and the number of threads currently
/// blocked in a wait.
pub struct Selector {
    pub registrations: Vec<State>,
    pub poll_group_queue: PollGroupQueue,
    pub poll_count: u32,
    pub update_deque: VecDeque<usize>,
    pub delete_queue: VecDeque<usize>,
}

impl Selector {
    /// Both queues hold valid, live slab indices, without duplicates; a
    /// registration's `update_enqueued` flag is set exactly when it sits
    /// on the update queue; queued-for-update registrations are not bound
    /// for deletion; queued-for-deletion registrations are.
    pub open spec fn queues_wf(&self) -> bool {
        &&& forall|k: int|
            0 <= k < self.update_deque@.len() ==> {
                let i = (#[trigger] self.update_deque@[k]) as int;
                &&& i < self.registrations@.len()
                &&& self.registrations@[i].active
                &&& self.registrations@[i].update_enqueued
                &&& !self.registrations@[i].delete_pending
            }
        &&& self.update_deque@.no_duplicates()
        &&& forall|i: int|
            0 <= i < self.registrations@.len() && (#[trigger] self.registrations@[i]).active
                && self.registrations@[i].update_enqueued ==> self.update_deque@.contains(
                i as usize,
            )
        &&& forall|k: int|
            0 <= k < self.delete_queue@.len() ==> {
                let i = (#[trigger] self.delete_queue@[k]) as int;
                &&& i < self.registrations@.len()
                &&& self.registrations@[i].active
                &&& self.registrations@[i].delete_pending
            }
        &&& self.delete_queue@.no_duplicates()
    }

    /// Every live registration satisfies its own invariant and points at
    /// an existing poll group.
    pub open spec fn regs_wf(&self) -> bool {
        forall|i: int|
            0 <= i < self.registrations@.len() && (#[trigger] self.registrations@[i]).active ==> {
                &&& self.registrations@[i].inv()
                &&& self.registrations@[i].poll_group < self.poll_group_queue.queue@.len()
            }
    }

    /// Group sizes are exact: each group's counter equals the number of
    /// live registrations charged to it, and no group exceeds its cap.
    pub open spec fn groups_wf(&self) -> bool {
        &&& self.poll_group_queue.wf()
        &&& forall|g: int|
            0 <= g < self.poll_group_queue.queue@.len() ==> (
            #[trigger] self.poll_group_queue.queue@[g]).group_size == group_load(
                self.registrations@,
                g,
            )
    }

    /// The selector's well-formedness: holds after `new` and is preserved
    /// by every public operation.
    pub open spec fn wf(&self) -> bool {
        &&& self.queues_wf()
        &&& self.regs_wf()
        &&& self.groups_wf()
    }

    /// The whole observable state, for stating that an operation left the
    /// selector unchanged.
    pub open spec fn model(&self) -> (Seq<State>, Seq<usize>, Seq<usize>, Seq<PollGroup>, u32) {
        (
            self.registrations@,
            self.update_deque@,
            self.delete_queue@,
            self.poll_group_queue.queue@,
            self.poll_count,
        )
    }

    /// A fresh selector: no registrations, no groups, empty queues.
    pub fn new() -> (s: Selector)
        ensures
            s.wf(),
            s.registrations@.len() == 0,
            s.update_deque@.len() == 0,
            s.delete_queue@.len() == 0,
            s.poll_group_queue.queue@.len() == 0,
            s.poll_count == 0,
    {
        Selector {
            registrations: Vec::new(),
            poll_group_queue: PollGroupQueue::new(),
            poll_count: 0,
            update_deque: VecDeque::new(),
            delete_queue: VecDeque::new(),
        }
    }
}

/// Position of the first occurrence of `v` in `q`, if any.
fn find_queue_index(q: &VecDeque<usize>, v: usize) -> (r: Option<usize>)
    ensures
        match r {
            Some(j) => {
                &&& j < q@.len()
                &&& q@[j as int] == v
                &&& forall|k: int| 0 <= k < j ==> q@[k] != v
                &&& q@.index_of_first(v) == Some(j as int)
            },
            None => !q@.contains(v),
        },
{
    let n = q.len();
    let mut j: usize = 0;
    while j < n
        invariant
            j <= n,
            n == q@.len(),
            forall|k: int| 0 <= k < j ==> q@[k] != v,
        decreases n - j,
    {
        if q[j] == v {
            proof {
                q@.index_of_first_ensures(v);
            }
            return Some(j);
        }
        j = j + 1;
    }
    proof {
        q@.index_of_first_ensures(v);
    }
    None
}

/// The operation left every observable part of the selector as it was.
pub open spec fn same_state(pre: Selector, post: Selector) -> bool {
    &&& post.registrations@ == pre.registrations@
    &&& post.update_deque@ == pre.update_deque@
    &&& post.delete_queue@ == pre.delete_queue@
    &&& post.poll_group_queue.queue@ == pre.poll_group_queue.queue@
    &&& post.poll_count == pre.poll_count
}

/// The registration `i` was torn down: its record is dead, it is off both
/// queues, and its poll-group slot was returned.
pub open spec fn finalized_effect(pre: Selector, post: Selector, i: usize) -> bool {
    let st = pre.registrations@[i as int];
    let g = st.poll_group as int;
    &&& post.registrations@ == pre.registrations@.update(i as int, spec_finalized(st))
    &&& post.update_deque@ == pre.update_deque@.remove_value(i)
    &&& post.delete_queue@ == pre.delete_queue@.remove_value(i)
    &&& post.poll_group_queue.queue@ == pre.poll_group_queue.queue@.update(
        g,
        (PollGroup {
            group_size: (pre.poll_group_queue.queue@[g].group_size - 1) as u32,
            afd_helper_handle: pre.poll_group_queue.queue@[g].afd_helper_handle,
        }),
    )
    &&& post.poll_count == pre.poll_count
}

/// The contract of `delete`: what each returned step means for the state.
pub open spec fn delete_post(
    pre: Selector,
    post: Selector,
    i: usize,
    force: bool,
    r: DeleteStep,
) -> bool {
    let st = pre.registrations@[i as int];
    if !st.delete_pending && st.poll_state == SockPollState::Pending {
        &&& r == (DeleteStep::NeedsCancel {
            reg: i,
            group_handle: pre.poll_group_queue.queue@[st.poll_group as int].afd_helper_handle,
        })
        &&& same_state(pre, post)
    } else if force || st.poll_state == SockPollState::Idle {
        &&& r == DeleteStep::Done
        &&& finalized_effect(pre, post, i)
    } else {
        &&& r == DeleteStep::Deferred
        &&& post.registrations@ == pre.registrations@.update(
            i as int,
            (State { delete_pending: true, update_enqueued: false, ..st }),
        )
        &&& post.update_deque@ == pre.update_deque@.remove_value(i)
        &&& post.delete_queue@ == (if st.delete_pending {
            pre.delete_queue@
        } else {
            pre.delete_queue@.push(i)
        })
        &&& post.poll_group_queue.queue@ == pre.poll_group_queue.queue@
        &&& post.poll_count == pre.poll_count
    }
}

/// The contract of one `update_events` step: the head registration (if
/// any) is popped, its flag cleared, and its update decided as `update`
/// decides it.
pub open spec fn update_step_post(pre: Selector, post: Selector, r: UpdateStep) -> bool {
    if pre.update_deque@.len() == 0 {
        &&& r == UpdateStep::QueueEmpty
        &&& same_state(pre, post)
    } else {
        let i = pre.update_deque@[0];
        let st = pre.registrations@[i as int];
        let handle = pre.poll_group_queue.queue@[st.poll_group as int].afd_helper_handle;
        &&& post.registrations@ == pre.registrations@.update(
            i as int,
            (State { update_enqueued: false, ..st }),
        )
        &&& post.update_deque@ == pre.update_deque@.subrange(1, pre.update_deque@.len() as int)
        &&& post.delete_queue@ == pre.delete_queue@
        &&& post.poll_group_queue.queue@ == pre.poll_group_queue.queue@
        &&& post.poll_count == pre.poll_count
        &&& r == (match st.poll_state {
            SockPollState::Pending => if wants_update(st) {
                UpdateStep::Issue(PollOp::Cancel { reg: i, group_handle: handle })
            } else {
                UpdateStep::Applied
            },
            SockPollState::Cancelled => UpdateStep::Applied,
            SockPollState::Idle => UpdateStep::Issue(
                PollOp::Start {
                    reg: i,
                    group_handle: handle,
                    info: PollInfo {
                        handle: st.base_sock,
                        events: epoll_to_afd(st.user_events),
                        timeout: i64::MAX,
                    },
                },
            ),
        })
    }
}

/// The contract of `feed_event`: what dispatching one completion does to
/// the registration it belongs to, to the queues, and to the groups, and
/// which event (if any) it emits.
pub open spec fn feed_post(pre: Selector, post: Selector, c: Completion, r: Option<Event>) -> bool {
    let st = pre.registrations@[c.reg as int];
    let g = st.poll_group as int;
    &&& r == spec_feed_event(st, c)
    &&& post.registrations@ == pre.registrations@.update(c.reg as int, spec_feed_state(st, c))
    &&& post.poll_count == pre.poll_count
    &&& if spec_feed_deletes(st, c) {
        &&& post.update_deque@ == pre.update_deque@.remove_value(c.reg)
        &&& post.delete_queue@ == pre.delete_queue@.remove_value(c.reg)
        &&& post.poll_group_queue.queue@ == pre.poll_group_queue.queue@.update(
            g,
            (PollGroup {
                group_size: (pre.poll_group_queue.queue@[g].group_size - 1) as u32,
                afd_helper_handle: pre.poll_group_queue.queue@[g].afd_helper_handle,
            }),
        )
    } else {
        &&& post.update_deque@ == (if st.update_enqueued {
            pre.update_deque@
        } else {
            pre.update_deque@.push(c.reg)
        })
        &&& post.delete_queue@ == pre.delete_queue@
        &&& post.poll_group_queue.queue@ == pre.poll_group_queue.queue@
    }
}

/// A completion the selector can accept: it names a live registration
/// with an operation in flight.
pub open spec fn completion_valid_regs(regs: Seq<State>, c: Completion) -> bool {
    &&& c.reg < regs.len()
    &&& regs[c.reg as int].active
    &&& regs[c.reg as int].poll_state != SockPollState::Idle
}

pub open spec fn completion_valid(s: Selector, c: Completion) -> bool {
    completion_valid_regs(s.registrations@, c)
}

/// The events a batch of completions emits against a registration slab,
/// in batch order.
pub open spec fn spec_selected_events(regs: Seq<State>, comps: Seq<Completion>) -> Seq<Event>
    decreases comps.len(),
{
    if comps.len() == 0 {
        Seq::empty()
    } else {
        let rest = spec_selected_events(regs, comps.drop_last());
        match spec_feed_event(regs[comps.last().reg as int], comps.last()) {
            Some(e) => rest.push(e),
            None => rest,
        }
    }
}

/// The record a fresh registration starts from: idle, interests and token
/// set, queued for its first update.
pub open spec fn spec_registered(
    base_sock: u64,
    poll_group: usize,
    interests: Interests,
    user_data: u64,
) -> State {
    State {
        base_sock,
        poll_group,
        user_events: user_events_mask(interests),
        pending_events: 0u32,
        user_data,
        update_enqueued: true,
        delete_pending: false,
        poll_state: SockPollState::Idle,
        active: true,
    }
}

/// A group no live registration is charged to carries no load.
pub proof fn lemma_group_load_unused(regs: Seq<State>, g: int)
    requires
        forall|i: int| 0 <= i < regs.len() ==> group_contrib(#[trigger] regs[i], g) == 0,
    ensures
        group_load(regs, g) == 0,
    decreases regs.len(),
{
    if regs.len() > 0 {
        lemma_group_load_unused(regs.drop_last(), g);
    }
}

/// Replacing one registration with a record of the same liveness and group
/// leaves every group's load unchanged.
proof fn lemma_same_contrib_update(regs: Seq<State>, i: int, st: State)
    requires
        0 <= i < regs.len(),
        st.active == regs[i].active,
        st.poll_group == regs[i].poll_group,
    ensures
        forall|g: int| group_load(regs.update(i, st), g) == group_load(regs, g),
{
    assert forall|g: int| group_load(regs.update(i, st), g) == group_load(regs, g) by {
        lemma_group_load_update(regs, i, st, g);
    }
}

impl Selector {
    /// Takes a registration off the update queue (if it is there) and
    /// clears its `update_enqueued` flag.
    pub(crate) fn dequeue_update(&mut self, i: usize)
        requires
            old(self).wf(),
            i < old(self).registrations@.len(),
        ensures
            final(self).wf(),
            final(self).registrations@ == old(self).registrations@.update(
                i as int,
                (State { update_enqueued: false, ..old(self).registrations@[i as int] }),
            ),
            final(self).update_deque@ == old(self).update_deque@.remove_value(i),
            final(self).delete_queue@ == old(self).delete_queue@,
            final(self).poll_group_queue.queue@ == old(self).poll_group_queue.queue@,
            final(self).poll_count == old(self).poll_count,
    {
        let ghost q0 = self.update_deque@;
        match find_queue_index(&self.update_deque, i) {
            Some(j) => {
                self.update_deque.remove(j);
            },
            None => {
                proof {
                    q0.index_of_first_ensures(i);
                }
            },
        }
        assert(self.update_deque@ == q0.remove_value(i));
        let mut st = self.registrations[i];
        st.update_enqueued = false;
        self.registrations[i] = st;
        proof {
            let pre = *old(self);
            lemma_remove_value_props(q0, i);
            lemma_same_contrib_update(pre.registrations@, i as int, st);
            assert forall|x: int|
                0 <= x < self.registrations@.len() && (#[trigger] self.registrations@[x]).active
                    && self.registrations@[x].update_enqueued implies self.update_deque@.contains(
                x as usize,
            ) by {
                assert(x != i as int);
                assert(self.registrations@.len() == self.registrations.len());
                assert((x as usize) != i);
                assert(pre.registrations@[x].update_enqueued && pre.registrations@[x].active);
                assert(pre.update_deque@.contains(x as usize));
                assert(q0.remove_value(i).contains(x as usize));
            }
        }
    }

    /// Takes a registration off the delete queue, if it is there.
    pub(crate) fn dequeue_delete(&mut self, i: usize)
        requires
            old(self).wf(),
            i < old(self).registrations@.len(),
        ensures
            final(self).wf(),
            final(self).delete_queue@ == old(self).delete_queue@.remove_value(i),
            final(self).registrations@ == old(self).registrations@,
            final(self).update_deque@ == old(self).update_deque@,
            final(self).poll_group_queue.queue@ == old(self).poll_group_queue.queue@,
            final(self).poll_count == old(self).poll_count,
    {
        let ghost q0 = self.delete_queue@;
        match find_queue_index(&self.delete_queue, i) {
            Some(j) => {
                self.delete_queue.remove(j);
            },
            None => {
                proof {
                    q0.index_of_first_ensures(i);
                }
            },
        }
        proof {
            lemma_remove_value_props(q0, i);
        }
    }

    /// Puts a live registration on the update queue, exactly once: a
    /// second request while one is already queued changes nothing.
    pub fn request_update(&mut self, i: usize)
        requires
            old(self).wf(),
            i < old(self).registrations@.len(),
            old(self).registrations@[i as int].active,
            !old(self).registrations@[i as int].delete_pending,
        ensures
            final(self).wf(),
            old(self).registrations@[i as int].update_enqueued ==> same_state(
                *old(self),
                *final(self),
            ),
            !old(self).registrations@[i as int].update_enqueued ==> {
                &&& final(self).registrations@ == old(self).registrations@.update(
                    i as int,
                    (State { update_enqueued: true, ..old(self).registrations@[i as int] }),
                )
                &&& final(self).update_deque@ == old(self).update_deque@.push(i)
                &&& final(self).delete_queue@ == old(self).delete_queue@
                &&& final(self).poll_group_queue.queue@ == old(self).poll_group_queue.queue@
                &&& final(self).poll_count == old(self).poll_count
            },
    {
        if !self.registrations[i].update_enqueued {
            let ghost pre = *self;
            let mut st = self.registrations[i];
            st.update_enqueued = true;
            self.registrations[i] = st;
            self.update_deque.push_back(i);
            proof {
                assert(!pre.update_deque@.contains(i));
                lemma_push_no_dup(pre.update_deque@, i);
                lemma_same_contrib_update(pre.registrations@, i as int, st);
                assert forall|x: int|
                    0 <= x < self.registrations@.len() && (
                    #[trigger] self.registrations@[x]).active
                        && self.registrations@[x].update_enqueued implies self
                    .update_deque@.contains(x as usize) by {
                    if x == i as int {
                        assert(self.update_deque@[pre.update_deque@.len() as int] == i);
                    } else {
                        assert(pre.update_deque@.contains(x as usize));
                        let k = choose|k: int|
                            0 <= k < pre.update_deque@.len() && pre.update_deque@[k] == x as usize;
                        assert(self.update_deque@[k] == x as usize);
                    }
                }
            }
        }
    }

    /// Tears a live registration out of the slab: the slot goes dead and
    /// its poll-group slot is returned.  The caller has already taken the
    /// registration off both queues.
    pub(crate) fn release_poll_group(&mut self, i: usize)
        requires
            old(self).wf(),
            i < old(self).registrations@.len(),
            old(self).registrations@[i as int].active,
            !old(self).registrations@[i as int].update_enqueued,
            !old(self).delete_queue@.contains(i),
        ensures
            final(self).wf(),
            final(self).registrations@ == old(self).registrations@.update(
                i as int,
                (State { active: false, ..old(self).registrations@[i as int] }),
            ),
            final(self).poll_group_queue.queue@ == old(self).poll_group_queue.queue@.update(
                old(self).registrations@[i as int].poll_group as int,
                (PollGroup {
                    group_size: (old(self).poll_group_queue.queue@[old(
                        self,
                    ).registrations@[i as int].poll_group as int].group_size - 1) as u32,
                    afd_helper_handle: old(self).poll_group_queue.queue@[old(
                        self,
                    ).registrations@[i as int].poll_group as int].afd_helper_handle,
                }),
            ),
            final(self).update_deque@ == old(self).update_deque@,
            final(self).delete_queue@ == old(self).delete_queue@,
            final(self).poll_count == old(self).poll_count,
    {
        let ghost pre = *self;
        let st = self.registrations[i];
        proof {
            lemma_group_load_at_least(self.registrations@, i as int, st.poll_group as int);
        }
        self.poll_group_queue.release(st.poll_group);
        let mut st2 = st;
        st2.active = false;
        self.registrations[i] = st2;
        proof {
            assert forall|g: int|
                0 <= g < self.poll_group_queue.queue@.len() implies (
            #[trigger] self.poll_group_queue.queue@[g]).group_size == group_load(
                self.registrations@,
                g,
            ) by {
                lemma_group_load_update(pre.registrations@, i as int, st2, g);
            }
            assert forall|k: int|
                0 <= k < self.update_deque@.len() implies {
                let x = (#[trigger] self.update_deque@[k]) as int;
                &&& x < self.registrations@.len()
                &&& self.registrations@[x].active
                &&& self.registrations@[x].update_enqueued
                &&& !self.registrations@[x].delete_pending
            } by {
                assert(pre.update_deque@[k] == self.update_deque@[k]);
            }
        }
    }

    /// Records the outcome the embedding program got from trying to cancel
    /// this registration's in-flight poll operation.  Everything but a
    /// real failure (already complete, issued, or no longer known to the
    /// kernel) moves the record to `Cancelled` with nothing watched; a
    /// real failure changes nothing and surfaces the kernel's code.
    pub fn cancel_poll(&mut self, i: usize, outcome: CancelOutcome) -> (r: Result<(), u32>)
        requires
            old(self).wf(),
            i < old(self).registrations@.len(),
            old(self).registrations@[i as int].active,
            old(self).registrations@[i as int].poll_state == SockPollState::Pending,
        ensures
            final(self).wf(),
            outcome matches CancelOutcome::Failed(code) ==> r == Err::<(), u32>(code) && same_state(
                *old(self),
                *final(self),
            ),
            !(outcome is Failed) ==> {
                &&& r == Ok::<(), u32>(())
                &&& final(self).registrations@ == old(self).registrations@.update(
                    i as int,
                    (State {
                        poll_state: SockPollState::Cancelled,
                        pending_events: 0u32,
                        ..old(self).registrations@[i as int]
                    }),
                )
                &&& final(self).update_deque@ == old(self).update_deque@
                &&& final(self).delete_queue@ == old(self).delete_queue@
                &&& final(self).poll_group_queue.queue@ == old(self).poll_group_queue.queue@
                &&& final(self).poll_count == old(self).poll_count
            },
    {
        if let CancelOutcome::Failed(code) = outcome {
            return Err(code);
        }
        let ghost pre = *self;
        let mut st = self.registrations[i];
        st.poll_state = SockPollState::Cancelled;
        st.pending_events = 0;
        self.registrations[i] = st;
        proof {
            crate::sock::lemma_zero_and(st.user_events);
            lemma_same_contrib_update(pre.registrations@, i as int, st);
            assert forall|x: int|
                0 <= x < self.registrations@.len() && (#[trigger] self.registrations@[x]).active
                    && self.registrations@[x].update_enqueued implies self.update_deque@.contains(
                x as usize,
            ) by {
                assert(pre.registrations@[x].update_enqueued && pre.registrations@[x].active);
            }
        }
        Ok(())
    }

    /// The update step for one registration: decide what, if anything,
    /// must be done to make the kernel watch the user's current
    /// interests.  Pending and already covering: nothing.  Pending and
    /// not covering: the in-flight operation must be cancelled (the
    /// completion re-arms).  Cancelled: wait for the completion.  Idle:
    /// a fresh poll operation must be issued, watching the translation of
    /// the current interests.
    pub fn update(&mut self, i: usize) -> (r: Option<PollOp>)
        requires
            old(self).wf(),
            i < old(self).registrations@.len(),
            old(self).registrations@[i as int].active,
            !old(self).registrations@[i as int].delete_pending,
        ensures
            final(self).wf(),
            same_state(*old(self), *final(self)),
            ({
                let st = old(self).registrations@[i as int];
                let handle =
                    old(self).poll_group_queue.queue@[st.poll_group as int].afd_helper_handle;
                match st.poll_state {
                    SockPollState::Pending => r == if wants_update(st) {
                        Some(PollOp::Cancel { reg: i, group_handle: handle })
                    } else {
                        None::<PollOp>
                    },
                    SockPollState::Cancelled => r is None,
                    SockPollState::Idle => r == Some(
                        PollOp::Start {
                            reg: i,
                            group_handle: handle,
                            info: PollInfo {
                                handle: st.base_sock,
                                events: epoll_to_afd(st.user_events),
                                timeout: i64::MAX,
                            },
                        },
                    ),
                }
            }),
    {
        let st = self.registrations[i];
        let group_handle = self.poll_group_queue.queue[st.poll_group].afd_helper_handle;
        match st.poll_state {
            SockPollState::Pending => {
                if 0 != (st.user_events & SOCK_KNOWN_EPOLL_EVENTS & !st.pending_events) {
                    Some(PollOp::Cancel { reg: i, group_handle })
                } else {
                    None
                }
            },
            SockPollState::Cancelled => None,
            SockPollState::Idle => {
                let info = PollInfo {
                    handle: st.base_sock,
                    events: sock_epoll_events_to_afd_events(st.user_events),
                    timeout: i64::MAX,
                };
                Some(PollOp::Start { reg: i, group_handle, info })
            },
        }
    }

    /// Marks a registration for deletion and tears it down as far as the
    /// kernel allows.  An in-flight poll operation must be cancelled
    /// first (`NeedsCancel`; call again after reporting the outcome).  A
    /// record whose operation is still winding down is queued and torn
    /// down when its completion arrives (`Deferred`).  Otherwise — or
    /// always with `force` — the record leaves the slab and returns its
    /// poll-group slot at once (`Done`).
    pub fn delete(&mut self, i: usize, force: bool) -> (r: DeleteStep)
        requires
            old(self).wf(),
            i < old(self).registrations@.len(),
            old(self).registrations@[i as int].active,
        ensures
            final(self).wf(),
            delete_post(*old(self), *final(self), i, force, r),
    {
        let ghost pre = *self;
        let st0 = self.registrations[i];
        if !st0.delete_pending && matches!(st0.poll_state, SockPollState::Pending) {
            let group_handle = self.poll_group_queue.queue[st0.poll_group].afd_helper_handle;
            return DeleteStep::NeedsCancel { reg: i, group_handle };
        }
        self.dequeue_update(i);
        let ghost mid1 = *self;
        let mut st = self.registrations[i];
        st.delete_pending = true;
        self.registrations[i] = st;
        proof {
            assert(self.registrations@ == pre.registrations@.update(i as int, st));
            lemma_same_contrib_update(mid1.registrations@, i as int, st);
            lemma_remove_value_props(pre.update_deque@, i);
            assert forall|x: int|
                0 <= x < self.registrations@.len() && (#[trigger] self.registrations@[x]).active
                    && self.registrations@[x].update_enqueued implies self.update_deque@.contains(
                x as usize,
            ) by {
                assert(mid1.registrations@[x].update_enqueued && mid1.registrations@[x].active);
                assert(mid1.update_deque@.contains(x as usize));
            }
        }
        if force || matches!(st.poll_state, SockPollState::Idle) {
            let ghost mid2 = *self;
            self.dequeue_delete(i);
            proof {
                lemma_remove_value_props(mid2.delete_queue@, i);
            }
            self.release_poll_group(i);
            proof {
                assert(self.registrations@ =~= pre.registrations@.update(
                    i as int,
                    spec_finalized(pre.registrations@[i as int]),
                ));
            }
            DeleteStep::Done
        } else {
            if !st0.delete_pending {
                let ghost mid2 = *self;
                self.delete_queue.push_back(i);
                proof {
                    assert(!mid2.delete_queue@.contains(i));
                    lemma_push_no_dup(mid2.delete_queue@, i);
                    assert forall|k: int|
                        0 <= k < self.delete_queue@.len() implies {
                        let x = (#[trigger] self.delete_queue@[k]) as int;
                        &&& x < self.registrations@.len()
                        &&& self.registrations@[x].active
                        &&& self.registrations@[x].delete_pending
                    } by {
                        if k < mid2.delete_queue@.len() {
                            assert(self.delete_queue@[k] == mid2.delete_queue@[k]);
                        }
                    }
                }
            }
            DeleteStep::Deferred
        }
    }

    /// Deregisters a socket: `delete` without force.
    pub fn deregister(&mut self, i: usize) -> (r: DeleteStep)
        requires
            old(self).wf(),
            i < old(self).registrations@.len(),
            old(self).registrations@[i as int].active,
        ensures
            final(self).wf(),
            delete_post(*old(self), *final(self), i, false, r),
    {
        self.delete(i, false)
    }

    /// Records the synchronous outcome of the poll operation the
    /// embedding program issued for this registration (a `Start` op).
    /// Accepted or pending: the record is `Pending` and the kernel now
    /// watches exactly the current interests.  An invalid handle means
    /// the socket was closed out from under us: the registration is
    /// silently torn down.  Any other code is surfaced and changes
    /// nothing.
    pub fn apply_poll_result(&mut self, i: usize, code: u32) -> (r: Result<(), u32>)
        requires
            old(self).wf(),
            i < old(self).registrations@.len(),
            old(self).registrations@[i as int].active,
            !old(self).registrations@[i as int].delete_pending,
            old(self).registrations@[i as int].poll_state == SockPollState::Idle,
        ensures
            final(self).wf(),
            code == 0 || code == ERROR_IO_PENDING || code == WSAEINPROGRESS ==> {
                &&& r == Ok::<(), u32>(())
                &&& final(self).registrations@ == old(self).registrations@.update(
                    i as int,
                    (State {
                        poll_state: SockPollState::Pending,
                        pending_events: old(self).registrations@[i as int].user_events,
                        ..old(self).registrations@[i as int]
                    }),
                )
                &&& final(self).update_deque@ == old(self).update_deque@
                &&& final(self).delete_queue@ == old(self).delete_queue@
                &&& final(self).poll_group_queue.queue@ == old(self).poll_group_queue.queue@
                &&& final(self).poll_count == old(self).poll_count
            },
            code == ERROR_INVALID_HANDLE ==> r == Ok::<(), u32>(()) && finalized_effect(
                *old(self),
                *final(self),
                i,
            ),
            code != 0 && code != ERROR_IO_PENDING && code != WSAEINPROGRESS && code
                != ERROR_INVALID_HANDLE ==> r == Err::<(), u32>(code) && same_state(
                *old(self),
                *final(self),
            ),
    {
        if code == 0 || code == ERROR_IO_PENDING || code == WSAEINPROGRESS {
            let ghost pre = *self;
            let mut st = self.registrations[i];
            st.poll_state = SockPollState::Pending;
            st.pending_events = st.user_events;
            self.registrations[i] = st;
            proof {
                crate::sock::lemma_self_and_not(st.user_events);
                lemma_same_contrib_update(pre.registrations@, i as int, st);
                assert forall|x: int|
                    0 <= x < self.registrations@.len() && (
                    #[trigger] self.registrations@[x]).active
                        && self.registrations@[x].update_enqueued implies self
                    .update_deque@.contains(x as usize) by {
                    assert(pre.registrations@[x].update_enqueued && pre.registrations@[x].active);
                }
            }
            Ok(())
        } else if code == ERROR_INVALID_HANDLE {
            let _ = self.delete(i, false);
            Ok(())
        } else {
            Err(code)
        }
    }

    /// Registers a socket: acquires a poll-group slot (a fresh helper
    /// handle must be supplied exactly when the allocator needs a new
    /// group — `needs_poll_group` says so beforehand), creates the idle
    /// registration record with the given interests and token, and queues
    /// it for its first update.  Returns the new registration's index.
    pub fn register(
        &mut self,
        base_sock: u64,
        fresh_helper_handle: Option<u64>,
        user_data: u64,
        interests: Interests,
    ) -> (r: Result<usize, PollGroupError>)
        requires
            old(self).wf(),
        ensures
            final(self).wf(),
            r is Err <==> (old(self).poll_group_queue.needs_new_group() && fresh_helper_handle
                is None),
            r is Err ==> same_state(*old(self), *final(self)) && r == Err::<usize, PollGroupError>(
                PollGroupError::HelperHandleUnavailable,
            ),
            r is Ok ==> {
                let idx = old(self).registrations@.len() as usize;
                let g = if old(self).poll_group_queue.needs_new_group() {
                    old(self).poll_group_queue.queue@.len() as usize
                } else {
                    (old(self).poll_group_queue.queue@.len() - 1) as usize
                };
                &&& r == Ok::<usize, PollGroupError>(idx)
                &&& final(self).registrations@ == old(self).registrations@.push(
                    spec_registered(base_sock, g, interests, user_data),
                )
                &&& final(self).update_deque@ == old(self).update_deque@.push(idx)
                &&& final(self).delete_queue@ == old(self).delete_queue@
                &&& final(self).poll_count == old(self).poll_count
                &&& old(self).poll_group_queue.needs_new_group() ==> final(self).poll_group_queue.queue@ == old(self).poll_group_queue.queue@.push(
                    (PollGroup {
                        group_size: 1u32,
                        afd_helper_handle: fresh_helper_handle.unwrap(),
                    }),
                )
                &&& !old(self).poll_group_queue.needs_new_group() ==> final(self).poll_group_queue.queue@ == old(self).poll_group_queue.queue@.update(
                    g as int,
                    (PollGroup {
                        group_size: (old(self).poll_group_queue.queue@[g as int].group_size
                            + 1) as u32,
                        afd_helper_handle: old(self).poll_group_queue.queue@[g as int].afd_helper_handle,
                    }),
                )
            },
    {
        let ghost pre = *self;
        let g = match self.poll_group_queue.acquire(fresh_helper_handle) {
            Ok(g) => g,
            Err(e) => {
                return Err(e);
            },
        };
        let idx = self.registrations.len();
        let mut st = State::new(base_sock, g);
        let _ = st.set_events(interests, user_data);
        st.update_enqueued = true;
        self.registrations.push(st);
        self.update_deque.push_back(idx);
        proof {
            crate::sock::lemma_zero_and(user_events_mask(interests));
            assert(st == spec_registered(base_sock, g, interests, user_data));
            assert(!pre.update_deque@.contains(idx));
            lemma_push_no_dup(pre.update_deque@, idx);
            assert forall|k: int|
                0 <= k < self.update_deque@.len() implies {
                let x = (#[trigger] self.update_deque@[k]) as int;
                &&& x < self.registrations@.len()
                &&& self.registrations@[x].active
                &&& self.registrations@[x].update_enqueued
                &&& !self.registrations@[x].delete_pending
            } by {
                if k < pre.update_deque@.len() {
                    assert(self.update_deque@[k] == pre.update_deque@[k]);
                    assert(self.registrations@[pre.update_deque@[k] as int]
                        == pre.registrations@[pre.update_deque@[k] as int]);
                }
            }
            assert forall|x: int|
                0 <= x < self.registrations@.len() && (#[trigger] self.registrations@[x]).active
                    && self.registrations@[x].update_enqueued implies self.update_deque@.contains(
                x as usize,
            ) by {
                if x < pre.registrations@.len() {
                    assert(pre.registrations@[x].update_enqueued && pre.registrations@[x].active);
                    let k = choose|k: int|
                        0 <= k < pre.update_deque@.len() && pre.update_deque@[k] == x as usize;
                    assert(self.update_deque@[k] == x as usize);
                } else {
                    assert(self.update_deque@[pre.update_deque@.len() as int] == idx);
                }
            }
            assert forall|k: int|
                0 <= k < self.delete_queue@.len() implies {
                let x = (#[trigger] self.delete_queue@[k]) as int;
                &&& x < self.registrations@.len()
                &&& self.registrations@[x].active
                &&& self.registrations@[x].delete_pending
            } by {
                assert(self.registrations@[pre.delete_queue@[k] as int]
                    == pre.registrations@[pre.delete_queue@[k] as int]);
            }
            assert forall|gi: int|
                0 <= gi < self.poll_group_queue.queue@.len() implies (
            #[trigger] self.poll_group_queue.queue@[gi]).group_size == group_load(
                self.registrations@,
                gi,
            ) by {
                lemma_group_load_push(pre.registrations@, st, gi);
                if gi == g as int && pre.poll_group_queue.needs_new_group() {
                    lemma_group_load_unused(pre.registrations@, gi);
                }
            }
        }
        Ok(idx)
    }

    /// Changes the interests and token of an existing registration.  If
    /// the user now wants strictly more than the kernel is known to
    /// watch, the registration is queued for an update (once).  Asking
    /// for exactly what is already registered changes nothing at all.
    pub fn reregister(&mut self, i: usize, user_data: u64, interests: Interests)
        requires
            old(self).wf(),
            i < old(self).registrations@.len(),
            old(self).registrations@[i as int].active,
            !old(self).registrations@[i as int].delete_pending,
        ensures
            final(self).wf(),
            ({
                let st0 = old(self).registrations@[i as int];
                let st1 = spec_set_events(st0, interests, user_data);
                &&& final(self).registrations@ == old(self).registrations@.update(
                    i as int,
                    (State {
                        update_enqueued: st0.update_enqueued || wants_update(st1),
                        ..st1
                    }),
                )
                &&& final(self).update_deque@ == (if wants_update(st1) && !st0.update_enqueued {
                    old(self).update_deque@.push(i)
                } else {
                    old(self).update_deque@
                })
                &&& final(self).delete_queue@ == old(self).delete_queue@
                &&& final(self).poll_group_queue.queue@ == old(self).poll_group_queue.queue@
                &&& final(self).poll_count == old(self).poll_count
                &&& (st1 == st0 && st0.update_enqueued) ==> final(self).model() == old(self).model()
            }),
    {
        let ghost pre = *self;
        let mut st = self.registrations[i];
        let need = st.set_events(interests, user_data);
        self.registrations[i] = st;
        proof {
            crate::sock::lemma_mask_and_subset(
                pre.registrations@[i as int].pending_events,
                st.user_events,
            );
            crate::sock::lemma_zero_and(st.user_events);
            lemma_same_contrib_update(pre.registrations@, i as int, st);
            assert forall|x: int|
                0 <= x < self.registrations@.len() && (#[trigger] self.registrations@[x]).active
                    && self.registrations@[x].update_enqueued implies self.update_deque@.contains(
                x as usize,
            ) by {
                assert(pre.registrations@[x].update_enqueued && pre.registrations@[x].active);
            }
        }
        if need {
            self.request_update(i);
            proof {
                if pre.registrations@[i as int].update_enqueued {
                } else {
                    assert(self.registrations@ =~= pre.registrations@.update(
                        i as int,
                        (State { update_enqueued: true, ..st }),
                    ));
                }
            }
        }
        proof {
            let st0 = pre.registrations@[i as int];
            let st1 = spec_set_events(st0, interests, user_data);
            if st1 == st0 && st0.update_enqueued {
                assert(self.registrations@ =~= pre.registrations@);
            }
        }
    }

    /// Whether the next `register` will need a fresh helper handle for a
    /// new poll group.
    pub fn needs_poll_group(&self) -> (b: bool)
        ensures
            b == self.poll_group_queue.needs_new_group(),
    {
        let n = self.poll_group_queue.queue.len();
        n == 0 || self.poll_group_queue.queue[n - 1].group_size >= MAX_SOCKET_PER_POLL_GROUP
    }

    /// One step of draining the update queue: pops the head registration
    /// and decides its update.  The embedding program calls this in a
    /// loop until `QueueEmpty`, performing each returned kernel operation
    /// and reporting its outcome before the next step.
    pub fn update_events(&mut self) -> (r: UpdateStep)
        requires
            old(self).wf(),
        ensures
            final(self).wf(),
            update_step_post(*old(self), *final(self), r),
    {
        let ghost pre = *self;
        match self.update_deque.pop_front() {
            None => UpdateStep::QueueEmpty,
            Some(i) => {
                let mut st = self.registrations[i];
                st.update_enqueued = false;
                self.registrations[i] = st;
                proof {
                    lemma_same_contrib_update(pre.registrations@, i as int, st);
                    assert forall|k: int|
                        0 <= k < self.update_deque@.len() implies {
                        let x = (#[trigger] self.update_deque@[k]) as int;
                        &&& x < self.registrations@.len()
                        &&& self.registrations@[x].active
                        &&& self.registrations@[x].update_enqueued
                        &&& !self.registrations@[x].delete_pending
                    } by {
                        assert(self.update_deque@[k] == pre.update_deque@[k + 1]);
                        assert(pre.update_deque@[k + 1] != i);
                    }
                    assert forall|x: int|
                        0 <= x < self.registrations@.len() && (
                        #[trigger] self.registrations@[x]).active
                            && self.registrations@[x].update_enqueued implies self
                        .update_deque@.contains(x as usize) by {
                        assert(x != i as int);
                        assert(self.registrations@.len() == self.registrations.len());
                        assert((x as usize) != i);
                        assert(pre.registrations@[x].update_enqueued
                            && pre.registrations@[x].active);
                        let k = choose|k: int|
                            0 <= k < pre.update_deque@.len() && pre.update_deque@[k] == x as usize;
                        assert(k != 0);
                        assert(self.update_deque@[k - 1] == x as usize);
                    }
                }
                match self.update(i) {
                    None => UpdateStep::Applied,
                    Some(op) => UpdateStep::Issue(op),
                }
            },
        }
    }

    /// Drains the update queue (one step at a time) only when some thread
    /// is currently blocked in a wait — the discipline that makes a
    /// registration change from one thread visible to a peer already
    /// waiting.
    pub fn update_if_polling(&mut self) -> (r: UpdateStep)
        requires
            old(self).wf(),
        ensures
            final(self).wf(),
            old(self).poll_count > 0 ==> update_step_post(*old(self), *final(self), r),
            old(self).poll_count == 0 ==> r == UpdateStep::QueueEmpty && same_state(
                *old(self),
                *final(self),
            ),
    {
        if self.poll_count > 0 {
            self.update_events()
        } else {
            UpdateStep::QueueEmpty
        }
    }

    /// Dispatches one raw completion to the registration it belongs to.
    /// The operation leaves flight; a registration bound for deletion (or
    /// whose socket the kernel reports as locally closed) is finalized
    /// silently; otherwise the registration is re-queued for re-arming
    /// and the completion's readiness, masked by the current interests,
    /// is emitted under the registration's token — once: a delivered
    /// one-shot clears the interests.
    pub fn feed_event(&mut self, c: Completion) -> (r: Option<Event>)
        requires
            old(self).wf(),
            c.reg < old(self).registrations@.len(),
            old(self).registrations@[c.reg as int].active,
            old(self).registrations@[c.reg as int].poll_state != SockPollState::Idle,
        ensures
            final(self).wf(),
            feed_post(*old(self), *final(self), c, r),
    {
        let ghost pre = *self;
        let i = c.reg;
        let st0 = self.registrations[i];
        let mut st = st0;
        st.poll_state = SockPollState::Idle;
        st.pending_events = 0;
        self.registrations[i] = st;
        proof {
            crate::sock::lemma_zero_and(st.user_events);
            lemma_same_contrib_update(pre.registrations@, i as int, st);
            assert forall|x: int|
                0 <= x < self.registrations@.len() && (#[trigger] self.registrations@[x]).active
                    && self.registrations@[x].update_enqueued implies self.update_deque@.contains(
                x as usize,
            ) by {
                assert(pre.registrations@[x].update_enqueued && pre.registrations@[x].active);
            }
        }
        let ghost mid = *self;
        if st0.delete_pending {
            let _ = self.delete(i, false);
            proof {
                assert(self.registrations@ =~= pre.registrations@.update(
                    i as int,
                    spec_feed_state(st0, c),
                ));
            }
            return None;
        }
        let mut epoll_events: u32 = 0;
        let mut close_detected = false;
        if c.status == STATUS_CANCELLED {
        } else if c.status < 0 {
            epoll_events = EPOLLERR;
        } else if c.number_of_handles < 1 {
        } else if c.events & AFD_POLL_LOCAL_CLOSE != 0 {
            close_detected = true;
        } else {
            epoll_events = sock_afd_events_to_epoll_events(&c.events);
        }
        if close_detected {
            let _ = self.delete(i, false);
            proof {
                assert(self.registrations@ =~= pre.registrations@.update(
                    i as int,
                    spec_feed_state(st0, c),
                ));
            }
            return None;
        }
        self.request_update(i);
        proof {
            if mid.registrations@[i as int].update_enqueued {
            } else {
                assert(self.registrations@ =~= pre.registrations@.update(
                    i as int,
                    (State { update_enqueued: true, ..st }),
                ));
            }
        }
        epoll_events = epoll_events & st0.user_events;
        proof {
            crate::sock::lemma_mask_and_subset(spec_feed_readiness(c), st0.user_events);
        }
        if epoll_events == 0 {
            proof {
                assert(self.registrations@ =~= pre.registrations@.update(
                    i as int,
                    spec_feed_state(st0, c),
                ));
            }
            return None;
        }
        if st0.user_events & EPOLLONESHOT != 0 {
            let ghost mid2 = *self;
            let mut st2 = self.registrations[i];
            st2.user_events = 0;
            self.registrations[i] = st2;
            proof {
                crate::sock::lemma_zero_and(0u32);
                lemma_same_contrib_update(mid2.registrations@, i as int, st2);
                assert forall|x: int|
                    0 <= x < self.registrations@.len() && (
                    #[trigger] self.registrations@[x]).active
                        && self.registrations@[x].update_enqueued implies self
                    .update_deque@.contains(x as usize) by {
                    assert(mid2.registrations@[x].update_enqueued
                        && mid2.registrations@[x].active);
                }
                assert(self.registrations@ =~= pre.registrations@.update(
                    i as int,
                    spec_feed_state(st0, c),
                ));
            }
        } else {
            proof {
                assert(self.registrations@ =~= pre.registrations@.update(
                    i as int,
                    spec_feed_state(st0, c),
                ));
            }
        }
        Some(Event { readiness: epoll_events, token: st0.user_data })
    }

    /// Dispatches a batch of raw completions, one `feed_event` each,
    /// appending every emitted event to `events` (cleared first), and
    /// notes that this thread has left its wait.  Returns the number of
    /// events delivered.  The completions belong to distinct live
    /// registrations with an operation in flight — one batch never holds
    /// two completions of one socket, as each socket has at most one
    /// operation in flight.
    pub fn select(&mut self, events: &mut Events, completions: &Vec<Completion>) -> (n: usize)
        requires
            old(self).wf(),
            old(self).poll_count > 0,
            forall|k: int|
                0 <= k < completions@.len() ==> completion_valid(
                    *old(self),
                    #[trigger] completions@[k],
                ),
            forall|k1: int, k2: int|
                0 <= k1 < k2 < completions@.len() ==> completions@[k1].reg
                    != completions@[k2].reg,
        ensures
            final(self).wf(),
            final(self).poll_count == old(self).poll_count - 1,
            final(events).events@ == spec_selected_events(
                old(self).registrations@,
                completions@,
            ),
            final(events).cap == old(events).cap,
            n == final(events).events@.len(),
            completions@.len() == 0 ==> n == 0,
            final(self).registrations@.len() == old(self).registrations@.len(),
            forall|k: int|
                0 <= k < completions@.len() ==> final(self).registrations@[(
                #[trigger] completions@[k]).reg as int] == spec_feed_state(
                    old(self).registrations@[completions@[k].reg as int],
                    completions@[k],
                ),
            forall|i: int|
                0 <= i < old(self).registrations@.len() && (forall|k: int|
                    0 <= k < completions@.len() ==> (#[trigger] completions@[k]).reg != i)
                    ==> final(self).registrations@[i] == old(self).registrations@[i],
    {
        events.clear();
        self.poll_count = self.poll_count - 1;
        let ghost regs0 = old(self).registrations@;
        let ghost count0 = self.poll_count;
        let n_comps = completions.len();
        let mut k: usize = 0;
        while k < n_comps
            invariant
                self.wf(),
                k <= n_comps,
                n_comps == completions@.len(),
                self.poll_count == count0,
                self.registrations@.len() == regs0.len(),
                forall|j: int|
                    0 <= j < completions@.len() ==> completion_valid_regs(
                        regs0,
                        #[trigger] completions@[j],
                    ),
                forall|j1: int, j2: int|
                    0 <= j1 < j2 < completions@.len() ==> completions@[j1].reg
                        != completions@[j2].reg,
                events.events@ == spec_selected_events(regs0, completions@.take(k as int)),
                events.cap == old(events).cap,
                forall|j: int|
                    0 <= j < k ==> self.registrations@[(#[trigger] completions@[j]).reg as int]
                        == spec_feed_state(regs0[completions@[j].reg as int], completions@[j]),
                forall|j: int|
                    k <= j < completions@.len()
                        ==> self.registrations@[(#[trigger] completions@[j]).reg as int]
                        == regs0[completions@[j].reg as int],
                forall|i: int|
                    0 <= i < regs0.len() && (forall|j: int|
                        0 <= j < completions@.len() ==> (#[trigger] completions@[j]).reg != i)
                        ==> self.registrations@[i] == regs0[i],
            decreases n_comps - k,
        {
            let c = completions[k];
            let ghost regs_before = self.registrations@;
            let ev = self.feed_event(c);
            match ev {
                Some(e) => events.push_event(e),
                None => {},
            }
            proof {
                assert(completions@.take(k + 1).drop_last() =~= completions@.take(k as int));
                assert(completions@.take(k + 1).last() == completions@[k as int]);
                assert forall|j: int|
                    k + 1 <= j < completions@.len()
                        implies self.registrations@[(#[trigger] completions@[j]).reg as int]
                    == regs0[completions@[j].reg as int] by {
                    assert(completions@[j].reg != completions@[k as int].reg);
                }
            }
            k = k + 1;
        }
        proof {
            assert(completions@.take(n_comps as int) =~= completions@);
        }
        events.len()
    }

    /// Notes that one more thread is about to block on the completion
    /// port.
    pub fn enter_select(&mut self)
        requires
            old(self).wf(),
            old(self).poll_count < u32::MAX,
        ensures
            final(self).wf(),
            final(self).poll_count == old(self).poll_count + 1,
            final(self).registrations@ == old(self).registrations@,
            final(self).update_deque@ == old(self).update_deque@,
            final(self).delete_queue@ == old(self).delete_queue@,
            final(self).poll_group_queue.queue@ == old(self).poll_group_queue.queue@,
    {
        self.poll_count = self.poll_count + 1;
    }
}

/// How often a value appears in a queue.
pub open spec fn occurrences(q: Seq<usize>, v: usize) -> nat
    decreases q.len(),
{
    if q.len() == 0 {
        0nat
    } else {
        occurrences(q.drop_last(), v) + if q.last() == v {
            1nat
        } else {
            0nat
        }
    }
}

proof fn lemma_no_dup_occurrences(q: Seq<usize>, v: usize)
    requires
        q.no_duplicates(),
    ensures
        occurrences(q, v) == if q.contains(v) {
            1nat
        } else {
            0nat
        },
    decreases q.len(),
{
    if q.len() > 0 {
        let q1 = q.drop_last();
        assert forall|i: int, j: int| 0 <= i < q1.len() && 0 <= j < q1.len() && i != j
            implies q1[i] != q1[j] by {
            assert(q1[i] == q[i] && q1[j] == q[j]);
        }
        lemma_no_dup_occurrences(q1, v);
        if q.last() == v {
            assert(!q1.contains(v)) by {
                if q1.contains(v) {
                    let k = choose|k: int| 0 <= k < q1.len() && q1[k] == v;
                    assert(q[k] == q[q.len() - 1]);
                }
            }
        } else {
            if q.contains(v) {
                let k = choose|k: int| 0 <= k < q.len() && q[k] == v;
                assert(q1[k] == v);
            }
        }
    }
}

/// A live registration's `update_enqueued` flag is set exactly when the
/// registration appears in the update queue — and then it appears exactly
/// once.
pub proof fn lemma_update_queue_exactly_once(s: Selector, i: usize)
    requires
        s.wf(),
        i < s.registrations@.len(),
        s.registrations@[i as int].active,
    ensures
        occurrences(s.update_deque@, i) == if s.registrations@[i as int].update_enqueued {
            1nat
        } else {
            0nat
        },
{
    lemma_no_dup_occurrences(s.update_deque@, i);
    if !s.registrations@[i as int].update_enqueued {
        assert(!s.update_deque@.contains(i)) by {
            if s.update_deque@.contains(i) {
                let k = choose|k: int| 0 <= k < s.update_deque@.len() && s.update_deque@[k] == i;
                assert(s.registrations@[s.update_deque@[k] as int].update_enqueued);
            }
        }
    }
}

/// What the kernel watches for a live registration never exceeds the
/// user's interests.
pub proof fn lemma_pending_within_interests(s: Selector, i: usize)
    requires
        s.wf(),
        i < s.registrations@.len(),
        s.registrations@[i as int].active,
    ensures
        s.registrations@[i as int].pending_events & !s.registrations@[i as int].user_events == 0,
{
}

/// Every event a wait delivers carries the token of a registration that
/// was live when the batch was dispatched.
pub proof fn lemma_selected_events_tokens(regs: Seq<State>, comps: Seq<Completion>)
    requires
        forall|k: int| 0 <= k < comps.len() ==> completion_valid_regs(regs, #[trigger] comps[k]),
    ensures
        forall|j: int|
            0 <= j < spec_selected_events(regs, comps).len() ==> exists|k: int|
                0 <= k < comps.len() && regs[comps[k].reg as int].active && (
                #[trigger] spec_selected_events(regs, comps)[j]).token == regs[comps[k].reg
                    as int].user_data,
    decreases comps.len(),
{
    if comps.len() > 0 {
        let prefix = comps.drop_last();
        assert forall|k: int| 0 <= k < prefix.len() implies completion_valid_regs(
            regs,
            #[trigger] prefix[k],
        ) by {
            assert(prefix[k] == comps[k]);
        }
        lemma_selected_events_tokens(regs, prefix);
        let evs = spec_selected_events(regs, comps);
        let evsp = spec_selected_events(regs, prefix);
        let c = comps.last();
        assert forall|j: int| 0 <= j < evs.len() implies exists|k: int|
            0 <= k < comps.len() && regs[comps[k].reg as int].active && (#[trigger] evs[j]).token
                == regs[comps[k].reg as int].user_data by {
            if j < evsp.len() {
                assert(evs[j] == evsp[j]);
                let k = choose|k: int|
                    0 <= k < prefix.len() && regs[prefix[k].reg as int].active && evsp[j].token
                        == regs[prefix[k].reg as int].user_data;
                assert(comps[k] == prefix[k]);
                assert(regs[comps[k].reg as int].active && evs[j].token == regs[comps[k].reg
                    as int].user_data);
            } else {
                let k = comps.len() - 1;
                assert(evs[j] == spec_feed_event(regs[c.reg as int], c).unwrap());
                assert(regs[comps[k].reg as int].active && evs[j].token == regs[comps[k].reg
                    as int].user_data);
            }
        }
    }
}

/// Registering and at once reregistering the very same interests and
/// token is invisible: the reregistered record equals the fresh one, and
/// since a fresh registration is already queued for its first update,
/// `reregister` on it changes nothing else either (see the idempotence
/// clause of `reregister`).
pub proof fn lemma_register_reregister_idempotent(
    base_sock: u64,
    poll_group: usize,
    interests: Interests,
    user_data: u64,
)
    ensures
        spec_set_events(
            spec_registered(base_sock, poll_group, interests, user_data),
            interests,
            user_data,
        ) == spec_registered(base_sock, poll_group, interests, user_data),
{
    crate::sock::lemma_zero_and(user_events_mask(interests));
}

/// A reregister that adds a monitorable bit the registration did not have
/// schedules an update for certain; the poll operation that update then
/// issues from idle watches the translation of the full new interest set
/// (see `update` and `lemma_epoll_to_afd_monotonic`).
pub proof fn lemma_widening_schedules_update(st: State, interests: Interests, token: u64, b: u32)
    requires
        st.inv(),
        b != 0,
        b & SOCK_KNOWN_EPOLL_EVENTS == b,
        b & user_events_mask(interests) == b,
        b & st.user_events == 0,
    ensures
        wants_update(spec_set_events(st, interests, token)),
{
    let u0 = st.user_events;
    let u1 = user_events_mask(interests);
    let p = st.pending_events;
    assert(u1 & SOCK_KNOWN_EPOLL_EVENTS & !(p & u1) != 0) by (bit_vector)
        requires
            b != 0,
            b & SOCK_KNOWN_EPOLL_EVENTS == b,
            b & u1 == b,
            b & u0 == 0,
            p & !u0 == 0,
    ;
}

/// The other half of the liveness story: once the widened registration's
/// update runs from idle, the poll operation it issues watches everything
/// the added bit translates to, so the kernel can report the new
/// readiness on the next wait.
pub proof fn lemma_widened_poll_mask_covers(interests: Interests, b: u32)
    requires
        b & user_events_mask(interests) == b,
    ensures
        epoll_to_afd(b) & epoll_to_afd(user_events_mask(interests)) == epoll_to_afd(b),
{
    crate::masks::lemma_epoll_to_afd_monotonic(b, user_events_mask(interests));
}

/// The user's event buffer: the events delivered by the last wait.  The
/// capacity is the batch size the embedding program should use when
/// draining the completion port; the buffer itself may grow beyond it.
#[derive(Debug)]
pub struct Events {
    pub cap: usize,
    pub events: Vec<Event>,
}

impl Events {
    pub fn with_capacity(cap: usize) -> (r: Events)
        ensures
            r.events@.len() == 0,
            r.cap == cap,
    {
        Events { cap, events: Vec::with_capacity(cap) }
    }

    pub fn is_empty(&self) -> (r: bool)
        ensures
            r == (self.events@.len() == 0),
    {
        self.events.len() == 0
    }

    pub fn len(&self) -> (r: usize)
        ensures
            r == self.events@.len(),
    {
        self.events.len()
    }

    pub fn capacity(&self) -> (r: usize)
        ensures
            r == self.cap,
    {
        self.cap
    }

    pub fn get(&self, idx: usize) -> (r: Option<&Event>)
        ensures
            idx < self.events@.len() ==> r is Some && *r.unwrap() == self.events@[idx as int],
            idx >= self.events@.len() ==> r is None,
    {
        if idx < self.events.len() {
            Some(&self.events[idx])
        } else {
            None
        }
    }

    pub fn push_event(&mut self, event: Event)
        ensures
            final(self).events@ == old(self).events@.push(event),
            final(self).cap == old(self).cap,
    {
        self.events.push(event);
    }

    pub fn clear(&mut self)
        ensures
            final(self).events@.len() == 0,
            final(self).cap == old(self).cap,
    {
        self.events.clear();
    }
}

} // verus!
