//! The poll-group allocator.
//!
//! A poll group wraps one AFD helper-device handle, already associated with
//! the selector's completion port, and is shared by up to
//! `MAX_SOCKET_PER_POLL_GROUP` registered sockets.  Opening the helper
//! device is a kernel call the embedding program performs; the allocator is
//! handed the fresh handle value when, and only when, a new group is needed.

use vstd::prelude::*;

verus! {

/// How many sockets may share one helper handle.
pub const MAX_SOCKET_PER_POLL_GROUP: u32 = 32;

/// Why a poll-group slot could not be handed out.
#[derive(Clone, Copy, Debug, PartialEq, Eq, Structural)]
pub enum PollGroupError {
    /// A new group was needed but no fresh helper handle was supplied —
    /// the embedding program's attempt to open the helper device failed.
    HelperHandleUnavailable,
}

/// One helper-device handle and the number of sockets currently holding a
/// slot in it.
#[derive(Clone, Copy, Debug, PartialEq, Eq, Structural)]
pub struct PollGroup {
    pub group_size: u32,
    pub afd_helper_handle: u64,
}

impl PollGroup {
    /// A fresh, empty group around an already-opened helper handle.
    pub fn new(afd_helper_handle: u64) -> (g: PollGroup)
        ensures
            g == (PollGroup { group_size: 0, afd_helper_handle }),
    {
        PollGroup { group_size: 0, afd_helper_handle }
    }
}

/// The growing, ordered list of poll groups.  Only the tail group is ever
/// considered when a slot is requested; groups persist until the selector
/// is destroyed.
pub struct PollGroupQueue {
    pub queue: Vec<PollGroup>,
}

impl PollGroupQueue {
    /// No group exceeds its fanout cap.
    pub open spec fn wf(&self) -> bool {
        forall|g: int|
            0 <= g < self.queue@.len() ==> (#[trigger] self.queue@[g]).group_size
                <= MAX_SOCKET_PER_POLL_GROUP
    }

    /// A slot request must create a new group: the list is empty or the
    /// tail group is full.
    pub open spec fn needs_new_group(&self) -> bool {
        self.queue@.len() == 0 || self.queue@.last().group_size >= MAX_SOCKET_PER_POLL_GROUP
    }

    pub fn new() -> (q: PollGroupQueue)
        ensures
            q.queue@.len() == 0,
    {
        PollGroupQueue { queue: Vec::new() }
    }

    /// Hands out a slot in the tail group, creating a new group around
    /// `fresh_helper_handle` when the tail is full or absent.  Fails exactly
    /// when a new group is needed and no fresh handle was supplied.
    pub fn acquire(&mut self, fresh_helper_handle: Option<u64>) -> (r: Result<
        usize,
        PollGroupError,
    >)
        requires
            old(self).wf(),
        ensures
            final(self).wf(),
            r is Err <==> (old(self).needs_new_group() && fresh_helper_handle is None),
            r is Err ==> final(self).queue@ == old(self).queue@ && r == Err::<
                usize,
                PollGroupError,
            >(PollGroupError::HelperHandleUnavailable),
            r is Ok ==> r.unwrap() + 1 == final(self).queue@.len(),
            old(self).needs_new_group() && fresh_helper_handle is Some ==> final(self).queue@
                == old(self).queue@.push(
                PollGroup {
                    group_size: 1,
                    afd_helper_handle: fresh_helper_handle.unwrap(),
                },
            ) && r == Ok::<usize, PollGroupError>(old(self).queue@.len() as usize),
            !old(self).needs_new_group() ==> final(self).queue@ == old(self).queue@.update(
                old(self).queue@.len() - 1,
                PollGroup {
                    group_size: (old(self).queue@.last().group_size + 1) as u32,
                    afd_helper_handle: old(self).queue@.last().afd_helper_handle,
                },
            ) && r == Ok::<usize, PollGroupError>((old(self).queue@.len() - 1) as usize),
            r is Ok ==> 1 <= final(self).queue@[r.unwrap() as int].group_size
                <= MAX_SOCKET_PER_POLL_GROUP,
    {
        let n = self.queue.len();
        if n == 0 || self.queue[n - 1].group_size >= MAX_SOCKET_PER_POLL_GROUP {
            match fresh_helper_handle {
                None => Err(PollGroupError::HelperHandleUnavailable),
                Some(h) => {
                    let mut g = PollGroup::new(h);
                    g.group_size = 1;
                    self.queue.push(g);
                    Ok(n)
                },
            }
        } else {
            let idx = n - 1;
            let g = self.queue[idx];
            self.queue[idx] = PollGroup {
                group_size: g.group_size + 1,
                afd_helper_handle: g.afd_helper_handle,
            };
            Ok(idx)
        }
    }

    /// Returns a slot.  The helper handle itself is not closed; groups live
    /// until the selector is torn down.
    pub fn release(&mut self, idx: usize)
        requires
            old(self).wf(),
            idx < old(self).queue@.len(),
            old(self).queue@[idx as int].group_size > 0,
        ensures
            final(self).wf(),
            final(self).queue@ == old(self).queue@.update(
                idx as int,
                PollGroup {
                    group_size: (old(self).queue@[idx as int].group_size - 1) as u32,
                    afd_helper_handle: old(self).queue@[idx as int].afd_helper_handle,
                },
            ),
    {
        let g = self.queue[idx];
        self.queue[idx] = PollGroup {
            group_size: g.group_size - 1,
            afd_helper_handle: g.afd_helper_handle,
        };
    }
}

} // verus!
