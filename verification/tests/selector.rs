use afdpoll::event::Event;
use afdpoll::interests::Interests;
use afdpoll::masks::{
    AFD_POLL_ABORT, AFD_POLL_ACCEPT, AFD_POLL_CONNECT_FAIL, AFD_POLL_DISCONNECT,
    AFD_POLL_LOCAL_CLOSE, AFD_POLL_RECEIVE, AFD_POLL_SEND, EPOLLERR, EPOLLHUP, EPOLLIN, EPOLLOUT,
    EPOLLRDHUP,
};
use afdpoll::poll_group::PollGroupError;
use afdpoll::selector::{CancelOutcome, DeleteStep, Events, PollOp, Selector, UpdateStep};
use afdpoll::sock::{Completion, SockPollState, STATUS_CANCELLED};

fn readable() -> Interests {
    Interests::new(true, false, false).unwrap()
}

fn readable_writable() -> Interests {
    Interests::new(true, true, false).unwrap()
}

fn readable_oneshot() -> Interests {
    Interests::new(true, false, true).unwrap()
}

/// Drives the update-queue drain as the embedding program would,
/// accepting every poll operation (synchronous success) and every cancel.
/// Returns the kernel operations that were "performed".
fn drain(sel: &mut Selector) -> Vec<PollOp> {
    let mut ops = Vec::new();
    loop {
        match sel.update_events() {
            UpdateStep::QueueEmpty => break,
            UpdateStep::Applied => {}
            UpdateStep::Issue(op) => {
                match op {
                    PollOp::Start { reg, .. } => sel.apply_poll_result(reg, 0).unwrap(),
                    PollOp::Cancel { reg, .. } => sel.cancel_poll(reg, CancelOutcome::Issued).unwrap(),
                }
                ops.push(op);
            }
        }
    }
    ops
}

fn ok_completion(reg: usize, events: u32) -> Completion {
    Completion { reg, status: 0, number_of_handles: 1, events }
}

fn register_one(sel: &mut Selector, base: u64, token: u64, interests: Interests) -> usize {
    let fresh = if sel.needs_poll_group() { Some(1000 + base) } else { None };
    sel.register(base, fresh, token, interests).unwrap()
}

#[test]
fn test_register_writable_event() {
    // A connected stream registered with {readable, writable} whose peer
    // sends nothing: the kernel reports send readiness and the first wait
    // delivers a writable event under the supplied token.
    let mut sel = Selector::new();
    let reg = register_one(&mut sel, 11, 7, readable_writable());

    let ops = drain(&mut sel);
    assert_eq!(ops.len(), 1);
    match ops[0] {
        PollOp::Start { reg: r, info, .. } => {
            assert_eq!(r, reg);
            assert_eq!(info.handle, 11);
            assert_eq!(info.timeout, i64::MAX);
            assert_eq!(
                info.events,
                AFD_POLL_LOCAL_CLOSE | AFD_POLL_RECEIVE | AFD_POLL_ACCEPT | AFD_POLL_SEND
                    | AFD_POLL_DISCONNECT | AFD_POLL_ABORT | AFD_POLL_CONNECT_FAIL
            );
        }
        PollOp::Cancel { .. } => panic!("expected a poll start"),
    }

    let mut events = Events::with_capacity(8);
    sel.enter_select();
    let n = sel.select(&mut events, &vec![ok_completion(reg, AFD_POLL_SEND)]);
    assert_eq!(n, 1);
    let ev = *events.get(0).unwrap();
    assert_eq!(ev.token(), 7);
    assert_ne!(ev.readiness() & EPOLLOUT, 0);
    assert_eq!(ev.readiness() & EPOLLIN, 0);
}

#[test]
fn test_peer_close_read_hangup() {
    // Peer closes the connection on a readable registration: the event
    // carries at least readable and read-hangup.
    let mut sel = Selector::new();
    let reg = register_one(&mut sel, 12, 3, readable());
    drain(&mut sel);

    let mut events = Events::with_capacity(8);
    sel.enter_select();
    let n = sel.select(&mut events, &vec![ok_completion(reg, AFD_POLL_DISCONNECT)]);
    assert_eq!(n, 1);
    let ev = *events.get(0).unwrap();
    assert_eq!(ev.token(), 3);
    assert_ne!(ev.readiness() & EPOLLIN, 0);
    assert_ne!(ev.readiness() & EPOLLRDHUP, 0);
}

#[test]
fn test_connect_fail_reports_error() {
    let mut sel = Selector::new();
    let reg = register_one(&mut sel, 13, 4, readable_writable());
    drain(&mut sel);

    let mut events = Events::with_capacity(8);
    sel.enter_select();
    let n = sel.select(&mut events, &vec![ok_completion(reg, AFD_POLL_CONNECT_FAIL)]);
    assert_eq!(n, 1);
    let ev = *events.get(0).unwrap();
    assert_ne!(ev.readiness() & EPOLLERR, 0);
    assert_ne!(ev.readiness() & EPOLLIN, 0);
    assert_ne!(ev.readiness() & EPOLLOUT, 0);
}

#[test]
fn test_negative_status_reports_error() {
    let mut sel = Selector::new();
    let reg = register_one(&mut sel, 14, 5, readable());
    drain(&mut sel);

    let mut events = Events::with_capacity(8);
    sel.enter_select();
    let c = Completion { reg, status: -1, number_of_handles: 1, events: 0 };
    let n = sel.select(&mut events, &vec![c]);
    assert_eq!(n, 1);
    assert_eq!(events.get(0).unwrap().readiness(), EPOLLERR);
}

#[test]
fn test_spurious_empty_completion() {
    let mut sel = Selector::new();
    let reg = register_one(&mut sel, 15, 6, readable());
    drain(&mut sel);

    let mut events = Events::with_capacity(8);
    sel.enter_select();
    let c = Completion { reg, status: 0, number_of_handles: 0, events: AFD_POLL_RECEIVE };
    let n = sel.select(&mut events, &vec![c]);
    assert_eq!(n, 0);
    // The registration was re-armed, not dropped.
    assert!(sel.registrations[reg].active);
    assert!(sel.registrations[reg].update_enqueued);
}

#[test]
fn test_local_close_removes_silently() {
    // A socket closed externally emits no event and leaves the
    // registration set after the next wait, returning its group slot.
    let mut sel = Selector::new();
    let reg = register_one(&mut sel, 16, 9, readable());
    drain(&mut sel);
    assert_eq!(sel.poll_group_queue.queue[0].group_size, 1);

    let mut events = Events::with_capacity(8);
    sel.enter_select();
    let n = sel.select(&mut events, &vec![ok_completion(reg, AFD_POLL_LOCAL_CLOSE)]);
    assert_eq!(n, 0);
    assert!(!sel.registrations[reg].active);
    assert_eq!(sel.poll_group_queue.queue[0].group_size, 0);
}

#[test]
fn test_wait_zero_timeout_no_completions() {
    // A wait whose timeout elapsed with nothing queued delivers zero
    // events.
    let mut sel = Selector::new();
    let _reg = register_one(&mut sel, 17, 1, readable());
    drain(&mut sel);

    let mut events = Events::with_capacity(8);
    sel.enter_select();
    let n = sel.select(&mut events, &vec![]);
    assert_eq!(n, 0);
    assert!(events.is_empty());
}

#[test]
fn test_oneshot_emits_once() {
    // Two distinct read-readiness transitions on a one-shot registration
    // produce exactly one event.
    let mut sel = Selector::new();
    let reg = register_one(&mut sel, 18, 2, readable_oneshot());
    drain(&mut sel);

    let mut events = Events::with_capacity(8);
    sel.enter_select();
    let n = sel.select(&mut events, &vec![ok_completion(reg, AFD_POLL_RECEIVE)]);
    assert_eq!(n, 1);
    assert_eq!(sel.registrations[reg].user_events, 0);

    // The re-arm after delivery watches only the implicit local close.
    let ops = drain(&mut sel);
    assert_eq!(ops.len(), 1);
    match ops[0] {
        PollOp::Start { info, .. } => assert_eq!(info.events, AFD_POLL_LOCAL_CLOSE),
        PollOp::Cancel { .. } => panic!("expected a poll start"),
    }

    // A second readiness transition is not delivered.
    let mut events2 = Events::with_capacity(8);
    sel.enter_select();
    let n2 = sel.select(&mut events2, &vec![ok_completion(reg, AFD_POLL_RECEIVE)]);
    assert_eq!(n2, 0);
}

#[test]
fn test_poll_group_boundary() {
    // 32 registrations share one poll group; the 33rd allocates a second.
    let mut sel = Selector::new();
    for k in 0..32u64 {
        assert_eq!(sel.needs_poll_group(), k == 0);
        register_one(&mut sel, 100 + k, k, readable());
    }
    assert_eq!(sel.poll_group_queue.queue.len(), 1);
    assert_eq!(sel.poll_group_queue.queue[0].group_size, 32);

    assert!(sel.needs_poll_group());
    register_one(&mut sel, 200, 32, readable());
    assert_eq!(sel.poll_group_queue.queue.len(), 2);
    assert_eq!(sel.poll_group_queue.queue[0].group_size, 32);
    assert_eq!(sel.poll_group_queue.queue[1].group_size, 1);
}

#[test]
fn test_forty_registrations_two_groups() {
    // 40 registrations: two groups, sized 32 and 8.
    let mut sel = Selector::new();
    for k in 0..40u64 {
        register_one(&mut sel, 300 + k, k, readable_writable());
    }
    assert_eq!(sel.poll_group_queue.queue.len(), 2);
    assert_eq!(sel.poll_group_queue.queue[0].group_size, 32);
    assert_eq!(sel.poll_group_queue.queue[1].group_size, 8);
}

#[test]
fn test_register_without_handle_fails() {
    let mut sel = Selector::new();
    assert!(sel.needs_poll_group());
    let r = sel.register(21, None, 1, readable());
    assert_eq!(r, Err(PollGroupError::HelperHandleUnavailable));
    assert_eq!(sel.registrations.len(), 0);
}

#[test]
fn test_deregister_before_wait() {
    // Register then deregister before any wait: teardown is immediate,
    // the next wait delivers nothing, and the group slot is returned.
    let mut sel = Selector::new();
    let reg = register_one(&mut sel, 22, 8, readable());
    assert_eq!(sel.poll_group_queue.queue[0].group_size, 1);

    assert_eq!(sel.deregister(reg), DeleteStep::Done);
    assert!(!sel.registrations[reg].active);
    assert_eq!(sel.poll_group_queue.queue[0].group_size, 0);

    // The pending first update was discarded with the registration.
    assert!(matches!(sel.update_events(), UpdateStep::QueueEmpty));

    let mut events = Events::with_capacity(8);
    sel.enter_select();
    assert_eq!(sel.select(&mut events, &vec![]), 0);
}

#[test]
fn test_deregister_in_flight() {
    // Deregistering while a poll operation is in flight: cancel first,
    // then defer until the cancellation's completion arrives.
    let mut sel = Selector::new();
    let reg = register_one(&mut sel, 23, 8, readable());
    drain(&mut sel);
    assert_eq!(sel.registrations[reg].poll_state, SockPollState::Pending);

    match sel.deregister(reg) {
        DeleteStep::NeedsCancel { reg: r, .. } => {
            assert_eq!(r, reg);
            // The operation finished between check and cancel: benign.
            sel.cancel_poll(reg, CancelOutcome::NotFound).unwrap();
        }
        other => panic!("expected NeedsCancel, got {other:?}"),
    }
    assert_eq!(sel.deregister(reg), DeleteStep::Deferred);
    assert!(sel.registrations[reg].delete_pending);
    assert!(sel.registrations[reg].active);

    let mut events = Events::with_capacity(8);
    sel.enter_select();
    let c = Completion { reg, status: STATUS_CANCELLED, number_of_handles: 0, events: 0 };
    let n = sel.select(&mut events, &vec![c]);
    assert_eq!(n, 0);
    assert!(!sel.registrations[reg].active);
    assert_eq!(sel.poll_group_queue.queue[0].group_size, 0);
}

#[test]
fn test_reregister_same_is_invisible() {
    // register; reregister with the same interests and token: every
    // observable part of the selector is as after register alone.
    let mut sel = Selector::new();
    let reg = register_one(&mut sel, 24, 5, readable_writable());

    let before = sel.registrations[reg];
    let queue_len = sel.update_deque.len();
    sel.reregister(reg, 5, readable_writable());
    assert_eq!(sel.registrations[reg], before);
    assert_eq!(sel.update_deque.len(), queue_len);
    assert_eq!(sel.poll_group_queue.queue[0].group_size, 1);
}

#[test]
fn test_reregister_widens_while_polling() {
    // A peer thread is blocked in a wait (poll counter is held) while
    // this thread widens the interests: the in-flight poll is cancelled,
    // its completion re-arms, and the fresh poll watches the new bits.
    let mut sel = Selector::new();
    let reg = register_one(&mut sel, 25, 6, readable());
    drain(&mut sel);
    assert_eq!(sel.registrations[reg].poll_state, SockPollState::Pending);

    sel.enter_select();

    sel.reregister(reg, 6, readable_writable());
    // The drain a waiting peer triggers: the stale poll is cancelled.
    match sel.update_if_polling() {
        UpdateStep::Issue(PollOp::Cancel { reg: r, .. }) => {
            assert_eq!(r, reg);
            sel.cancel_poll(reg, CancelOutcome::Issued).unwrap();
        }
        other => panic!("expected a cancel, got {other:?}"),
    }
    assert!(matches!(sel.update_if_polling(), UpdateStep::QueueEmpty));

    // The cancellation's completion emits nothing and re-arms.
    let mut events = Events::with_capacity(8);
    let c = Completion { reg, status: STATUS_CANCELLED, number_of_handles: 0, events: 0 };
    assert_eq!(sel.select(&mut events, &vec![c]), 0);

    let ops = drain(&mut sel);
    assert_eq!(ops.len(), 1);
    match ops[0] {
        PollOp::Start { info, .. } => {
            assert_ne!(info.events & AFD_POLL_SEND, 0);
            assert_ne!(info.events & AFD_POLL_RECEIVE, 0);
        }
        PollOp::Cancel { .. } => panic!("expected a poll start"),
    }
}

#[test]
fn test_narrowing_trims_pending() {
    // Narrowing interests does not cancel the in-flight poll, but the
    // watched set is never recorded as wider than the interests.
    let mut sel = Selector::new();
    let reg = register_one(&mut sel, 26, 7, readable_writable());
    drain(&mut sel);
    let wide = sel.registrations[reg].pending_events;
    assert_ne!(wide & EPOLLOUT, 0);

    sel.reregister(reg, 7, readable());
    let st = sel.registrations[reg];
    assert_eq!(st.pending_events & !st.user_events, 0);
    assert_eq!(st.poll_state, SockPollState::Pending);
    // No update was scheduled: nothing new is wanted.
    assert!(!st.update_enqueued);
}

#[test]
fn test_update_if_polling_without_waiter() {
    let mut sel = Selector::new();
    let reg = register_one(&mut sel, 27, 1, readable());
    // Nobody is waiting: the queued update stays queued.
    assert!(matches!(sel.update_if_polling(), UpdateStep::QueueEmpty));
    assert!(sel.registrations[reg].update_enqueued);
    assert_eq!(sel.update_deque.len(), 1);
}

#[test]
fn test_apply_poll_result_errors() {
    let mut sel = Selector::new();
    let reg = register_one(&mut sel, 28, 1, readable());

    // A real failure is surfaced and leaves the registration idle.
    assert_eq!(sel.apply_poll_result(reg, 5), Err(5));
    assert_eq!(sel.registrations[reg].poll_state, SockPollState::Idle);
    assert!(sel.registrations[reg].active);

    // An invalid handle means the socket is gone: silent removal.
    assert_eq!(sel.apply_poll_result(reg, 6), Ok(()));
    assert!(!sel.registrations[reg].active);
    assert_eq!(sel.poll_group_queue.queue[0].group_size, 0);
}

#[test]
fn test_cancel_failure_is_surfaced() {
    let mut sel = Selector::new();
    let reg = register_one(&mut sel, 29, 1, readable());
    drain(&mut sel);
    assert_eq!(sel.cancel_poll(reg, CancelOutcome::Failed(87)), Err(87));
    assert_eq!(sel.registrations[reg].poll_state, SockPollState::Pending);

    assert_eq!(sel.cancel_poll(reg, CancelOutcome::AlreadyComplete), Ok(()));
    assert_eq!(sel.registrations[reg].poll_state, SockPollState::Cancelled);
    assert_eq!(sel.registrations[reg].pending_events, 0);
}

#[test]
fn test_events_buffer() {
    let mut events = Events::with_capacity(4);
    assert!(events.is_empty());
    assert_eq!(events.len(), 0);
    assert_eq!(events.capacity(), 4);
    assert!(events.get(0).is_none());

    events.push_event(Event::new(EPOLLIN, 42));
    events.push_event(Event::new(EPOLLOUT | EPOLLHUP, 43));
    assert!(!events.is_empty());
    assert_eq!(events.len(), 2);
    assert_eq!(events.get(0).unwrap().readiness(), EPOLLIN);
    assert_eq!(events.get(0).unwrap().token(), 42);
    assert_eq!(events.get(1).unwrap().token(), 43);
    assert!(events.get(2).is_none());

    events.clear();
    assert!(events.is_empty());
    assert_eq!(events.capacity(), 4);
}
