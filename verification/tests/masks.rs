use afdpoll::init;
use afdpoll::interests::{interests_to_epoll, Interests};
use afdpoll::masks::{
    sock_afd_events_to_epoll_events, sock_epoll_events_to_afd_events, AFD_POLL_ABORT,
    AFD_POLL_ACCEPT, AFD_POLL_CONNECT_FAIL, AFD_POLL_DISCONNECT, AFD_POLL_LOCAL_CLOSE,
    AFD_POLL_RECEIVE, AFD_POLL_RECEIVE_EXPEDITED, AFD_POLL_SEND, EPOLLERR, EPOLLHUP, EPOLLIN,
    EPOLLMSG, EPOLLONESHOT, EPOLLOUT, EPOLLPRI, EPOLLRDBAND, EPOLLRDHUP, EPOLLRDNORM,
    EPOLLWRBAND, EPOLLWRNORM,
};

#[test]
fn test_epoll_to_afd_exact() {
    // The empty user mask still watches for local close.
    assert_eq!(sock_epoll_events_to_afd_events(0), AFD_POLL_LOCAL_CLOSE);
    assert_eq!(
        sock_epoll_events_to_afd_events(EPOLLIN),
        AFD_POLL_LOCAL_CLOSE | AFD_POLL_RECEIVE | AFD_POLL_ACCEPT | AFD_POLL_DISCONNECT
    );
    assert_eq!(
        sock_epoll_events_to_afd_events(EPOLLOUT),
        AFD_POLL_LOCAL_CLOSE | AFD_POLL_SEND
    );
    assert_eq!(
        sock_epoll_events_to_afd_events(EPOLLPRI),
        AFD_POLL_LOCAL_CLOSE | AFD_POLL_RECEIVE_EXPEDITED
    );
    assert_eq!(
        sock_epoll_events_to_afd_events(EPOLLERR),
        AFD_POLL_LOCAL_CLOSE | AFD_POLL_CONNECT_FAIL
    );
    assert_eq!(
        sock_epoll_events_to_afd_events(EPOLLHUP),
        AFD_POLL_LOCAL_CLOSE | AFD_POLL_ABORT
    );
    assert_eq!(
        sock_epoll_events_to_afd_events(EPOLLRDHUP),
        AFD_POLL_LOCAL_CLOSE | AFD_POLL_DISCONNECT
    );
    // One-shot is an interest modifier, not a monitorable condition.
    assert_eq!(sock_epoll_events_to_afd_events(EPOLLONESHOT), AFD_POLL_LOCAL_CLOSE);
}

#[test]
fn test_afd_to_epoll_exact() {
    assert_eq!(sock_afd_events_to_epoll_events(&0), 0);
    assert_eq!(
        sock_afd_events_to_epoll_events(&AFD_POLL_RECEIVE),
        EPOLLIN | EPOLLRDNORM
    );
    assert_eq!(
        sock_afd_events_to_epoll_events(&AFD_POLL_SEND),
        EPOLLOUT | EPOLLWRNORM | EPOLLWRBAND
    );
    assert_eq!(
        sock_afd_events_to_epoll_events(&AFD_POLL_DISCONNECT),
        EPOLLIN | EPOLLRDNORM | EPOLLRDHUP
    );
    assert_eq!(sock_afd_events_to_epoll_events(&AFD_POLL_ABORT), EPOLLHUP);
    // A failed connect reports the whole superset, as Unix does.
    assert_eq!(
        sock_afd_events_to_epoll_events(&AFD_POLL_CONNECT_FAIL),
        EPOLLIN | EPOLLOUT | EPOLLERR | EPOLLRDNORM | EPOLLWRNORM | EPOLLRDHUP
    );
    // The kernel's local-close flag maps to no user readiness.
    assert_eq!(sock_afd_events_to_epoll_events(&AFD_POLL_LOCAL_CLOSE), 0);
}

#[test]
fn test_mask_round_trip() {
    let masks = [
        EPOLLIN,
        EPOLLOUT,
        EPOLLIN | EPOLLOUT,
        EPOLLIN | EPOLLOUT | EPOLLERR | EPOLLHUP,
        EPOLLPRI | EPOLLRDBAND,
        EPOLLRDNORM | EPOLLWRNORM | EPOLLWRBAND | EPOLLRDHUP,
        EPOLLIN | EPOLLPRI | EPOLLOUT | EPOLLERR | EPOLLHUP | EPOLLRDNORM | EPOLLRDBAND
            | EPOLLWRNORM | EPOLLWRBAND | EPOLLRDHUP,
    ];
    for m in masks {
        let back = sock_afd_events_to_epoll_events(&sock_epoll_events_to_afd_events(m));
        assert_eq!(back & m, m, "mask {m:#x} did not survive the round trip");
    }
}

#[test]
fn test_msg_does_not_round_trip() {
    // EPOLLMSG has no kernel counterpart: it is the one known bit the
    // round trip loses.
    let back = sock_afd_events_to_epoll_events(&sock_epoll_events_to_afd_events(EPOLLMSG));
    assert_eq!(back & EPOLLMSG, 0);
}

#[test]
fn test_interests_to_epoll() {
    let r = Interests::new(true, false, false).unwrap();
    assert!(r.is_readable() && !r.is_writable() && !r.is_oneshot());
    assert_eq!(interests_to_epoll(r), EPOLLIN | EPOLLRDHUP);

    let w = Interests::new(false, true, false).unwrap();
    assert_eq!(interests_to_epoll(w), EPOLLOUT);

    let rw1 = Interests::new(true, true, true).unwrap();
    assert!(rw1.is_oneshot());
    assert_eq!(interests_to_epoll(rw1), EPOLLIN | EPOLLRDHUP | EPOLLOUT | EPOLLONESHOT);

    assert!(Interests::new(false, false, false).is_none());
    assert!(Interests::new(false, false, true).is_none());
}

#[test]
fn test_init_decision() {
    let mut done = false;
    assert!(init(&mut done, true).is_ok());
    assert!(done);

    // Already initialised: the startup outcome is not consulted.
    assert!(init(&mut done, false).is_ok());
    assert!(done);

    let mut fresh = false;
    assert!(init(&mut fresh, false).is_err());
    assert!(!fresh);
    assert!(init(&mut fresh, true).is_ok());
    assert!(fresh);
}
