use async_spdk::reactor::{PollerId, PollerState, Reactor};
use async_spdk::slab::Key;
use async_spdk::waker::WakeToken;

#[test]
fn new_reactor_runs_without_pollers() {
    let reactor = Reactor::new();
    assert!(!reactor.is_stopped());
    assert!(reactor.due_pollers().is_empty());
}

#[test]
fn registered_poller_is_active_and_due() {
    let mut reactor = Reactor::new();
    let poller = reactor.register_poller();
    assert_eq!(reactor.poller_state(poller), Some(PollerState::Active));
    assert!(reactor.is_due(poller));
    assert_eq!(reactor.due_pollers(), vec![poller]);
}

#[test]
fn paused_poller_is_skipped_until_resumed() {
    let mut reactor = Reactor::new();
    let a = reactor.register_poller();
    let b = reactor.register_poller();
    let c = reactor.register_poller();
    reactor.pause_poller(b);
    assert_eq!(reactor.poller_state(b), Some(PollerState::Paused));
    assert_eq!(reactor.due_pollers(), vec![a, c]);
    reactor.resume_poller(b);
    assert_eq!(reactor.due_pollers(), vec![a, b, c]);
}

#[test]
fn wake_token_resumes_its_poller() {
    let mut reactor = Reactor::new();
    let poller = reactor.register_poller();
    let token = WakeToken::new(poller);
    assert_eq!(token.poller, poller);
    reactor.pause_poller(poller);
    token.wake(&mut reactor);
    assert!(reactor.is_due(poller));
}

#[test]
fn redundant_wakes_are_harmless() {
    let mut reactor = Reactor::new();
    let other = reactor.register_poller();
    let poller = reactor.register_poller();
    reactor.pause_poller(other);
    reactor.pause_poller(poller);
    let token = WakeToken::new(poller);
    let copy = token;
    token.wake(&mut reactor);
    copy.wake(&mut reactor);
    token.wake(&mut reactor);
    assert_eq!(reactor.poller_state(poller), Some(PollerState::Active));
    assert_eq!(reactor.poller_state(other), Some(PollerState::Paused));
    assert_eq!(reactor.due_pollers(), vec![poller]);
}

#[test]
fn unregistered_poller_is_gone() {
    let mut reactor = Reactor::new();
    let a = reactor.register_poller();
    let b = reactor.register_poller();
    reactor.unregister_poller(a);
    assert_eq!(reactor.poller_state(a), None);
    assert!(!reactor.is_due(a));
    assert_eq!(reactor.due_pollers(), vec![b]);
}

#[test]
fn stale_token_never_wakes_a_later_poller() {
    let mut reactor = Reactor::new();
    let old = reactor.register_poller();
    let stale = WakeToken::new(old);
    reactor.unregister_poller(old);
    let new = reactor.register_poller();
    assert_ne!(old, new);
    assert_eq!(new.key.index, old.key.index);
    assert_eq!(new.key.generation, old.key.generation + 1);
    reactor.pause_poller(new);
    stale.wake(&mut reactor);
    reactor.resume_poller(old);
    assert_eq!(reactor.poller_state(new), Some(PollerState::Paused));
    reactor.pause_poller(old);
    reactor.unregister_poller(old);
    assert_eq!(reactor.poller_state(new), Some(PollerState::Paused));
}

#[test]
fn unknown_identity_changes_nothing() {
    let mut reactor = Reactor::new();
    let poller = reactor.register_poller();
    let unknown = PollerId { key: Key { index: 7, generation: 0 } };
    reactor.pause_poller(unknown);
    reactor.resume_poller(unknown);
    reactor.unregister_poller(unknown);
    assert_eq!(reactor.poller_state(unknown), None);
    assert_eq!(reactor.due_pollers(), vec![poller]);
}

#[test]
fn stopped_reactor_has_no_due_poller() {
    let mut reactor = Reactor::new();
    let a = reactor.register_poller();
    let b = reactor.register_poller();
    reactor.pause_poller(b);
    reactor.stop();
    assert!(reactor.is_stopped());
    assert!(!reactor.is_due(a));
    assert!(reactor.due_pollers().is_empty());
    reactor.resume_poller(b);
    assert!(!reactor.is_due(b));
    assert_eq!(reactor.poller_state(a), Some(PollerState::Active));
    assert_eq!(reactor.poller_state(b), Some(PollerState::Active));
    assert!(reactor.due_pollers().is_empty());
}
