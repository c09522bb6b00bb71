use async_spdk::complete::CompletionSlot;
use async_spdk::reactor::{PollerState, Reactor};
use async_spdk::waker::WakeToken;

#[test]
fn new_slot_is_empty_and_pending() {
    let slot: CompletionSlot<u32> = CompletionSlot::create();
    assert!(slot.is_pending());
    assert!(!slot.is_filled());
    assert!(!slot.is_consumed());
}

#[test]
fn filled_value_is_observed_exactly_once() {
    let mut reactor = Reactor::new();
    let poller = reactor.register_poller();
    let token = WakeToken::new(poller);
    let mut slot: CompletionSlot<u32> = CompletionSlot::create();
    assert_eq!(slot.fill(42, &mut reactor), None);
    assert!(slot.is_filled());
    let mut seen = 0;
    for round in 0..5 {
        match slot.try_take(token) {
            Some(value) => {
                assert_eq!(round, 0);
                assert_eq!(value, 42);
                seen += 1;
            }
            None => assert!(round > 0),
        }
        assert!(slot.is_consumed());
    }
    assert_eq!(seen, 1);
}

#[test]
fn early_fill_wakes_nobody() {
    let mut reactor = Reactor::new();
    let poller = reactor.register_poller();
    reactor.pause_poller(poller);
    let token = WakeToken::new(poller);
    let mut slot: CompletionSlot<&str> = CompletionSlot::create();
    let woken = slot.fill("done", &mut reactor);
    assert_eq!(woken, None);
    assert_eq!(reactor.poller_state(poller), Some(PollerState::Paused));
    assert_eq!(slot.try_take(token), Some("done"));
    assert_eq!(reactor.poller_state(poller), Some(PollerState::Paused));
    assert!(slot.is_consumed());
}

#[test]
fn late_fill_wakes_the_registered_token() {
    let mut reactor = Reactor::new();
    let bystander = reactor.register_poller();
    let poller = reactor.register_poller();
    reactor.pause_poller(bystander);
    reactor.pause_poller(poller);
    let token = WakeToken::new(poller);
    let mut slot: CompletionSlot<u64> = CompletionSlot::create();
    assert_eq!(slot.try_take(token), None);
    assert!(slot.is_pending());
    assert!(!reactor.is_due(poller));
    let woken = slot.fill(7, &mut reactor);
    assert_eq!(woken, Some(token));
    assert!(reactor.is_due(poller));
    assert_eq!(reactor.poller_state(bystander), Some(PollerState::Paused));
    assert_eq!(slot.try_take(token), Some(7));
    assert_eq!(slot.try_take(token), None);
}

#[test]
fn last_registered_token_is_the_one_woken() {
    let mut reactor = Reactor::new();
    let first = reactor.register_poller();
    let second = reactor.register_poller();
    reactor.pause_poller(first);
    reactor.pause_poller(second);
    let mut slot: CompletionSlot<u8> = CompletionSlot::create();
    assert_eq!(slot.try_take(WakeToken::new(first)), None);
    assert_eq!(slot.try_take(WakeToken::new(second)), None);
    assert_eq!(slot.fill(1, &mut reactor), Some(WakeToken::new(second)));
    assert!(!reactor.is_due(first));
    assert!(reactor.is_due(second));
}

#[test]
fn consumed_slot_does_not_register_tokens() {
    let mut reactor = Reactor::new();
    let poller = reactor.register_poller();
    let token = WakeToken::new(poller);
    let mut slot: CompletionSlot<u8> = CompletionSlot::create();
    slot.fill(9, &mut reactor);
    assert_eq!(slot.try_take(token), Some(9));
    assert_eq!(slot.try_take(token), None);
    assert!(slot.is_consumed());
    assert!(!slot.is_pending());
}
