use async_spdk::bridge::{BridgeCall, BridgePhase, Poll};
use async_spdk::error::{SpdkError, GENERIC_FAILURE};
use async_spdk::reactor::{PollerState, Reactor};
use async_spdk::waker::WakeToken;

fn paused_poller(reactor: &mut Reactor) -> WakeToken {
    let poller = reactor.register_poller();
    reactor.pause_poller(poller);
    WakeToken::new(poller)
}

fn ready<T>(answer: Poll<Result<T, SpdkError>>) -> Result<T, SpdkError> {
    match answer {
        Poll::Ready(outcome) => outcome,
        Poll::Pending => panic!("pending"),
    }
}

fn is_pending<T>(answer: &Poll<T>) -> bool {
    matches!(answer, Poll::Pending)
}

#[test]
fn new_call_waits_for_its_setup_step() {
    let call: BridgeCall<u32> = BridgeCall::new();
    assert_eq!(call.phase(), BridgePhase::Created);
    assert!(call.is_pending());
}

#[test]
fn setup_failure_is_returned_without_suspending() {
    let mut reactor = Reactor::new();
    let token = paused_poller(&mut reactor);
    let mut call: BridgeCall<u32> = BridgeCall::new();
    let answer = call.start(-12, token);
    assert_eq!(ready(answer), Err(SpdkError::SetupFailure { code: -12 }));
    assert_eq!(call.phase(), BridgePhase::Aborted);
    assert_eq!(reactor.poller_state(token.poller), Some(PollerState::Paused));
}

#[test]
fn positive_setup_status_is_a_failure_too() {
    let mut reactor = Reactor::new();
    let token = paused_poller(&mut reactor);
    let mut call: BridgeCall<()> = BridgeCall::new();
    assert_eq!(ready(call.start(3, token)), Err(SpdkError::SetupFailure { code: 3 }));
}

#[test]
fn started_call_is_pending_until_the_callback_comes() {
    let mut reactor = Reactor::new();
    let token = paused_poller(&mut reactor);
    let mut call: BridgeCall<u32> = BridgeCall::new();
    assert!(is_pending(&call.start(0, token)));
    assert_eq!(call.phase(), BridgePhase::Started);
    assert!(is_pending(&call.poll(token)));
    assert!(is_pending(&call.poll(token)));
    assert_eq!(call.complete(0, 77, &mut reactor), Some(token));
    assert!(reactor.is_due(token.poller));
    assert_eq!(ready(call.poll(token)), Ok(77));
    assert!(is_pending(&call.poll(token)));
}

#[test]
fn callback_before_the_setup_step_returns_is_tolerated() {
    let mut reactor = Reactor::new();
    let token = paused_poller(&mut reactor);
    let mut call: BridgeCall<&str> = BridgeCall::new();
    assert_eq!(call.complete(0, "early", &mut reactor), None);
    assert!(!call.is_pending());
    assert_eq!(ready(call.start(0, token)), Ok("early"));
    assert_eq!(reactor.poller_state(token.poller), Some(PollerState::Paused));
}

#[test]
fn nonzero_callback_status_is_an_operation_failure() {
    let mut reactor = Reactor::new();
    let token = paused_poller(&mut reactor);
    let mut call: BridgeCall<u32> = BridgeCall::new();
    assert!(is_pending(&call.start(0, token)));
    call.complete(-5, 0, &mut reactor);
    assert_eq!(ready(call.poll(token)), Err(SpdkError::OperationFailure { code: -5 }));
}

#[test]
fn failed_flag_is_a_generic_operation_failure() {
    let mut reactor = Reactor::new();
    let token = paused_poller(&mut reactor);
    let mut failed: BridgeCall<()> = BridgeCall::new();
    assert!(is_pending(&failed.start(0, token)));
    assert_eq!(failed.complete_with_flag(false, (), &mut reactor), Some(token));
    assert_eq!(
        ready(failed.poll(token)),
        Err(SpdkError::OperationFailure { code: GENERIC_FAILURE })
    );
    let mut fine: BridgeCall<u8> = BridgeCall::new();
    assert!(is_pending(&fine.start(0, token)));
    fine.complete_with_flag(true, 4, &mut reactor);
    assert_eq!(ready(fine.poll(token)), Ok(4));
}

#[test]
fn status_codes_are_read_as_results() {
    assert_eq!(SpdkError::from_retval(0), Ok(()));
    assert_eq!(SpdkError::from_retval(-2), Err(SpdkError::OperationFailure { code: -2 }));
    assert_eq!(SpdkError::from_retval(9), Err(SpdkError::OperationFailure { code: 9 }));
    assert_eq!(SpdkError::from_retval(i32::MIN), Err(SpdkError::OperationFailure { code: i32::MIN }));
    assert_eq!(SpdkError::from_success(true), Ok(()));
    assert_eq!(SpdkError::from_success(false), Err(SpdkError::OperationFailure { code: -1 }));
    assert_eq!(GENERIC_FAILURE, -1);
}

#[test]
fn failure_carries_its_code() {
    assert_eq!(SpdkError::SetupFailure { code: -7 }.code(), -7);
    assert_eq!(SpdkError::OperationFailure { code: 11 }.code(), 11);
}
