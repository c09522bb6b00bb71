//! The bridge from "issue a native call, be called back once" to a value that a
//! computation can wait for.
//!
//! One [`BridgeCall`] stands for one native operation. The computation that
//! wants the operation creates the call, runs the setup step that hands the
//! operation to the native layer, and reports the status of that step with
//! [`BridgeCall::start`]. The native layer's callback reports the operation's
//! outcome with [`BridgeCall::complete`], at any time after the call was
//! created: also before the setup step has returned. The computation polls the
//! call until the outcome is there.

use crate::complete::{notified, CompletionSlot, SlotState};
use crate::error::{flag_outcome, status_outcome, SpdkError, GENERIC_FAILURE};
use crate::reactor::Reactor;
use crate::waker::WakeToken;
use vstd::prelude::*;

verus! {

/// The answer of one poll.
pub enum Poll<T> {
    /// The value is not there yet; the caller is woken when it may be.
    Pending,
    /// The value, handed out once.
    Ready(T),
}

/// The answer of a poll that found `taken` in a slot.
pub open spec fn poll_of<T>(taken: Option<T>) -> Poll<T> {
    match taken {
        Some(value) => Poll::Ready(value),
        None => Poll::Pending,
    }
}

#[derive(Clone, Copy, Debug, PartialEq, Eq, Structural)]
pub enum BridgePhase {
    /// The setup step has not reported yet.
    Created,
    /// The setup step succeeded: the native layer owes one callback.
    Started,
    /// The setup step failed: no callback will come.
    Aborted,
}

/// What a call is, as a mathematical value.
pub struct BridgeView<T> {
    pub phase: BridgePhase,
    pub slot: SlotState<Result<T, SpdkError>>,
}

impl<T> BridgeView<T> {
    /// A call whose setup step has not run, with an empty slot.
    pub open spec fn initial() -> BridgeView<T> {
        BridgeView { phase: BridgePhase::Created, slot: SlotState::Empty }
    }

    /// The call after `start` with the status of the setup step.
    pub open spec fn started(self, setup_status: i32, token: WakeToken) -> BridgeView<T> {
        if setup_status != 0 {
            BridgeView { phase: BridgePhase::Aborted, slot: self.slot }
        } else {
            BridgeView { phase: BridgePhase::Started, slot: self.slot.polled(token) }
        }
    }

    /// What `start` answers.
    pub open spec fn start_answer(self, setup_status: i32) -> Poll<Result<T, SpdkError>> {
        if setup_status != 0 {
            Poll::Ready(Err(SpdkError::SetupFailure { code: setup_status }))
        } else {
            self.poll_answer()
        }
    }

    /// The call after one poll by a computation that would be woken through
    /// `token`.
    pub open spec fn polled(self, token: WakeToken) -> BridgeView<T> {
        BridgeView { slot: self.slot.polled(token), ..self }
    }

    /// What one poll answers.
    pub open spec fn poll_answer(self) -> Poll<Result<T, SpdkError>> {
        poll_of(self.slot.taken())
    }

    /// The call after the native layer has called back with `outcome`.
    pub open spec fn completed(self, outcome: Result<T, SpdkError>) -> BridgeView<T> {
        BridgeView { slot: self.slot.filled(outcome), ..self }
    }
}

pub struct BridgeCall<T> {
    phase: BridgePhase,
    slot: CompletionSlot<Result<T, SpdkError>>,
}

impl<T> BridgeCall<T> {
    pub closed spec fn view(&self) -> BridgeView<T> {
        BridgeView { phase: self.phase, slot: self.slot@ }
    }

    /// A call whose setup step has not run, with an empty slot.
    pub fn new() -> (call: BridgeCall<T>)
        ensures
            call@ == BridgeView::<T>::initial(),
    {
        BridgeCall { phase: BridgePhase::Created, slot: CompletionSlot::create() }
    }

    /// Reports the status of the setup step and polls for the outcome.
    ///
    /// A nonzero status is a failure of the setup step: it is returned at once
    /// as `SetupFailure`, the call does not suspend and leaves no token behind.
    /// With status zero the call is started; if the callback has come already
    /// the outcome is returned, otherwise the call is pending and `token` is
    /// invoked when the callback comes.
    pub fn start(&mut self, setup_status: i32, token: WakeToken) -> (answer: Poll<
        Result<T, SpdkError>,
    >)
        requires
            old(self)@.phase == BridgePhase::Created,
        ensures
            final(self)@ == old(self)@.started(setup_status, token),
            answer == old(self)@.start_answer(setup_status),
    {
        if setup_status != 0 {
            self.phase = BridgePhase::Aborted;
            return Poll::Ready(Err(SpdkError::SetupFailure { code: setup_status }));
        }
        self.phase = BridgePhase::Started;
        match self.slot.try_take(token) {
            Some(outcome) => Poll::Ready(outcome),
            None => Poll::Pending,
        }
    }

    /// Polls a started call for its outcome: the outcome is handed out once;
    /// until it is there the call is pending and remembers `token`.
    ///
    /// Polling a call whose setup step never ran is a programming error,
    /// excluded here.
    pub fn poll(&mut self, token: WakeToken) -> (answer: Poll<Result<T, SpdkError>>)
        requires
            old(self)@.phase == BridgePhase::Started,
        ensures
            final(self)@ == old(self)@.polled(token),
            answer == old(self)@.poll_answer(),
    {
        match self.slot.try_take(token) {
            Some(outcome) => Poll::Ready(outcome),
            None => Poll::Pending,
        }
    }

    /// The callback of an operation that reports a status code and a value:
    /// status zero resolves the call to the value, any other status to an
    /// `OperationFailure` that carries it. A computation that waits for the
    /// call is woken.
    ///
    /// The native layer calls back once for each operation: a second callback
    /// for the same call is a programming error, excluded here.
    pub fn complete(&mut self, status: i32, value: T, reactor: &mut Reactor) -> (woken: Option<
        WakeToken,
    >)
        requires
            old(self)@.slot.pending(),
        ensures
            final(self)@ == old(self)@.completed(status_outcome(status, value)),
            woken == old(self)@.slot.waiter(),
            final(reactor)@ == notified(old(reactor)@, woken),
    {
        let outcome = if status == 0 {
            Ok(value)
        } else {
            Err(SpdkError::OperationFailure { code: status })
        };
        self.slot.fill(outcome, reactor)
    }

    /// The callback of an operation that reports only whether it succeeded: a
    /// failure resolves the call to an `OperationFailure` with
    /// `GENERIC_FAILURE`.
    pub fn complete_with_flag(&mut self, success: bool, value: T, reactor: &mut Reactor) -> (woken:
        Option<WakeToken>)
        requires
            old(self)@.slot.pending(),
        ensures
            final(self)@ == old(self)@.completed(flag_outcome(success, value)),
            woken == old(self)@.slot.waiter(),
            final(reactor)@ == notified(old(reactor)@, woken),
    {
        let outcome = if success {
            Ok(value)
        } else {
            Err(SpdkError::OperationFailure { code: GENERIC_FAILURE })
        };
        self.slot.fill(outcome, reactor)
    }

    pub fn phase(&self) -> (phase: BridgePhase)
        ensures
            phase == self@.phase,
    {
        self.phase
    }

    /// Whether the callback is still owed.
    pub fn is_pending(&self) -> (pending: bool)
        ensures
            pending == self@.slot.pending(),
    {
        self.slot.is_pending()
    }
}

/// A failed setup step never suspends: the call answers at once with a
/// `SetupFailure` that carries the status, it is over, and its slot is as it
/// was, so that no token was left behind for anyone to invoke.
pub proof fn lemma_setup_failure_never_suspends<T>(
    call: BridgeView<T>,
    setup_status: i32,
    token: WakeToken,
)
    requires
        setup_status != 0,
    ensures
        call.start_answer(setup_status) == Poll::<Result<T, SpdkError>>::Ready(
            Err(SpdkError::SetupFailure { code: setup_status }),
        ),
        call.started(setup_status, token).phase == BridgePhase::Aborted,
        call.started(setup_status, token).slot == call.slot,
{
}

/// One resolution for each call. A call that is started before its callback
/// comes is pending until then, as often as it is polled; the callback wakes
/// the computation that polled last; the poll that follows returns the
/// outcome, and no later poll returns it again.
pub proof fn lemma_call_resolves_once<T>(
    outcome: Result<T, SpdkError>,
    first: WakeToken,
    again: WakeToken,
    later: WakeToken,
)
    ensures
        ({
            let started = BridgeView::<T>::initial().started(0, first);
            let waiting = started.polled(again);
            let resolved = waiting.completed(outcome);
            &&& BridgeView::<T>::initial().start_answer(0) == Poll::<Result<T, SpdkError>>::Pending
            &&& started.phase == BridgePhase::Started
            &&& started.poll_answer() == Poll::<Result<T, SpdkError>>::Pending
            &&& waiting.slot.pending()
            &&& waiting.slot.waiter() == Some(again)
            &&& resolved.poll_answer() == Poll::Ready(outcome)
            &&& resolved.polled(later).poll_answer() == Poll::<Result<T, SpdkError>>::Pending
            &&& resolved.polled(later).slot.waiter() == None::<WakeToken>
        }),
{
}

/// A callback that comes before the setup step has returned is not lost: the
/// call answers with the outcome as soon as it is started, without suspending
/// and without leaving a token behind.
pub proof fn lemma_early_callback_is_kept<T>(outcome: Result<T, SpdkError>, token: WakeToken)
    ensures
        ({
            let early = BridgeView::<T>::initial().completed(outcome);
            &&& BridgeView::<T>::initial().slot.pending()
            &&& BridgeView::<T>::initial().slot.waiter() == None::<WakeToken>
            &&& early.start_answer(0) == Poll::Ready(outcome)
            &&& early.started(0, token).slot.waiter() == None::<WakeToken>
        }),
{
}

} // verus!
