//! The single-slot completion primitive.
//!
//! A slot is the rendezvous between one producer, typically a native callback,
//! and one consumer, a suspended computation. The producer fills it once; the
//! consumer polls it until the value is there and takes the value once.

use crate::reactor::{Reactor, ReactorView};
use crate::waker::WakeToken;
use vstd::prelude::*;

verus! {

/// What a slot holds, as a mathematical value.
pub enum SlotState<T> {
    /// No value yet, and nobody has asked for it.
    Empty,
    /// No value yet; the token is invoked when the value arrives.
    Waiting(WakeToken),
    /// The value is there and has not been taken.
    Filled(T),
    /// The value has been taken.
    Consumed,
}

impl<T> SlotState<T> {
    /// Whether the slot still waits for its value.
    pub open spec fn pending(self) -> bool {
        self is Empty || self is Waiting
    }

    /// The token that is invoked when the slot is filled.
    pub open spec fn waiter(self) -> Option<WakeToken> {
        match self {
            SlotState::Waiting(token) => Some(token),
            _ => None,
        }
    }

    /// The slot after the producer has written `value`.
    pub open spec fn filled(self, value: T) -> SlotState<T> {
        SlotState::Filled(value)
    }

    /// What one poll by the consumer hands out.
    pub open spec fn taken(self) -> Option<T> {
        match self {
            SlotState::Filled(value) => Some(value),
            _ => None,
        }
    }

    /// The slot after one poll by a consumer that would be woken through `token`.
    pub open spec fn polled(self, token: WakeToken) -> SlotState<T> {
        match self {
            SlotState::Empty | SlotState::Waiting(_) => SlotState::Waiting(token),
            SlotState::Filled(_) | SlotState::Consumed => SlotState::Consumed,
        }
    }

    /// What a run of polls hands out, one result for each token of `tokens`.
    pub open spec fn drained(self, tokens: Seq<WakeToken>) -> Seq<Option<T>>
        decreases tokens.len(),
    {
        if tokens.len() == 0 {
            Seq::empty()
        } else {
            seq![self.taken()] + self.polled(tokens[0]).drained(tokens.drop_first())
        }
    }
}

/// The reactor after the token of `waiter`, if there is one, has been invoked.
pub open spec fn notified(reactor: ReactorView, waiter: Option<WakeToken>) -> ReactorView {
    match waiter {
        Some(token) => reactor.resume(token.poller),
        None => reactor,
    }
}

pub struct CompletionSlot<T> {
    state: SlotState<T>,
}

impl<T> CompletionSlot<T> {
    pub closed spec fn view(&self) -> SlotState<T> {
        self.state
    }

    /// A new, empty slot.
    pub fn create() -> (slot: CompletionSlot<T>)
        ensures
            slot@ == SlotState::<T>::Empty,
    {
        CompletionSlot { state: SlotState::Empty }
    }

    /// Writes the value. If a consumer has polled the slot before and found it
    /// empty, its token is invoked, once, and returned; otherwise no token is
    /// invoked and the reactor is left as it was.
    ///
    /// A slot is filled once: filling a slot that already got its value is a
    /// programming error, excluded here.
    pub fn fill(&mut self, value: T, reactor: &mut Reactor) -> (woken: Option<WakeToken>)
        requires
            old(self)@.pending(),
        ensures
            final(self)@ == old(self)@.filled(value),
            woken == old(self)@.waiter(),
            final(reactor)@ == notified(old(reactor)@, woken),
    {
        let mut state = SlotState::Filled(value);
        core::mem::swap(&mut self.state, &mut state);
        match state {
            SlotState::Waiting(token) => {
                token.wake(reactor);
                Some(token)
            },
            _ => None,
        }
    }

    /// One poll by the consumer. A filled slot hands out its value and is
    /// consumed. A slot without a value remembers `token`, in place of any token
    /// it held, and reports that the value is still pending. A consumed slot
    /// hands out nothing more and remembers nothing.
    pub fn try_take(&mut self, token: WakeToken) -> (taken: Option<T>)
        ensures
            taken == old(self)@.taken(),
            final(self)@ == old(self)@.polled(token),
    {
        let mut state = SlotState::Consumed;
        core::mem::swap(&mut self.state, &mut state);
        match state {
            SlotState::Filled(value) => Some(value),
            SlotState::Consumed => None,
            _ => {
                self.state = SlotState::Waiting(token);
                None
            },
        }
    }

    /// Whether the slot still waits for its value.
    pub fn is_pending(&self) -> (pending: bool)
        ensures
            pending == self@.pending(),
    {
        match &self.state {
            SlotState::Empty | SlotState::Waiting(_) => true,
            _ => false,
        }
    }

    /// Whether the value is there and has not been taken.
    pub fn is_filled(&self) -> (filled: bool)
        ensures
            filled == (self@ is Filled),
    {
        match &self.state {
            SlotState::Filled(_) => true,
            _ => false,
        }
    }

    /// Whether the value has been taken.
    pub fn is_consumed(&self) -> (consumed: bool)
        ensures
            consumed == (self@ is Consumed),
    {
        match &self.state {
            SlotState::Consumed => true,
            _ => false,
        }
    }
}

/// Single resolution: once a slot is filled, a run of polls of any length
/// observes the value in its first poll and in no other.
pub proof fn lemma_single_resolution<T>(state: SlotState<T>, value: T, tokens: Seq<WakeToken>)
    requires
        state.pending(),
    ensures
        state.filled(value).drained(tokens).len() == tokens.len(),
        forall|i: int|
            0 <= i < tokens.len() ==> #[trigger] state.filled(value).drained(tokens)[i] == (if i
                == 0 {
                Some(value)
            } else {
                None
            }),
{
    let filled = state.filled(value);
    if tokens.len() > 0 {
        lemma_consumed_stays_silent::<T>(tokens.drop_first());
        assert(filled.polled(tokens[0]) == SlotState::<T>::Consumed);
    }
}

/// A consumed slot hands out nothing, however often it is polled.
pub proof fn lemma_consumed_stays_silent<T>(tokens: Seq<WakeToken>)
    ensures
        SlotState::<T>::Consumed.drained(tokens).len() == tokens.len(),
        forall|i: int|
            0 <= i < tokens.len() ==> #[trigger] SlotState::<T>::Consumed.drained(tokens)[i]
                == None::<T>,
    decreases tokens.len(),
{
    if tokens.len() > 0 {
        lemma_consumed_stays_silent::<T>(tokens.drop_first());
        assert(SlotState::<T>::Consumed.polled(tokens[0]) == SlotState::<T>::Consumed);
    }
}

/// Early fill: a slot that is filled before its first poll invokes no token and
/// leaves the reactor as it was, and the first poll returns the value without
/// leaving a token behind.
pub proof fn lemma_early_fill<T>(reactor: ReactorView, value: T, token: WakeToken)
    ensures
        SlotState::<T>::Empty.pending(),
        SlotState::<T>::Empty.waiter() == None::<WakeToken>,
        notified(reactor, SlotState::<T>::Empty.waiter()) == reactor,
        SlotState::<T>::Empty.filled(value).taken() == Some(value),
        SlotState::<T>::Empty.filled(value).polled(token).waiter() == None::<WakeToken>,
{
}

/// Late fill: a poll that finds the slot without its value leaves its token
/// behind; the fill that follows invokes exactly that token, once, and the slot
/// holds no token afterwards; the next poll returns the value.
pub proof fn lemma_late_fill<T>(
    state: SlotState<T>,
    reactor: ReactorView,
    value: T,
    first: WakeToken,
    next: WakeToken,
)
    requires
        state.pending(),
    ensures
        state.taken() == None::<T>,
        state.polled(first).pending(),
        state.polled(first).waiter() == Some(first),
        notified(reactor, state.polled(first).waiter()) == reactor.resume(first.poller),
        reactor.resume(first.poller).wakeups == reactor.wakeups.push(first.poller),
        state.polled(first).filled(value).waiter() == None::<WakeToken>,
        state.polled(first).filled(value).taken() == Some(value),
        state.polled(first).filled(value).polled(next) == SlotState::<T>::Consumed,
{
}

} // verus!
