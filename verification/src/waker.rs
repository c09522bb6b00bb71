//! The resume signal of a poller.

use crate::reactor::{PollerId, Reactor, ReactorView};
use vstd::prelude::*;

verus! {

/// A copyable back-reference to a poller: invoking it tells the reactor to
/// consider that poller again on the next tick. It carries no payload and never
/// owns the poller.
#[derive(Clone, Copy, Debug, PartialEq, Eq, Structural)]
pub struct WakeToken {
    pub poller: PollerId,
}

impl WakeToken {
    pub fn new(poller: PollerId) -> (token: WakeToken)
        ensures
            token.poller == poller,
    {
        WakeToken { poller }
    }

    /// Invokes the token: the poller is active afterwards, whatever it was
    /// before. A token whose poller is gone changes no poller.
    pub fn wake(&self, reactor: &mut Reactor)
        ensures
            final(reactor)@ == old(reactor)@.resume(self.poller),
    {
        reactor.resume_poller(self.poller);
    }
}

/// Invoking a token again before the next tick changes no poller: the table
/// after two invocations is the table after one.
pub proof fn lemma_wake_is_idempotent(reactor: ReactorView, token: WakeToken)
    ensures
        reactor.resume(token.poller).resume(token.poller).pollers == reactor.resume(
            token.poller,
        ).pollers,
        reactor.resume(token.poller).resume(token.poller).stopped == reactor.stopped,
{
    assert(reactor.resume(token.poller).resume(token.poller).pollers =~= reactor.resume(
        token.poller,
    ).pollers);
}

/// An invoked token un-pauses its poller unconditionally: if the poller is
/// registered and the reactor runs, the poller is due.
pub proof fn lemma_wake_makes_due(reactor: ReactorView, token: WakeToken)
    requires
        reactor.pollers.contains_key(token.poller),
        !reactor.stopped,
    ensures
        reactor.resume(token.poller).due(token.poller),
{
}

} // verus!
