//! The poller table of a reactor.
//!
//! A reactor calls every registered poller once per tick, skipping the paused
//! ones, until it is stopped. This module keeps the record of which pollers
//! exist and which of them are due; it never runs a poller itself.

use crate::slab::{Key, Slab};
use vstd::prelude::*;

verus! {

/// Identity of a registered poller. It names one poller for as long as that
/// poller is registered, and no poller after that.
#[derive(Clone, Copy, Debug, PartialEq, Eq, Hash, Structural)]
pub struct PollerId {
    pub key: Key,
}

#[derive(Clone, Copy, Debug, PartialEq, Eq, Structural)]
pub enum PollerState {
    /// Called on every tick.
    Active,
    /// Registered, but skipped until it is resumed.
    Paused,
}

/// What a reactor is, as a mathematical value.
pub struct ReactorView {
    /// The registered pollers.
    pub pollers: Map<PollerId, PollerState>,
    /// Whether the reactor has been told to stop.
    pub stopped: bool,
    /// How often the reactor has been told to stop.
    pub stop_requests: nat,
    /// Every resume request made so far, oldest first.
    pub wakeups: Seq<PollerId>,
    /// Every identity that was ever given to a poller, registered still or not.
    pub issued: Set<PollerId>,
}

impl ReactorView {
    /// A reactor with no poller, running.
    pub open spec fn initial() -> ReactorView {
        ReactorView {
            pollers: Map::empty(),
            stopped: false,
            stop_requests: 0,
            wakeups: Seq::empty(),
            issued: Set::empty(),
        }
    }

    pub open spec fn register(self, id: PollerId) -> ReactorView {
        ReactorView {
            pollers: self.pollers.insert(id, PollerState::Active),
            issued: self.issued.insert(id),
            ..self
        }
    }

    pub open spec fn pause(self, id: PollerId) -> ReactorView {
        if self.pollers.contains_key(id) {
            ReactorView { pollers: self.pollers.insert(id, PollerState::Paused), ..self }
        } else {
            self
        }
    }

    /// A resume request for `id`: it is recorded, and the poller, if it is
    /// registered, is active afterwards.
    pub open spec fn resume(self, id: PollerId) -> ReactorView {
        ReactorView {
            pollers: if self.pollers.contains_key(id) {
                self.pollers.insert(id, PollerState::Active)
            } else {
                self.pollers
            },
            wakeups: self.wakeups.push(id),
            ..self
        }
    }

    pub open spec fn unregister(self, id: PollerId) -> ReactorView {
        ReactorView { pollers: self.pollers.remove(id), ..self }
    }

    pub open spec fn stop(self) -> ReactorView {
        ReactorView { stopped: true, stop_requests: self.stop_requests + 1, ..self }
    }

    /// Whether the next tick calls poller `id`.
    pub open spec fn due(self, id: PollerId) -> bool {
        !self.stopped && self.pollers.contains_key(id) && self.pollers[id] == PollerState::Active
    }
}

pub struct Reactor {
    pollers: Slab<PollerState>,
    stopped: bool,
    stop_requests: Ghost<nat>,
    wakeups: Ghost<Seq<PollerId>>,
}

impl Reactor {
    pub closed spec fn view(&self) -> ReactorView {
        ReactorView {
            pollers: Map::new(
                |id: PollerId| self.pollers@.contains_key(id.key),
                |id: PollerId| self.pollers@[id.key],
            ),
            stopped: self.stopped,
            stop_requests: self.stop_requests@,
            wakeups: self.wakeups@,
            issued: Set::new(|id: PollerId| self.pollers.issued_keys().contains(id.key)),
        }
    }

    /// The identity of every registered poller is among those handed out, and
    /// no two registered pollers share a position.
    pub proof fn lemma_registered_pollers(&self)
        ensures
            self@.pollers.dom().subset_of(self@.issued),
            forall|a: PollerId, b: PollerId|
                self@.pollers.contains_key(a) && self@.pollers.contains_key(b) && a.key.index
                    == b.key.index ==> a == b,
    {
        self.pollers.lemma_live_keys();
    }

    /// A running reactor without pollers.
    pub fn new() -> (reactor: Reactor)
        ensures
            reactor@ == ReactorView::initial(),
    {
        let reactor = Reactor {
            pollers: Slab::new(),
            stopped: false,
            stop_requests: Ghost(0),
            wakeups: Ghost(Seq::empty()),
        };
        assert(reactor@.pollers =~= Map::empty());
        assert(reactor@.issued =~= Set::empty());
        reactor
    }

    /// Registers a poller, active from the start, under an identity that this
    /// reactor never used before.
    pub fn register_poller(&mut self) -> (id: PollerId)
        ensures
            !old(self)@.issued.contains(id),
            final(self)@ == old(self)@.register(id),
    {
        let id = PollerId { key: self.pollers.insert(PollerState::Active) };
        assert(self@.pollers =~= old(self)@.register(id).pollers);
        assert(self@.issued =~= old(self)@.register(id).issued);
        id
    }

    /// Pauses a poller. An identity that names no registered poller changes nothing.
    pub fn pause_poller(&mut self, id: PollerId)
        ensures
            final(self)@ == old(self)@.pause(id),
    {
        match self.pollers.get_mut(id.key) {
            Some(state) => {
                *state = PollerState::Paused;
            },
            None => {},
        }
        assert(self@.pollers =~= old(self)@.pause(id).pollers);
    }

    /// Resumes a poller, whether it was paused or not. An identity that names no
    /// registered poller changes nothing but the record of requests.
    pub fn resume_poller(&mut self, id: PollerId)
        ensures
            final(self)@ == old(self)@.resume(id),
    {
        match self.pollers.get_mut(id.key) {
            Some(state) => {
                *state = PollerState::Active;
            },
            None => {},
        }
        proof {
            self.wakeups@ = self.wakeups@.push(id);
        }
        assert(self@.pollers =~= old(self)@.resume(id).pollers);
    }

    /// Removes a poller for good; its identity is never used again.
    pub fn unregister_poller(&mut self, id: PollerId)
        ensures
            final(self)@ == old(self)@.unregister(id),
    {
        let _ = self.pollers.remove(id.key);
        assert(self@.pollers =~= old(self)@.unregister(id).pollers);
    }

    /// Tells the reactor to stop: from now on no poller is due.
    pub fn stop(&mut self)
        ensures
            final(self)@ == old(self)@.stop(),
    {
        self.stopped = true;
        proof {
            self.stop_requests@ = self.stop_requests@ + 1;
        }
        assert(self@.pollers =~= old(self)@.pollers);
    }

    pub fn is_stopped(&self) -> (stopped: bool)
        ensures
            stopped == self@.stopped,
    {
        self.stopped
    }

    pub fn poller_state(&self, id: PollerId) -> (state: Option<PollerState>)
        ensures
            state == (if self@.pollers.contains_key(id) {
                Some(self@.pollers[id])
            } else {
                None
            }),
    {
        match self.pollers.get(id.key) {
            Some(state) => Some(*state),
            None => None,
        }
    }

    /// Whether the next tick calls poller `id`.
    pub fn is_due(&self, id: PollerId) -> (due: bool)
        ensures
            due == self@.due(id),
    {
        if self.stopped {
            return false;
        }
        match self.pollers.get(id.key) {
            Some(PollerState::Active) => true,
            _ => false,
        }
    }

    /// The pollers that the next tick calls, in the order of their
    /// identities' positions. None once the reactor is stopped.
    pub fn due_pollers(&self) -> (due: Vec<PollerId>)
        ensures
            forall|id: PollerId| due@.contains(id) <==> self@.due(id),
            forall|i: int, j: int|
                0 <= i < j < due@.len() ==> due@[i].key.index < due@[j].key.index,
    {
        let mut due: Vec<PollerId> = Vec::new();
        let n: usize = self.pollers.slots();
        let mut index: usize = 0;
        proof {
            self.pollers.lemma_live_keys();
        }
        while index < n
            invariant
                index <= n,
                n == self.pollers.positions(),
                forall|k: int|
                    0 <= k < due@.len() ==> self@.due(#[trigger] due@[k]) && due@[k].key.index
                        < index,
                forall|id: PollerId| #[trigger]
                    self@.due(id) && id.key.index < index ==> due@.contains(id),
                forall|i: int, j: int|
                    0 <= i < j < due@.len() ==> due@[i].key.index < due@[j].key.index,
            decreases n - index,
        {
            proof {
                self.pollers.lemma_live_keys();
            }
            let ghost before = due@;
            match self.pollers.key_at(index) {
                Some(key) => {
                    let id = PollerId { key };
                    if self.is_due(id) {
                        due.push(id);
                        assert(due@[before.len() as int] == id);
                    }
                },
                None => {},
            }
            assert forall|id: PollerId| #[trigger]
                self@.due(id) && id.key.index < index + 1 implies due@.contains(id) by {
                if id.key.index < index {
                    let k = choose|k: int| 0 <= k < before.len() && before[k] == id;
                    assert(due@[k] == id);
                }
            }
            index = index + 1;
        }
        due
    }
}

} // verus!
