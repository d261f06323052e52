//! The wakeup manager: the authoritative asleep/runnable/running registry.
//! It decouples "a message arrived" from "a thread is executing it": a wake
//! moves an actor from asleep to runnable and publishes exactly one wakeup
//! token; a worker claims a runnable actor (removing it from the claimable
//! set the instant it is taken), runs one activation, and releases it.
//!
//! The registry's behaviour is pinned by a mathematical scheduling model
//! ([`SchedModel`]) and pure transition functions on it; the proofs at the
//! end of this file state the scheduling guarantees (mutual exclusion per
//! actor, idempotent wakes) over those transitions.

use vstd::prelude::*;
use crate::address::{ActorAddress, AddrView};

verus! {

/// An actor is in exactly one of these states, from its registration
/// (asleep) to its removal.
#[derive(Clone, Copy, PartialEq, Eq, Structural, Debug)]
pub enum SchedState {
    /// Idle: no pending messages, not scheduled.
    Asleep,
    /// Woken and published to its pool's work queue, awaiting a worker.
    Runnable,
    /// Claimed by a worker: one activation is executing right now.
    Running,
}

/// One wakeup token: published when an actor turns runnable, consumed by
/// the worker that claims the actor. The iteration counts wake
/// transitions, for observability only.
pub struct WakeupMessage {
    pub iteration: usize,
    pub actor_address: ActorAddress,
}

/// The channel that carries wakeup tokens. Both halves of one crossbeam
/// channel are held together, so the queue has a single owner.
#[verifier::external_body]
pub struct WakeQueue {
    sender: crossbeam_channel::Sender<WakeupMessage>,
    receiver: crossbeam_channel::Receiver<WakeupMessage>,
}

/// The tokens currently queued, oldest first.
pub uninterp spec fn wake_queue_contents(q: WakeQueue) -> Seq<WakeupMessage>;

/// Relies on `crossbeam_channel::unbounded`: a freshly created channel
/// holds nothing.
#[verifier::external_body]
pub(crate) fn wake_queue_new() -> (q: WakeQueue)
    ensures
        wake_queue_contents(q) == Seq::<WakeupMessage>::empty(),
{
    let (sender, receiver) = crossbeam_channel::unbounded();
    WakeQueue { sender, receiver }
}

/// Relies on `crossbeam_channel::Sender::send` on an unbounded channel:
/// it never blocks and enqueues at the back. Disconnection cannot occur:
/// the receiver lives in the same struct.
#[verifier::external_body]
pub(crate) fn wake_queue_push(q: &mut WakeQueue, m: WakeupMessage)
    ensures
        wake_queue_contents(*final(q)) == wake_queue_contents(*old(q)).push(m),
{
    let _ = q.sender.send(m);
}

/// Relies on `crossbeam_channel::Receiver::try_recv`: returns the oldest
/// queued token without blocking, or `Empty` when none is queued.
#[verifier::external_body]
pub(crate) fn wake_queue_try_pop(q: &mut WakeQueue) -> (r: Option<WakeupMessage>)
    ensures
        wake_queue_contents(*old(q)).len() == 0 ==> r is None && wake_queue_contents(*final(q))
            == wake_queue_contents(*old(q)),
        wake_queue_contents(*old(q)).len() > 0 ==> r == Some(wake_queue_contents(*old(q))[0])
            && wake_queue_contents(*final(q)) == wake_queue_contents(*old(q)).skip(1),
{
    match q.receiver.try_recv() {
        Ok(m) => Some(m),
        Err(_) => None,
    }
}

/// The mathematical value of the scheduler: each registered actor's state,
/// and the queue of pending wakeup tokens (as address values, oldest
/// first).
#[verifier::ext_equal]
pub struct SchedModel {
    pub states: Seq<(AddrView, SchedState)>,
    pub pending: Seq<AddrView>,
}

/// Some entry carries this address.
pub open spec fn contains_addr(states: Seq<(AddrView, SchedState)>, a: AddrView) -> bool {
    exists|i: int| 0 <= i < states.len() && states[i].0 == a
}

/// The index of the entry carrying this address (meaningful under
/// [`unique_addrs`]).
pub open spec fn state_index(states: Seq<(AddrView, SchedState)>, a: AddrView) -> int {
    choose|i: int| 0 <= i < states.len() && states[i].0 == a
}

/// The scheduling state registered under this address.
pub open spec fn state_of(states: Seq<(AddrView, SchedState)>, a: AddrView) -> SchedState {
    states[state_index(states, a)].1
}

/// Each address owns at most one entry: the registry serializes lifecycle
/// transitions per address.
pub open spec fn unique_addrs(states: Seq<(AddrView, SchedState)>) -> bool {
    forall|i: int, j: int| 0 <= i < j < states.len() ==> states[i].0 != states[j].0
}

/// The registry with every entry of this address moved to the given state.
pub open spec fn set_state(
    states: Seq<(AddrView, SchedState)>,
    a: AddrView,
    s: SchedState,
) -> Seq<(AddrView, SchedState)> {
    states.map(
        |i: int, e: (AddrView, SchedState)|
            if e.0 == a {
                (e.0, s)
            } else {
                e
            },
    )
}

/// A wake takes effect only on a registered, asleep actor.
pub open spec fn wake_enabled(m: SchedModel, a: AddrView) -> bool {
    contains_addr(m.states, a) && state_of(m.states, a) is Asleep
}

/// The wake transition: an asleep actor turns runnable and exactly one
/// token is published; a wake of an actor that is already runnable or
/// running, or unknown, changes nothing.
pub open spec fn wake_tr(m: SchedModel, a: AddrView) -> SchedModel {
    if wake_enabled(m, a) {
        SchedModel { states: set_state(m.states, a, SchedState::Runnable), pending: m.pending.push(a) }
    } else {
        m
    }
}

/// A claim takes effect only on a registered, runnable actor.
pub open spec fn claim_enabled(m: SchedModel, a: AddrView) -> bool {
    contains_addr(m.states, a) && state_of(m.states, a) is Runnable
}

/// The claim transition: a worker takes a runnable actor, which is
/// running from that instant; a claim of an actor in any other state
/// changes nothing and fails.
pub open spec fn claim_tr(m: SchedModel, a: AddrView) -> SchedModel {
    if claim_enabled(m, a) {
        SchedModel { states: set_state(m.states, a, SchedState::Running), pending: m.pending }
    } else {
        m
    }
}

/// A release takes effect only on a running actor.
pub open spec fn finish_enabled(m: SchedModel, a: AddrView) -> bool {
    contains_addr(m.states, a) && state_of(m.states, a) is Running
}

/// The release transition, routing the post-activation state back: the
/// running actor either goes back to sleep, or stays runnable with one
/// fresh token (cooperative yield).
pub open spec fn finish_tr(m: SchedModel, a: AddrView, runnable: bool) -> SchedModel {
    if finish_enabled(m, a) {
        if runnable {
            SchedModel {
                states: set_state(m.states, a, SchedState::Runnable),
                pending: m.pending.push(a),
            }
        } else {
            SchedModel { states: set_state(m.states, a, SchedState::Asleep), pending: m.pending }
        }
    } else {
        m
    }
}

/// Under unique addresses, the entry found at a witness index is the
/// entry [`state_of`] speaks about.
pub proof fn lemma_state_at(states: Seq<(AddrView, SchedState)>, a: AddrView, i: int)
    requires
        unique_addrs(states),
        0 <= i < states.len(),
        states[i].0 == a,
    ensures
        contains_addr(states, a),
        state_index(states, a) == i,
        state_of(states, a) == states[i].1,
{
    assert(contains_addr(states, a));
    let j = state_index(states, a);
    assert(0 <= j < states.len() && states[j].0 == a);
    if i != j {
        if i < j {
            assert(states[i].0 != states[j].0);
        } else {
            assert(states[j].0 != states[i].0);
        }
        assert(false);
    }
}

/// One entry in the registry.
struct WakeEntry {
    address: ActorAddress,
    state: SchedState,
}

/// The exec-side registry: entries keyed by address, plus the queue of
/// published wakeup tokens and the running wake-transition counter.
pub struct WakeupManager {
    entries: Vec<WakeEntry>,
    queue: WakeQueue,
    iteration: usize,
}

impl WakeupManager {
    /// The scheduling model this registry realizes.
    pub closed spec fn model(self) -> SchedModel {
        SchedModel {
            states: self.entries@.map(|i: int, e: WakeEntry| (e.address@, e.state)),
            pending: wake_queue_contents(self.queue).map(
                |i: int, w: WakeupMessage| w.actor_address@,
            ),
        }
    }

    /// Well-formed registry: one entry per address.
    pub open spec fn wf(self) -> bool {
        unique_addrs(self.model().states)
    }

    pub fn new() -> (r: WakeupManager)
        ensures
            r.wf(),
            r.model().states.len() == 0,
            r.model().pending.len() == 0,
    {
        WakeupManager { entries: Vec::new(), queue: wake_queue_new(), iteration: 0 }
    }

    /// Locates the entry of this address.
    fn find(&self, address: &ActorAddress) -> (r: Option<usize>)
        requires
            self.wf(),
        ensures
            r is Some ==> 0 <= r->Some_0 < self.model().states.len()
                && self.model().states[r->Some_0 as int].0 == address@,
            r is None ==> !contains_addr(self.model().states, address@),
    {
        let n = self.entries.len();
        let mut i: usize = 0;
        while i < n
            invariant
                n == self.entries@.len(),
                i <= n,
                self.wf(),
                forall|j: int| 0 <= j < i ==> self.model().states[j].0 != address@,
            decreases n - i,
        {
            if self.entries[i].address == *address {
                proof {
                    assert(self.model().states[i as int].0 =~= address@);
                }
                return Some(i);
            }
            proof {
                assert(self.model().states[i as int].0 == self.entries@[i as int].address@);
                if self.model().states[i as int].0 =~= address@ {
                    assert(self.entries@[i as int].address@ =~= address@);
                    assert(false);
                }
            }
            i += 1;
        }
        None
    }

    /// Registers a newly spawned actor as asleep. A second registration
    /// under the same address is refused and changes nothing.
    pub fn add_sleeping_actor(&mut self, address: ActorAddress) -> (r: bool)
        requires
            old(self).wf(),
        ensures
            final(self).wf(),
            r == !contains_addr(old(self).model().states, address@),
            r ==> final(self).model().states == old(self).model().states.push(
                (address@, SchedState::Asleep),
            ),
            !r ==> final(self).model() == old(self).model(),
            final(self).model().pending == old(self).model().pending,
    {
        match self.find(&address) {
            Some(_) => false,
            None => {
                self.entries.push(WakeEntry { address, state: SchedState::Asleep });
                proof {
                    assert(final(self).model().states =~= old(self).model().states.push(
                        (address@, SchedState::Asleep),
                    ));
                    assert forall|i: int, j: int|
                        0 <= i < j < final(self).model().states.len() implies final(self).model().states[i].0 != final(self).model().states[j].0 by {
                        if j == final(self).model().states.len() - 1 {
                            assert(final(self).model().states[i].0 == old(self).model().states[i].0);
                        }
                    }
                }
                true
            },
        }
    }

    /// Wakes an actor: asleep turns runnable with exactly one published
    /// token; concurrent or repeated wakes of an actor that is already
    /// runnable or running collapse to no-ops.
    pub fn wake(&mut self, address: &ActorAddress)
        requires
            old(self).wf(),
        ensures
            final(self).wf(),
            final(self).model() == wake_tr(old(self).model(), address@),
    {
        let found = self.find(address);
        match found {
            Some(i) => {
                let is_asleep = match self.entries[i].state {
                    SchedState::Asleep => true,
                    _ => false,
                };
                proof {
                    lemma_state_at(old(self).model().states, address@, i as int);
                }
                if is_asleep {
                    self.entries[i].state = SchedState::Runnable;
                    let token = WakeupMessage {
                        iteration: self.iteration,
                        actor_address: address.clone(),
                    };
                    if self.iteration < usize::MAX {
                        self.iteration = self.iteration + 1;
                    }
                    wake_queue_push(&mut self.queue, token);
                    proof {
                        assert(final(self).model().states =~= set_state(
                            old(self).model().states,
                            address@,
                            SchedState::Runnable,
                        )) by {
                            assert forall|k: int|
                                0 <= k < old(self).model().states.len() implies final(self).model().states[k] == set_state(
                                old(self).model().states,
                                address@,
                                SchedState::Runnable,
                            )[k] by {
                                if k != i as int {
                                    assert(old(self).model().states[k].0 != address@);
                                }
                            }
                        }
                        assert(final(self).model().pending =~= old(self).model().pending.push(
                            address@,
                        ));
                        assert(final(self).model() =~= wake_tr(old(self).model(), address@));
                        lemma_set_state_unique(old(self).model().states, address@,
                            SchedState::Runnable);
                    }
                } else {
                    proof {
                        assert(final(self).model() =~= wake_tr(old(self).model(), address@));
                    }
                }
            },
            None => {
                proof {
                    assert(final(self).model() =~= wake_tr(old(self).model(), address@));
                }
            },
        }
    }

    /// Claims a runnable actor for a worker: from the instant this
    /// returns true the actor is running and no other claim of it can
    /// succeed until it is released. Returns false, changing nothing, for
    /// an actor in any other state or not registered.
    pub fn try_claim(&mut self, address: &ActorAddress) -> (r: bool)
        requires
            old(self).wf(),
        ensures
            final(self).wf(),
            r == claim_enabled(old(self).model(), address@),
            final(self).model() == claim_tr(old(self).model(), address@),
    {
        let found = self.find(address);
        match found {
            Some(i) => {
                let is_runnable = match self.entries[i].state {
                    SchedState::Runnable => true,
                    _ => false,
                };
                proof {
                    lemma_state_at(old(self).model().states, address@, i as int);
                }
                if is_runnable {
                    self.entries[i].state = SchedState::Running;
                    proof {
                        assert(final(self).model().states =~= set_state(
                            old(self).model().states,
                            address@,
                            SchedState::Running,
                        )) by {
                            assert forall|k: int|
                                0 <= k < old(self).model().states.len() implies final(self).model().states[k] == set_state(
                                old(self).model().states,
                                address@,
                                SchedState::Running,
                            )[k] by {
                                if k != i as int {
                                    assert(old(self).model().states[k].0 != address@);
                                }
                            }
                        }
                        assert(final(self).model() =~= claim_tr(old(self).model(), address@));
                        lemma_set_state_unique(old(self).model().states, address@,
                            SchedState::Running);
                    }
                    true
                } else {
                    proof {
                        assert(final(self).model() =~= claim_tr(old(self).model(), address@));
                    }
                    false
                }
            },
            None => {
                proof {
                    assert(final(self).model() =~= claim_tr(old(self).model(), address@));
                }
                false
            },
        }
    }

    /// Releases a running actor when its activation ends: back to sleep
    /// when its mailbox drained empty, or runnable again with one fresh
    /// token when it yielded with messages still pending.
    pub fn release(&mut self, address: &ActorAddress, runnable: bool)
        requires
            old(self).wf(),
        ensures
            final(self).wf(),
            final(self).model() == finish_tr(old(self).model(), address@, runnable),
    {
        let found = self.find(address);
        match found {
            Some(i) => {
                let is_running = match self.entries[i].state {
                    SchedState::Running => true,
                    _ => false,
                };
                proof {
                    lemma_state_at(old(self).model().states, address@, i as int);
                }
                if is_running {
                    let target = if runnable {
                        SchedState::Runnable
                    } else {
                        SchedState::Asleep
                    };
                    self.entries[i].state = target;
                    if runnable {
                        let token = WakeupMessage {
                            iteration: self.iteration,
                            actor_address: address.clone(),
                        };
                        if self.iteration < usize::MAX {
                            self.iteration = self.iteration + 1;
                        }
                        wake_queue_push(&mut self.queue, token);
                    }
                    proof {
                        assert(final(self).model().states =~= set_state(
                            old(self).model().states,
                            address@,
                            target,
                        )) by {
                            assert forall|k: int|
                                0 <= k < old(self).model().states.len() implies final(self).model().states[k] == set_state(
                                old(self).model().states,
                                address@,
                                target,
                            )[k] by {
                                if k != i as int {
                                    assert(old(self).model().states[k].0 != address@);
                                }
                            }
                        }
                        if runnable {
                            assert(final(self).model().pending =~= old(self).model().pending.push(
                                address@,
                            ));
                        }
                        assert(final(self).model() =~= finish_tr(
                            old(self).model(),
                            address@,
                            runnable,
                        ));
                        lemma_set_state_unique(old(self).model().states, address@, target);
                    }
                } else {
                    proof {
                        assert(final(self).model() =~= finish_tr(
                            old(self).model(),
                            address@,
                            runnable,
                        ));
                    }
                }
            },
            None => {
                proof {
                    assert(final(self).model() =~= finish_tr(
                        old(self).model(),
                        address@,
                        runnable,
                    ));
                }
            },
        }
    }

    /// Deregisters a stopped actor. Tokens already published for it stay
    /// in flight and are discarded harmlessly when popped: a claim of an
    /// unregistered address fails.
    pub fn remove_actor(&mut self, address: &ActorAddress)
        requires
            old(self).wf(),
        ensures
            final(self).wf(),
            final(self).model().pending == old(self).model().pending,
            !contains_addr(final(self).model().states, address@),
            contains_addr(old(self).model().states, address@) ==> final(self).model().states
                == old(self).model().states.remove(
                state_index(old(self).model().states, address@),
            ),
            !contains_addr(old(self).model().states, address@) ==> final(self).model() == old(self).model(),
    {
        let found = self.find(address);
        match found {
            Some(i) => {
                proof {
                    lemma_state_at(old(self).model().states, address@, i as int);
                }
                let _ = self.entries.remove(i);
                proof {
                    assert(final(self).model().states =~= old(self).model().states.remove(
                        i as int,
                    ));
                    assert forall|p: int, q: int|
                        0 <= p < q < final(self).model().states.len() implies final(self).model().states[p].0 != final(self).model().states[q].0 by {
                        let sp = if p < i as int {
                            p
                        } else {
                            p + 1
                        };
                        let sq = if q < i as int {
                            q
                        } else {
                            q + 1
                        };
                        assert(final(self).model().states[p] == old(self).model().states[sp]);
                        assert(final(self).model().states[q] == old(self).model().states[sq]);
                    }
                    assert forall|k: int|
                        0 <= k < final(self).model().states.len() implies final(self).model().states[k].0 != address@ by {
                        let sk = if k < i as int {
                            k
                        } else {
                            k + 1
                        };
                        assert(final(self).model().states[k] == old(self).model().states[sk]);
                        if sk != i as int {
                            assert(old(self).model().states[sk].0 != address@);
                        }
                    }
                }
            },
            None => {},
        }
    }

    /// Pops the oldest published wakeup token, for routing to the owning
    /// pool's work queue.
    pub fn next_token(&mut self) -> (r: Option<WakeupMessage>)
        requires
            old(self).wf(),
        ensures
            final(self).wf(),
            final(self).model().states == old(self).model().states,
            old(self).model().pending.len() == 0 ==> r is None && final(self).model().pending
                == old(self).model().pending,
            old(self).model().pending.len() > 0 ==> r is Some && r->Some_0.actor_address@ == old(self).model().pending[0] && final(self).model().pending == old(self).model().pending.skip(1),
    {
        let r = wake_queue_try_pop(&mut self.queue);
        proof {
            if wake_queue_contents(old(self).queue).len() > 0 {
                assert(final(self).model().pending =~= old(self).model().pending.skip(1));
            }
        }
        r
    }
}

/// After every entry of an address was moved to one state, no entry of
/// that address is in any other state; entries of other addresses are
/// untouched.
pub proof fn lemma_set_state_unique(
    states: Seq<(AddrView, SchedState)>,
    a: AddrView,
    s: SchedState,
)
    requires
        unique_addrs(states),
    ensures
        unique_addrs(set_state(states, a, s)),
        contains_addr(states, a) ==> contains_addr(set_state(states, a, s), a) && state_of(
            set_state(states, a, s),
            a,
        ) == s,
        forall|b: AddrView|
            b != a ==> (contains_addr(set_state(states, a, s), b) <==> contains_addr(states, b)),
        forall|b: AddrView|
            b != a && contains_addr(states, b) ==> state_of(set_state(states, a, s), b)
                == state_of(states, b),
{
    let states2 = set_state(states, a, s);
    assert(states2.len() == states.len());
    assert forall|i: int| 0 <= i < states.len() implies states2[i].0 == states[i].0 by {}
    if contains_addr(states, a) {
        let i = state_index(states, a);
        assert(0 <= i < states.len() && states[i].0 == a);
        assert(states2[i] == (a, s));
        lemma_state_at(states2, a, i);
    }
    assert forall|b: AddrView| b != a && contains_addr(states, b) implies state_of(
        states2,
        b,
    ) == state_of(states, b) by {
        let i = state_index(states, b);
        assert(0 <= i < states.len() && states[i].0 == b);
        assert(states2[i] == states[i]);
        lemma_state_at(states2, b, i);
        lemma_state_at(states, b, i);
    }
    assert forall|b: AddrView| b != a && contains_addr(states2, b) implies contains_addr(
        states,
        b,
    ) by {
        let i = state_index(states2, b);
        assert(states2[i].0 == states[i].0);
    }
}

/// Mutual exclusion, the claim side: a claim succeeds only on a runnable
/// actor, and from that instant the actor is running and no further
/// claim of it can succeed until it is released — so at most one
/// activation of a given actor executes at any instant. Actors other
/// than the claimed one are untouched.
pub proof fn lemma_claim_exclusive(m: SchedModel, a: AddrView)
    requires
        unique_addrs(m.states),
        claim_enabled(m, a),
    ensures
        state_of(m.states, a) is Runnable,
        state_of(claim_tr(m, a).states, a) is Running,
        !claim_enabled(claim_tr(m, a), a),
        claim_tr(claim_tr(m, a), a) == claim_tr(m, a),
        forall|b: AddrView|
            b != a && contains_addr(m.states, b) ==> state_of(claim_tr(m, a).states, b)
                == state_of(m.states, b),
{
    lemma_set_state_unique(m.states, a, SchedState::Running);
}

/// Mutual exclusion, the running side: while an actor is running, no
/// claim of it succeeds and a claim attempt changes nothing, however
/// many wake requests or tokens arrived meanwhile.
pub proof fn lemma_mutual_exclusion(m: SchedModel, a: AddrView)
    requires
        contains_addr(m.states, a),
        state_of(m.states, a) is Running,
    ensures
        !claim_enabled(m, a),
        claim_tr(m, a) == m,
        !wake_enabled(m, a),
        wake_tr(m, a) == m,
{
}

/// Wake idempotence: any number of wake requests against one actor
/// collapse to the effect of the first. With the single-token law below
/// this gives: N concurrent wakes of an asleep actor produce exactly one
/// transition to runnable and exactly one published token.
pub proof fn lemma_wake_idempotent(m: SchedModel, a: AddrView)
    requires
        unique_addrs(m.states),
    ensures
        wake_tr(wake_tr(m, a), a) == wake_tr(m, a),
{
    if wake_enabled(m, a) {
        lemma_set_state_unique(m.states, a, SchedState::Runnable);
    }
}

/// Waking an asleep actor publishes exactly one token and allows exactly
/// one subsequent successful claim: after that claim the actor is
/// running and further claims fail until it is released.
pub proof fn lemma_wake_single_token(m: SchedModel, a: AddrView)
    requires
        unique_addrs(m.states),
        wake_enabled(m, a),
    ensures
        wake_tr(m, a).pending == m.pending.push(a),
        state_of(wake_tr(m, a).states, a) is Runnable,
        wake_tr(wake_tr(m, a), a) == wake_tr(m, a),
        claim_enabled(wake_tr(m, a), a),
        !claim_enabled(claim_tr(wake_tr(m, a), a), a),
{
    lemma_set_state_unique(m.states, a, SchedState::Runnable);
    lemma_wake_idempotent(m, a);
    lemma_claim_exclusive(wake_tr(m, a), a);
}

} // verus!
