//! Process-wide system state: the registry of live actors keyed by
//! address (each owning its mailbox), the live actor count, and the
//! monotonic stop flags that sequence system-wide shutdown.

use vstd::prelude::*;
use crate::address::{ActorAddress, AddrView};
use crate::mailbox::Mailbox;
use crate::messages::{ActorError, SerializedMessage};

verus! {

/// One registered actor: its address and its mailbox.
pub struct ActorEntry {
    pub address: ActorAddress,
    pub mailbox: Mailbox,
}

/// What became of a message handed to the registry for delivery.
#[derive(Clone, Copy, PartialEq, Eq, Structural, Debug)]
pub enum DeliveryStatus {
    /// No actor is registered under the address: the message is dropped
    /// (delivery is in-process, at-most-once and non-durable).
    NoSuchActor,
    /// Enqueued. `was_sleeping` tells the caller whether the actor was
    /// idle and must now be woken.
    Delivered { was_sleeping: bool },
    /// Refused by the mailbox: `MailboxClosed` after the actor stopped,
    /// `MailboxFull` on a bounded mailbox at capacity.
    Rejected { error: ActorError },
}

/// The process-wide registry and shutdown flags. Flag transitions are
/// monotonic: `Running` to `Stopping` (stop requested) to `Stopped`,
/// gracefully or forced.
pub struct SystemState {
    entries: Vec<ActorEntry>,
    is_stopping: bool,
    is_stopped: bool,
    is_force_stopped: bool,
}

impl SystemState {
    /// The registered actors: address value and mailbox, in registration
    /// order.
    pub closed spec fn actors(self) -> Seq<(AddrView, Mailbox)> {
        self.entries@.map(|i: int, e: ActorEntry| (e.address@, e.mailbox))
    }

    pub open spec fn contains_actor(self, a: AddrView) -> bool {
        exists|i: int| 0 <= i < self.actors().len() && self.actors()[i].0 == a
    }

    pub open spec fn actor_index(self, a: AddrView) -> int {
        choose|i: int| 0 <= i < self.actors().len() && self.actors()[i].0 == a
    }

    /// The mailbox registered under an address (meaningful under
    /// [`SystemState::wf`]).
    pub open spec fn mailbox_of(self, a: AddrView) -> Mailbox {
        self.actors()[self.actor_index(a)].1
    }

    pub closed spec fn stopping(self) -> bool {
        self.is_stopping
    }

    pub closed spec fn stopped(self) -> bool {
        self.is_stopped
    }

    pub closed spec fn force_stopped(self) -> bool {
        self.is_force_stopped
    }

    /// Well-formed registry: one entry per address.
    pub open spec fn wf(self) -> bool {
        forall|i: int, j: int|
            0 <= i < j < self.actors().len() ==> self.actors()[i].0 != self.actors()[j].0
    }

    pub fn new() -> (r: SystemState)
        ensures
            r.wf(),
            r.actors().len() == 0,
            !r.stopping(),
            !r.stopped(),
            !r.force_stopped(),
    {
        SystemState {
            entries: Vec::new(),
            is_stopping: false,
            is_stopped: false,
            is_force_stopped: false,
        }
    }

    /// The live actor count.
    pub fn get_actor_count(&self) -> (r: usize)
        ensures
            r == self.actors().len(),
    {
        self.entries.len()
    }

    /// Locates the entry of this address.
    fn find(&self, address: &ActorAddress) -> (r: Option<usize>)
        requires
            self.wf(),
        ensures
            r is Some ==> 0 <= r->Some_0 < self.actors().len() && self.actors()[r->Some_0
                as int].0 == address@ && self.actor_index(address@) == r->Some_0,
            r is None ==> !self.contains_actor(address@),
    {
        let n = self.entries.len();
        let mut i: usize = 0;
        while i < n
            invariant
                n == self.entries@.len(),
                i <= n,
                self.wf(),
                forall|j: int| 0 <= j < i ==> self.actors()[j].0 != address@,
            decreases n - i,
        {
            if self.entries[i].address == *address {
                proof {
                    assert(self.actors()[i as int].0 =~= address@);
                    let j = self.actor_index(address@);
                    if j != i as int {
                        assert(self.actors()[j].0 != self.actors()[i as int].0);
                    }
                }
                return Some(i);
            }
            proof {
                if self.actors()[i as int].0 =~= address@ {
                    assert(self.entries@[i as int].address@ =~= address@);
                    assert(false);
                }
            }
            i += 1;
        }
        None
    }

    /// Registers a spawned actor with its fresh mailbox. Fails, changing
    /// nothing, if and only if the address is already registered.
    pub fn add_actor(&mut self, address: ActorAddress, mailbox: Mailbox) -> (r: Result<
        (),
        ActorError,
    >)
        requires
            old(self).wf(),
        ensures
            final(self).wf(),
            final(self).stopping() == old(self).stopping(),
            final(self).stopped() == old(self).stopped(),
            final(self).force_stopped() == old(self).force_stopped(),
            old(self).contains_actor(address@) ==> r == Err::<(), ActorError>(
                ActorError::DuplicateActor,
            ) && *final(self) == *old(self),
            !old(self).contains_actor(address@) ==> r == Ok::<(), ActorError>(()) && final(self).actors() == old(self).actors().push((address@, mailbox)),
    {
        match self.find(&address) {
            Some(_) => Err(ActorError::DuplicateActor),
            None => {
                let ghost a = address@;
                let ghost m = mailbox;
                self.entries.push(ActorEntry { address, mailbox });
                proof {
                    assert(final(self).actors() =~= old(self).actors().push((a, m)));
                    assert forall|i: int, j: int|
                        0 <= i < j < final(self).actors().len() implies final(self).actors()[i].0
                        != final(self).actors()[j].0 by {
                        if j == final(self).actors().len() - 1 {
                            assert(final(self).actors()[i].0 == old(self).actors()[i].0);
                        }
                    }
                }
                Ok(())
            },
        }
    }

    /// Takes the entry of an address out of the registry, for exclusive
    /// use during one activation or a stop; the caller re-registers it
    /// with [`SystemState::put_entry`] unless the actor ended.
    pub fn take_entry(&mut self, address: &ActorAddress) -> (r: Option<ActorEntry>)
        requires
            old(self).wf(),
        ensures
            final(self).wf(),
            final(self).stopping() == old(self).stopping(),
            final(self).stopped() == old(self).stopped(),
            final(self).force_stopped() == old(self).force_stopped(),
            r is None ==> !old(self).contains_actor(address@) && *final(self) == *old(self),
            r is Some ==> {
                &&& old(self).contains_actor(address@)
                &&& r->Some_0.address@ == address@
                &&& r->Some_0.mailbox == old(self).mailbox_of(address@)
                &&& final(self).actors() == old(self).actors().remove(
                    old(self).actor_index(address@),
                )
                &&& !final(self).contains_actor(address@)
            },
    {
        let found = self.find(address);
        match found {
            Some(i) => {
                let entry = self.entries.remove(i);
                proof {
                    assert(final(self).actors() =~= old(self).actors().remove(i as int));
                    assert forall|p: int, q: int|
                        0 <= p < q < final(self).actors().len() implies final(self).actors()[p].0
                        != final(self).actors()[q].0 by {
                        let sp = if p < i as int { p } else { p + 1 };
                        let sq = if q < i as int { q } else { q + 1 };
                        assert(final(self).actors()[p] == old(self).actors()[sp]);
                        assert(final(self).actors()[q] == old(self).actors()[sq]);
                    }
                    assert forall|k: int|
                        0 <= k < final(self).actors().len() implies final(self).actors()[k].0
                        != address@ by {
                        let sk = if k < i as int { k } else { k + 1 };
                        assert(final(self).actors()[k] == old(self).actors()[sk]);
                        if sk != i as int {
                            assert(old(self).actors()[sk].0 != address@);
                        }
                    }
                }
                Some(entry)
            },
            None => None,
        }
    }

    /// Re-registers an entry taken with [`SystemState::take_entry`].
    pub fn put_entry(&mut self, entry: ActorEntry)
        requires
            old(self).wf(),
            !old(self).contains_actor(entry.address@),
        ensures
            final(self).wf(),
            final(self).stopping() == old(self).stopping(),
            final(self).stopped() == old(self).stopped(),
            final(self).force_stopped() == old(self).force_stopped(),
            final(self).actors() == old(self).actors().push((entry.address@, entry.mailbox)),
    {
        let ghost a = entry.address@;
        let ghost m = entry.mailbox;
        self.entries.push(entry);
        proof {
            assert(final(self).actors() =~= old(self).actors().push((a, m)));
            assert forall|i: int, j: int|
                0 <= i < j < final(self).actors().len() implies final(self).actors()[i].0 != final(self).actors()[j].0 by {
                if j == final(self).actors().len() - 1 {
                    assert(final(self).actors()[i].0 == old(self).actors()[i].0);
                }
            }
        }
    }

    /// Delivers one message to the mailbox registered under an address,
    /// without blocking, and reports exactly what happened.
    pub fn deliver(&mut self, address: &ActorAddress, msg: SerializedMessage) -> (r:
        DeliveryStatus)
        requires
            old(self).wf(),
        ensures
            final(self).wf(),
            final(self).stopping() == old(self).stopping(),
            final(self).stopped() == old(self).stopped(),
            final(self).force_stopped() == old(self).force_stopped(),
            final(self).actors().len() == old(self).actors().len(),
            forall|b: AddrView|
                final(self).contains_actor(b) <==> old(self).contains_actor(b),
            forall|b: AddrView|
                b != address@ && old(self).contains_actor(b) ==> final(self).mailbox_of(b) == old(self).mailbox_of(b),
            !old(self).contains_actor(address@) ==> r == DeliveryStatus::NoSuchActor && *final(self) == *old(self),
            old(self).contains_actor(address@) ==> ({
                let mb = old(self).mailbox_of(address@);
                let mb2 = final(self).mailbox_of(address@);
                &&& mb2.capacity() == mb.capacity()
                &&& mb2.stopped() == mb.stopped()
                &&& mb2.sleeping() == mb.sleeping()
                &&& mb.stopped() ==> r == (DeliveryStatus::Rejected {
                    error: ActorError::MailboxClosed,
                }) && mb2.contents() == mb.contents()
                &&& (!mb.stopped() && (mb.capacity() == 0 || mb.contents().len() < mb.capacity()))
                    ==> r == (DeliveryStatus::Delivered { was_sleeping: mb.sleeping() })
                    && mb2.contents() == mb.contents().push(msg)
                &&& (!mb.stopped() && !(mb.capacity() == 0 || mb.contents().len() < mb.capacity()))
                    ==> r == (DeliveryStatus::Rejected { error: ActorError::MailboxFull })
                    && mb2.contents() == mb.contents()
            }),
    {
        let found = self.find(address);
        match found {
            Some(i) => {
                let was_sleeping = self.entries[i].mailbox.is_asleep();
                let outcome = self.entries[i].mailbox.send(msg);
                proof {
                    assert(final(self).actors().len() == old(self).actors().len());
                    assert forall|k: int|
                        0 <= k < final(self).actors().len() implies final(self).actors()[k].0
                        == old(self).actors()[k].0 by {}
                    lemma_registry_lookup(*old(self), *final(self));
                    assert(final(self).mailbox_of(address@) == final(self).actors()[i as int].1);
                }
                match outcome {
                    Ok(()) => DeliveryStatus::Delivered { was_sleeping },
                    Err(e) => DeliveryStatus::Rejected { error: e },
                }
            },
            None => DeliveryStatus::NoSuchActor,
        }
    }

    /// Requests system stop: idempotent, a second call while already
    /// stopping changes nothing.
    pub fn stop(&mut self)
        ensures
            old(self).wf() ==> final(self).wf(),
            final(self).stopping(),
            final(self).stopped() == old(self).stopped(),
            final(self).force_stopped() == old(self).force_stopped(),
            final(self).actors() == old(self).actors(),
            old(self).stopping() ==> *final(self) == *old(self),
    {
        if !self.is_stopping {
            self.is_stopping = true;
        }
        proof {
            lemma_wf_from_same_actors(*old(self), *final(self));
        }
    }

    /// Records the shutdown outcome: the system is stopped, gracefully or
    /// forced. Irreversible.
    pub fn finalize_stop(&mut self, forced: bool)
        ensures
            old(self).wf() ==> final(self).wf(),
            final(self).stopping(),
            final(self).stopped(),
            final(self).force_stopped() == forced,
            final(self).actors() == old(self).actors(),
    {
        self.is_stopping = true;
        self.is_stopped = true;
        self.is_force_stopped = forced;
        proof {
            lemma_wf_from_same_actors(*old(self), *final(self));
        }
    }

    pub fn is_stopping(&self) -> (r: bool)
        ensures
            r == self.stopping(),
    {
        self.is_stopping
    }

    pub fn is_stopped(&self) -> (r: bool)
        ensures
            r == self.stopped(),
    {
        self.is_stopped
    }

    pub fn is_force_stopped(&self) -> (r: bool)
        ensures
            r == self.force_stopped(),
    {
        self.is_force_stopped
    }
}

/// Under unique addresses, the entry at a witness index is the entry
/// [`SystemState::mailbox_of`] speaks about.
pub proof fn lemma_actor_at(s: SystemState, a: AddrView, i: int)
    requires
        s.wf(),
        0 <= i < s.actors().len(),
        s.actors()[i].0 == a,
    ensures
        s.contains_actor(a),
        s.actor_index(a) == i,
        s.mailbox_of(a) == s.actors()[i].1,
{
    assert(s.contains_actor(a));
    let j = s.actor_index(a);
    assert(0 <= j < s.actors().len() && s.actors()[j].0 == a);
    if i != j {
        if i < j {
            assert(s.actors()[i].0 != s.actors()[j].0);
        } else {
            assert(s.actors()[j].0 != s.actors()[i].0);
        }
        assert(false);
    }
}

/// Removing one actor's entry leaves every other address's registration
/// and mailbox as they were.
pub proof fn lemma_remove_other_actors(s1: SystemState, s2: SystemState, i: int)
    requires
        s1.wf(),
        0 <= i < s1.actors().len(),
        s2.actors() == s1.actors().remove(i),
    ensures
        forall|b: AddrView|
            b != s1.actors()[i].0 ==> (s2.contains_actor(b) <==> s1.contains_actor(b)),
        forall|b: AddrView|
            b != s1.actors()[i].0 && s1.contains_actor(b) ==> s2.mailbox_of(b) == s1.mailbox_of(b),
{
    let a = s1.actors()[i].0;
    assert forall|b: AddrView| b != a && s1.contains_actor(b) implies s2.contains_actor(b)
        && s2.mailbox_of(b) == s1.mailbox_of(b) by {
        let j = s1.actor_index(b);
        let j2 = if j < i {
            j
        } else {
            j - 1
        };
        assert(s2.actors()[j2] == s1.actors()[j]);
        assert(s2.contains_actor(b));
        let k = s2.actor_index(b);
        let sk = if k < i {
            k
        } else {
            k + 1
        };
        assert(s2.actors()[k] == s1.actors()[sk]);
        assert(s1.actors()[sk].0 == b);
        if sk != j {
            if sk < j {
                assert(s1.actors()[sk].0 != s1.actors()[j].0);
            } else {
                assert(s1.actors()[j].0 != s1.actors()[sk].0);
            }
        }
    }
    assert forall|b: AddrView| b != a && s2.contains_actor(b) implies s1.contains_actor(b) by {
        let k = s2.actor_index(b);
        let sk = if k < i {
            k
        } else {
            k + 1
        };
        assert(s2.actors()[k] == s1.actors()[sk]);
    }
}

/// Re-registering a fresh address leaves every other address's
/// registration and mailbox as they were.
pub proof fn lemma_push_other_actors(s1: SystemState, s2: SystemState, a: AddrView, m: Mailbox)
    requires
        s1.wf(),
        s2.wf(),
        !s1.contains_actor(a),
        s2.actors() == s1.actors().push((a, m)),
    ensures
        forall|b: AddrView| b != a ==> (s2.contains_actor(b) <==> s1.contains_actor(b)),
        forall|b: AddrView|
            b != a && s1.contains_actor(b) ==> s2.mailbox_of(b) == s1.mailbox_of(b),
{
    assert forall|b: AddrView| b != a && s1.contains_actor(b) implies s2.contains_actor(b)
        && s2.mailbox_of(b) == s1.mailbox_of(b) by {
        let j = s1.actor_index(b);
        assert(s2.actors()[j] == s1.actors()[j]);
        lemma_actor_at(s2, b, j);
        lemma_actor_at(s1, b, j);
    }
    assert forall|b: AddrView| b != a && s2.contains_actor(b) implies s1.contains_actor(b) by {
        let k = s2.actor_index(b);
        assert(k != s2.actors().len() - 1);
        assert(s2.actors()[k] == s1.actors()[k]);
    }
}

/// Well-formedness carries over to a registry with the same actors.
proof fn lemma_wf_from_same_actors(s1: SystemState, s2: SystemState)
    requires
        s1.actors() == s2.actors(),
    ensures
        s1.wf() ==> s2.wf(),
{
    if s1.wf() {
        assert forall|i: int, j: int|
            0 <= i < j < s2.actors().len() implies s2.actors()[i].0 != s2.actors()[j].0 by {
            assert(s1.actors()[i].0 != s1.actors()[j].0);
        }
    }
}

/// When two registries hold entries with pointwise-equal addresses, every
/// address looks up to the same index in both.
proof fn lemma_registry_lookup(s1: SystemState, s2: SystemState)
    requires
        s1.wf(),
        s1.actors().len() == s2.actors().len(),
        forall|k: int| 0 <= k < s1.actors().len() ==> s1.actors()[k].0 == s2.actors()[k].0,
    ensures
        s2.wf(),
        forall|a: AddrView| s1.contains_actor(a) <==> s2.contains_actor(a),
        forall|a: AddrView|
            s1.contains_actor(a) ==> s1.actor_index(a) == s2.actor_index(a),
{
    assert forall|a: AddrView| s1.contains_actor(a) implies s2.contains_actor(a) by {
        let j = s1.actor_index(a);
        assert(s2.actors()[j].0 == a);
    }
    assert forall|a: AddrView| s2.contains_actor(a) implies s1.contains_actor(a) by {
        let j = s2.actor_index(a);
        assert(s1.actors()[j].0 == a);
    }
    assert forall|a: AddrView| s1.contains_actor(a) implies s1.actor_index(a) == s2.actor_index(
        a,
    ) by {
        let j1 = s1.actor_index(a);
        let j2 = s2.actor_index(a);
        assert(s1.actors()[j1].0 == a && s1.actors()[j2].0 == a);
        if j1 != j2 {
            if j1 < j2 {
                assert(s1.actors()[j1].0 != s1.actors()[j2].0);
            } else {
                assert(s1.actors()[j2].0 != s1.actors()[j1].0);
            }
        }
    }
}

} // verus!
