//! Named worker pools. Each pool is a fixed thread count plus a work
//! queue of wakeup tokens for the actors bound to it. Pools are
//! independent: a token is routed to the queue of the pool named in its
//! address, and a worker of one pool only ever pops from that pool's
//! queue.

use vstd::prelude::*;
use crate::address::AddrView;
use crate::config::ThreadPoolConfig;
use crate::wakeup::{wake_queue_contents, wake_queue_new, wake_queue_push, wake_queue_try_pop,
    WakeQueue, WakeupMessage};

verus! {

/// One named pool: its sizing and its work queue.
struct Pool {
    name: String,
    config: ThreadPoolConfig,
    queue: WakeQueue,
}

/// Owns the named pools.
pub struct ThreadPoolManager {
    pools: Vec<Pool>,
}

impl ThreadPoolManager {
    /// The pool names, in creation order.
    pub closed spec fn pool_names(self) -> Seq<Seq<char>> {
        self.pools@.map(|i: int, p: Pool| p.name@)
    }

    pub open spec fn has_pool(self, name: Seq<char>) -> bool {
        exists|i: int| 0 <= i < self.pool_names().len() && self.pool_names()[i] == name
    }

    pub open spec fn pool_index(self, name: Seq<char>) -> int {
        choose|i: int| 0 <= i < self.pool_names().len() && self.pool_names()[i] == name
    }

    /// The sizing of the named pool (meaningful under [`ThreadPoolManager::wf`]).
    pub closed spec fn pool_config(self, name: Seq<char>) -> ThreadPoolConfig {
        self.pools@[self.pool_index(name)].config
    }

    /// The tokens queued for the named pool, oldest first, as address
    /// values.
    pub closed spec fn pool_tokens(self, name: Seq<char>) -> Seq<AddrView> {
        wake_queue_contents(self.pools@[self.pool_index(name)].queue).map(
            |i: int, w: WakeupMessage| w.actor_address@,
        )
    }

    /// Well-formed: one pool per name.
    pub open spec fn wf(self) -> bool {
        forall|i: int, j: int|
            0 <= i < j < self.pool_names().len() ==> self.pool_names()[i] != self.pool_names()[j]
    }

    pub fn new() -> (r: ThreadPoolManager)
        ensures
            r.wf(),
            r.pool_names().len() == 0,
    {
        ThreadPoolManager { pools: Vec::new() }
    }

    /// Locates the pool of this name.
    fn find(&self, name: &String) -> (r: Option<usize>)
        requires
            self.wf(),
        ensures
            r is Some ==> 0 <= r->Some_0 < self.pool_names().len() && self.pool_names()[r->Some_0
                as int] == name@ && self.pool_index(name@) == r->Some_0,
            r is None ==> !self.has_pool(name@),
    {
        let n = self.pools.len();
        let mut i: usize = 0;
        while i < n
            invariant
                n == self.pools@.len(),
                i <= n,
                self.wf(),
                forall|j: int| 0 <= j < i ==> self.pool_names()[j] != name@,
            decreases n - i,
        {
            if self.pools[i].name == *name {
                proof {
                    assert(self.pool_names()[i as int] =~= name@);
                    let j = self.pool_index(name@);
                    if j != i as int {
                        assert(self.pool_names()[j] != self.pool_names()[i as int]);
                    }
                }
                return Some(i);
            }
            proof {
                if self.pool_names()[i as int] =~= name@ {
                    assert(self.pools@[i as int].name@ =~= name@);
                    assert(false);
                }
            }
            i += 1;
        }
        None
    }

    /// Creates the named pool, or replaces the sizing of an existing one
    /// (its queued tokens are kept: replacing a pool's configuration does
    /// not lose scheduled work).
    pub fn add_pool_with_config(&mut self, name: &String, config: ThreadPoolConfig)
        requires
            old(self).wf(),
        ensures
            final(self).wf(),
            final(self).has_pool(name@),
            final(self).pool_config(name@) == config,
            old(self).has_pool(name@) ==> final(self).pool_names() == old(self).pool_names()
                && final(self).pool_tokens(name@) == old(self).pool_tokens(name@),
            !old(self).has_pool(name@) ==> final(self).pool_names() == old(self).pool_names().push(name@) && final(self).pool_tokens(name@).len() == 0,
            forall|other: Seq<char>|
                other != name@ && old(self).has_pool(other) ==> final(self).has_pool(other)
                    && final(self).pool_config(other) == old(self).pool_config(other) && final(self).pool_tokens(other) == old(self).pool_tokens(other),
    {
        let found = self.find(name);
        match found {
            Some(i) => {
                self.pools[i].config = config;
                proof {
                    assert(final(self).pool_names() =~= old(self).pool_names());
                    lemma_pool_lookup(*old(self), *final(self));
                }
            },
            None => {
                self.pools.push(
                    Pool { name: name.clone(), config, queue: wake_queue_new() },
                );
                proof {
                    assert(final(self).pool_names() =~= old(self).pool_names().push(name@));
                    assert forall|p: int, q: int|
                        0 <= p < q < final(self).pool_names().len() implies final(self).pool_names()[p] != final(self).pool_names()[q] by {
                        if q == final(self).pool_names().len() - 1 {
                            assert(final(self).pool_names()[p] == old(self).pool_names()[p]);
                        }
                    }
                    lemma_pool_lookup_grown(*old(self), *final(self), name@);
                }
            },
        }
    }

    /// Routes a wakeup token to the queue of the pool named in its
    /// address. A token for an unknown pool is dropped and false is
    /// returned: an actor bound to a pool that was never created cannot
    /// be scheduled.
    pub fn route(&mut self, token: WakeupMessage) -> (r: bool)
        requires
            old(self).wf(),
        ensures
            final(self).wf(),
            final(self).pool_names() == old(self).pool_names(),
            r == old(self).has_pool(token.actor_address@.pool),
            r ==> final(self).pool_tokens(token.actor_address@.pool) == old(self).pool_tokens(
                token.actor_address@.pool,
            ).push(token.actor_address@),
            forall|other: Seq<char>|
                other != token.actor_address@.pool && old(self).has_pool(other) ==> final(self).pool_tokens(other) == old(self).pool_tokens(other),
            forall|other: Seq<char>|
                old(self).has_pool(other) ==> final(self).pool_config(other) == old(self).pool_config(other),
            !r ==> *final(self) == *old(self),
    {
        let found = self.find(&token.actor_address.pool);
        match found {
            Some(i) => {
                let ghost taddr = token.actor_address@;
                wake_queue_push(&mut self.pools[i].queue, token);
                proof {
                    assert(final(self).pool_names() =~= old(self).pool_names());
                    lemma_pool_lookup(*old(self), *final(self));
                    assert(final(self).pool_tokens(taddr.pool) =~= old(self).pool_tokens(
                        taddr.pool,
                    ).push(taddr));
                }
                true
            },
            None => false,
        }
    }

    /// Pops the oldest token queued for the named pool; `None` when the
    /// pool is unknown or idle.
    pub fn pop_token(&mut self, pool_name: &String) -> (r: Option<WakeupMessage>)
        requires
            old(self).wf(),
        ensures
            final(self).wf(),
            final(self).pool_names() == old(self).pool_names(),
            forall|other: Seq<char>|
                old(self).has_pool(other) ==> final(self).pool_config(other) == old(self).pool_config(other),
            forall|other: Seq<char>|
                other != pool_name@ && old(self).has_pool(other) ==> final(self).pool_tokens(other)
                    == old(self).pool_tokens(other),
            !old(self).has_pool(pool_name@) ==> r is None && *final(self) == *old(self),
            old(self).has_pool(pool_name@) && old(self).pool_tokens(pool_name@).len() == 0 ==> r
                is None && final(self).pool_tokens(pool_name@) == old(self).pool_tokens(pool_name@),
            old(self).has_pool(pool_name@) && old(self).pool_tokens(pool_name@).len() > 0 ==> r
                is Some && r->Some_0.actor_address@ == old(self).pool_tokens(pool_name@)[0]
                && final(self).pool_tokens(pool_name@) == old(self).pool_tokens(pool_name@).skip(1),
    {
        let found = self.find(pool_name);
        match found {
            Some(i) => {
                let r = wake_queue_try_pop(&mut self.pools[i].queue);
                proof {
                    assert(final(self).pool_names() =~= old(self).pool_names());
                    lemma_pool_lookup(*old(self), *final(self));
                    if wake_queue_contents(old(self).pools@[i as int].queue).len() > 0 {
                        assert(final(self).pool_tokens(pool_name@) =~= old(self).pool_tokens(
                            pool_name@,
                        ).skip(1));
                    }
                }
                r
            },
            None => None,
        }
    }
}

/// When two managers hold the same pool names, every name looks up to
/// the same index in both.
proof fn lemma_pool_lookup(m1: ThreadPoolManager, m2: ThreadPoolManager)
    requires
        m1.wf(),
        m2.pool_names() == m1.pool_names(),
    ensures
        m2.wf(),
        forall|name: Seq<char>| m1.has_pool(name) <==> m2.has_pool(name),
        forall|name: Seq<char>|
            m1.has_pool(name) ==> m1.pool_index(name) == m2.pool_index(name),
{
    assert forall|name: Seq<char>| m1.has_pool(name) implies m2.has_pool(name) by {
        let j = m1.pool_index(name);
        assert(m2.pool_names()[j] == name);
    }
    assert forall|name: Seq<char>| m2.has_pool(name) implies m1.has_pool(name) by {
        let j = m2.pool_index(name);
        assert(m1.pool_names()[j] == name);
    }
    assert forall|name: Seq<char>| m1.has_pool(name) implies m1.pool_index(name) == m2.pool_index(
        name,
    ) by {
        let j1 = m1.pool_index(name);
        let j2 = m2.pool_index(name);
        assert(m1.pool_names()[j1] == name && m1.pool_names()[j2] == name);
        if j1 != j2 {
            if j1 < j2 {
                assert(m1.pool_names()[j1] != m1.pool_names()[j2]);
            } else {
                assert(m1.pool_names()[j2] != m1.pool_names()[j1]);
            }
        }
    }
}

/// After a fresh pool was appended, every old name looks up as before and
/// the new name looks up to the appended entry.
proof fn lemma_pool_lookup_grown(m1: ThreadPoolManager, m2: ThreadPoolManager, name: Seq<char>)
    requires
        m1.wf(),
        m2.wf(),
        !m1.has_pool(name),
        m2.pool_names() == m1.pool_names().push(name),
    ensures
        m2.has_pool(name),
        m2.pool_index(name) == m1.pool_names().len(),
        forall|other: Seq<char>| m1.has_pool(other) ==> m2.has_pool(other),
        forall|other: Seq<char>|
            m1.has_pool(other) ==> m2.pool_index(other) == m1.pool_index(other),
{
    assert(m2.pool_names()[m1.pool_names().len() as int] == name);
    let j = m2.pool_index(name);
    if j != m1.pool_names().len() {
        assert(m2.pool_names()[j] == m1.pool_names()[j]);
        assert(m1.has_pool(name));
    }
    assert forall|other: Seq<char>| m1.has_pool(other) implies m2.has_pool(other)
        && m2.pool_index(other) == m1.pool_index(other) by {
        let j1 = m1.pool_index(other);
        assert(m2.pool_names()[j1] == other);
        let j2 = m2.pool_index(other);
        if j2 != j1 {
            if j2 == m1.pool_names().len() {
                assert(m2.pool_names()[j2] == name);
                assert(m1.pool_names()[j1] == name);
            } else {
                assert(m2.pool_names()[j2] == m1.pool_names()[j2]);
                if j1 < j2 {
                    assert(m1.pool_names()[j1] != m1.pool_names()[j2]);
                } else {
                    assert(m1.pool_names()[j2] != m1.pool_names()[j1]);
                }
            }
        }
    }
}

} // verus!
