//! Resolved configuration values the runtime consumes: global defaults,
//! per-pool thread counts, and the per-actor settings fixed at spawn time.
//!
//! Loading and layering configuration (files, environment) is an external
//! concern; the runtime only reads the resolved values held here.

use vstd::prelude::*;

verus! {

/// Decision function applied when a message handler fails: construct a
/// fresh instance and keep draining, or stop the actor.
#[derive(Clone, Copy, PartialEq, Eq, Structural, Debug)]
pub enum RestartPolicy {
    /// Replace the failed instance with a fresh one and resume with the
    /// next queued message.
    Always,
    /// Stop the actor: its mailbox is closed and it is deregistered.
    Never,
}

/// System-wide defaults applied to actors that do not override them.
pub struct GlobalConfig {
    pub name: String,
    pub default_mailbox_size: usize,
    pub default_message_throughput: usize,
    pub default_restart_policy: RestartPolicy,
}

/// Size of one named worker pool.
#[derive(Clone, Copy, PartialEq, Eq, Structural, Debug)]
pub struct ThreadPoolConfig {
    pub thread_count: usize,
}

/// The resolved pool table: pool name to pool sizing, with one reserved
/// `"default"` entry used when no matching pool configuration exists.
pub struct PoolsConfig {
    pub config: Vec<(String, ThreadPoolConfig)>,
}

/// The name of the reserved default pool.
pub open spec fn default_pool_name() -> Seq<char> {
    "default"@
}

/// Executable counterpart of [`default_pool_name`].
pub fn default_pool() -> (r: String)
    ensures
        r@ == default_pool_name(),
{
    "default".to_owned()
}

impl PoolsConfig {
    /// Some pool in the table carries this name.
    pub open spec fn has_pool(self, name: Seq<char>) -> bool {
        exists|i: int| 0 <= i < self.config@.len() && self.config@[i].0@ == name
    }

    /// The configuration of the named pool (meaningful under [`PoolsConfig::wf`]).
    pub open spec fn pool_cfg(self, name: Seq<char>) -> ThreadPoolConfig {
        let i = choose|i: int| 0 <= i < self.config@.len() && self.config@[i].0@ == name;
        self.config@[i].1
    }

    /// Well-formed pool table: names are unique, every pool has at least
    /// one thread (a zero-thread pool is invalid and is rejected at
    /// configuration resolution), and the reserved default pool exists.
    pub open spec fn wf(self) -> bool {
        &&& forall|i: int, j: int|
            0 <= i < j < self.config@.len() ==> self.config@[i].0@ != self.config@[j].0@
        &&& forall|i: int| 0 <= i < self.config@.len() ==> self.config@[i].1.thread_count >= 1
        &&& self.has_pool(default_pool_name())
    }

    /// Looks the named pool up in the table.
    pub fn get(&self, name: &String) -> (r: Option<ThreadPoolConfig>)
        requires
            self.wf(),
        ensures
            r is Some <==> self.has_pool(name@),
            r is Some ==> r->Some_0 == self.pool_cfg(name@),
    {
        let n = self.config.len();
        let mut i: usize = 0;
        while i < n
            invariant
                n == self.config@.len(),
                i <= n,
                self.wf(),
                forall|j: int| 0 <= j < i ==> self.config@[j].0@ != name@,
            decreases n - i,
        {
            if self.config[i].0 == *name {
                return Some(self.config[i].1);
            }
            i += 1;
        }
        None
    }
}

/// The full resolved configuration an [`crate::actor_system::ActorSystem`]
/// is created from.
pub struct TyractorsaurConfig {
    pub global: GlobalConfig,
    pub thread_pool: PoolsConfig,
}

impl TyractorsaurConfig {
    /// Well-formed resolved configuration: a valid pool table and a
    /// positive default throughput (an activation must be allowed to
    /// process at least one message).
    pub open spec fn wf(self) -> bool {
        &&& self.thread_pool.wf()
        &&& self.global.default_message_throughput >= 1
    }
}

/// The settings of one actor, resolved at spawn time and immutable
/// thereafter. A `mailbox_size` of zero selects an unbounded mailbox.
pub struct ActorConfig {
    pub actor_name: String,
    pub pool_name: String,
    pub mailbox_size: usize,
    pub message_throughput: usize,
    pub restart_policy: RestartPolicy,
}

impl ActorConfig {
    /// An activation must be allowed to process at least one message,
    /// else a runnable actor could never drain.
    pub open spec fn wf(self) -> bool {
        self.message_throughput >= 1
    }
}

impl Clone for ActorConfig {
    fn clone(&self) -> (r: ActorConfig)
        ensures
            r == *self,
    {
        ActorConfig {
            actor_name: self.actor_name.clone(),
            pool_name: self.pool_name.clone(),
            mailbox_size: self.mailbox_size,
            message_throughput: self.message_throughput,
            restart_policy: self.restart_policy,
        }
    }
}

} // verus!
