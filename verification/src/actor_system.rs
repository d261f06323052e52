//! The public entry points: spawn, send, scheduling steps, actor stop and
//! system-wide shutdown sequencing, composed from the registry, the
//! wakeup manager and the pool manager.
//!
//! The blocking loops of a running system (worker threads claiming
//! actors, the wakeup routing loop, the timed shutdown wait) live with
//! the embedding program: each iteration of those loops is one call into
//! a step function here, and every decision a step takes is verified.

use vstd::prelude::*;
use crate::actor::{Actor, ActorContext, ActorFactory};
use crate::address::{ActorAddress, AddrView};
use crate::config::{default_pool, ActorConfig, ThreadPoolConfig, TyractorsaurConfig};
use crate::executor::{ActivationResult, Executor, ExecutorState};
use crate::mailbox::Mailbox;
use crate::messages::{ActorError, SerializedMessage};
use crate::system_state::{ActorEntry, DeliveryStatus, SystemState};
use crate::thread_pool::ThreadPoolManager;
use crate::wakeup::{claim_enabled, claim_tr, contains_addr, finish_tr, state_of, wake_tr,
    SchedState, WakeupManager, WakeupMessage};

verus! {

/// What the shutdown wait does at one poll: keep waiting for actors to
/// drain, finish gracefully, or give up and force the stop.
#[derive(Clone, Copy, PartialEq, Eq, Structural, Debug)]
pub enum ShutdownDecision {
    /// Actors remain and the deadline has not elapsed.
    KeepWaiting,
    /// The live actor count reached zero in time.
    Graceful,
    /// The deadline elapsed with actors remaining: proceed regardless,
    /// abandoning their pending mailboxes.
    Forced,
}

/// The shutdown-wait decision function: graceful exactly when the count
/// drained to zero; forced exactly when actors remain at or after the
/// deadline, never before it.
pub open spec fn shutdown_decision_spec(
    actor_count: usize,
    elapsed_ms: u64,
    timeout_ms: u64,
) -> ShutdownDecision {
    if actor_count == 0 {
        ShutdownDecision::Graceful
    } else if elapsed_ms >= timeout_ms {
        ShutdownDecision::Forced
    } else {
        ShutdownDecision::KeepWaiting
    }
}

/// Executable counterpart of [`shutdown_decision_spec`].
pub fn shutdown_decision(actor_count: usize, elapsed_ms: u64, timeout_ms: u64) -> (r:
    ShutdownDecision)
    ensures
        r == shutdown_decision_spec(actor_count, elapsed_ms, timeout_ms),
{
    if actor_count == 0 {
        ShutdownDecision::Graceful
    } else if elapsed_ms >= timeout_ms {
        ShutdownDecision::Forced
    } else {
        ShutdownDecision::KeepWaiting
    }
}

/// Graceful shutdown: whenever the actors drained naturally before a
/// poll, that poll ends the wait gracefully, whatever the clock says.
pub proof fn lemma_graceful_shutdown(actor_count: usize, elapsed_ms: u64, timeout_ms: u64)
    requires
        actor_count == 0,
    ensures
        shutdown_decision_spec(actor_count, elapsed_ms, timeout_ms) is Graceful,
{
}

/// Forced shutdown: while actors remain, the wait is forced exactly at
/// or after the deadline and never before it.
pub proof fn lemma_forced_shutdown(actor_count: usize, elapsed_ms: u64, timeout_ms: u64)
    requires
        actor_count > 0,
    ensures
        shutdown_decision_spec(actor_count, elapsed_ms, timeout_ms) is Forced <==> elapsed_ms
            >= timeout_ms,
        shutdown_decision_spec(actor_count, elapsed_ms, timeout_ms) is KeepWaiting <==> elapsed_ms
            < timeout_ms,
{
}

/// The address an actor is registered under when spawned with this
/// configuration into a system of this name.
pub open spec fn spawned_address(system: Seq<char>, cfg: ActorConfig) -> AddrView {
    AddrView {
        actor: cfg.actor_name@,
        system: system,
        pool: cfg.pool_name@,
        remote: "local"@,
    }
}

/// Resolves per-actor settings before a spawn, starting from the global
/// defaults.
pub struct ActorBuilder {
    pub actor_config: ActorConfig,
}

impl ActorBuilder {
    /// Overrides the mailbox capacity (zero selects an unbounded
    /// mailbox).
    pub fn set_mailbox_size(&mut self, mailbox_size: usize)
        ensures
            final(self).actor_config == (ActorConfig { mailbox_size, ..old(self).actor_config }),
    {
        self.actor_config.mailbox_size = mailbox_size;
    }

    /// Overrides how many messages one activation may process before the
    /// actor yields.
    pub fn set_message_throughput(&mut self, message_throughput: usize)
        requires
            message_throughput >= 1,
        ensures
            final(self).actor_config == (ActorConfig {
                message_throughput,
                ..old(self).actor_config
            }),
    {
        self.actor_config.message_throughput = message_throughput;
    }

    /// Overrides the restart policy.
    pub fn set_restart_policy(&mut self, restart_policy: crate::config::RestartPolicy)
        ensures
            final(self).actor_config == (ActorConfig { restart_policy, ..old(self).actor_config }),
    {
        self.actor_config.restart_policy = restart_policy;
    }

    /// Overrides the pool the actor is bound to.
    pub fn set_pool_name(&mut self, pool_name: String)
        ensures
            final(self).actor_config == (ActorConfig { pool_name, ..old(self).actor_config }),
    {
        self.actor_config.pool_name = pool_name;
    }

    /// The resolved configuration, for [`ActorSystem::spawn`].
    pub fn config(self) -> (r: ActorConfig)
        ensures
            r == self.actor_config,
    {
        self.actor_config
    }
}

/// The actor system: registry, scheduler and pools under one name.
pub struct ActorSystem {
    state: SystemState,
    thread_pool_manager: ThreadPoolManager,
    wakeup_manager: WakeupManager,
    name: String,
    config: TyractorsaurConfig,
}

impl ActorSystem {
    pub closed spec fn state_spec(self) -> SystemState {
        self.state
    }

    pub closed spec fn pools_spec(self) -> ThreadPoolManager {
        self.thread_pool_manager
    }

    pub closed spec fn wakeup_spec(self) -> WakeupManager {
        self.wakeup_manager
    }

    pub closed spec fn name_spec(self) -> Seq<char> {
        self.name@
    }

    pub closed spec fn config_spec(self) -> TyractorsaurConfig {
        self.config
    }

    /// Well-formed system: every registry well-formed and the resolved
    /// configuration valid.
    pub open spec fn wf(self) -> bool {
        &&& self.state_spec().wf()
        &&& self.pools_spec().wf()
        &&& self.wakeup_spec().wf()
        &&& self.config_spec().wf()
    }

    /// Creates a system from a resolved configuration: empty registries,
    /// one pool per configured pool entry. Worker threads are the
    /// embedding program's to start; they drive [`ActorSystem::wake`] and
    /// [`ActorSystem::manage_threads`].
    pub fn new(config: TyractorsaurConfig) -> (r: ActorSystem)
        requires
            config.wf(),
        ensures
            r.wf(),
            r.name_spec() == config.global.name@,
            r.config_spec() == config,
            r.state_spec().actors().len() == 0,
            !r.state_spec().stopping(),
            !r.state_spec().stopped(),
            !r.state_spec().force_stopped(),
            r.wakeup_spec().model().states.len() == 0,
            r.wakeup_spec().model().pending.len() == 0,
            forall|i: int|
                0 <= i < config.thread_pool.config@.len() ==> r.pools_spec().has_pool(
                    #[trigger] config.thread_pool.config@[i].0@,
                ) && r.pools_spec().pool_config(config.thread_pool.config@[i].0@)
                    == config.thread_pool.config@[i].1 && r.pools_spec().pool_tokens(
                    config.thread_pool.config@[i].0@,
                ).len() == 0,
    {
        let name = config.global.name.clone();
        let mut thread_pool_manager = ThreadPoolManager::new();
        let n = config.thread_pool.config.len();
        let mut i: usize = 0;
        while i < n
            invariant
                n == config.thread_pool.config@.len(),
                i <= n,
                config.wf(),
                thread_pool_manager.wf(),
                thread_pool_manager.pool_names().len() == i,
                forall|j: int|
                    0 <= j < i ==> thread_pool_manager.pool_names()[j]
                        == #[trigger] config.thread_pool.config@[j].0@,
                forall|j: int|
                    0 <= j < i ==> thread_pool_manager.has_pool(
                        #[trigger] config.thread_pool.config@[j].0@,
                    ) && thread_pool_manager.pool_config(config.thread_pool.config@[j].0@)
                        == config.thread_pool.config@[j].1 && thread_pool_manager.pool_tokens(
                        config.thread_pool.config@[j].0@,
                    ).len() == 0,
            decreases n - i,
        {
            let pool_name = config.thread_pool.config[i].0.clone();
            let pool_cfg = config.thread_pool.config[i].1;
            proof {
                if thread_pool_manager.has_pool(pool_name@) {
                    let k = choose|k: int|
                        0 <= k < thread_pool_manager.pool_names().len()
                            && thread_pool_manager.pool_names()[k] == pool_name@;
                    assert(config.thread_pool.config@[k].0@
                        == config.thread_pool.config@[i as int].0@);
                    assert(false);
                }
            }
            thread_pool_manager.add_pool_with_config(&pool_name, pool_cfg);
            proof {
                assert forall|j: int|
                    0 <= j < i + 1 implies thread_pool_manager.has_pool(
                    #[trigger] config.thread_pool.config@[j].0@,
                ) && thread_pool_manager.pool_config(config.thread_pool.config@[j].0@)
                    == config.thread_pool.config@[j].1 && thread_pool_manager.pool_tokens(
                    config.thread_pool.config@[j].0@,
                ).len() == 0 by {
                    if j < i {
                        if config.thread_pool.config@[j].0@ == pool_name@ {
                            assert(config.thread_pool.config@[j].0@
                                == config.thread_pool.config@[i as int].0@);
                        }
                    }
                }
            }
            i += 1;
        }
        ActorSystem {
            state: SystemState::new(),
            thread_pool_manager,
            wakeup_manager: WakeupManager::new(),
            name,
            config,
        }
    }

    /// Creates (or re-sizes) the named pool, taking its sizing from the
    /// configuration, or from the reserved default pool entry when the
    /// name has no configuration of its own.
    pub fn add_pool(&mut self, name: &String)
        requires
            old(self).wf(),
        ensures
            final(self).wf(),
            final(self).pools_spec().has_pool(name@),
            final(self).pools_spec().pool_config(name@) == (if old(self).config_spec().thread_pool.has_pool(name@) {
                old(self).config_spec().thread_pool.pool_cfg(name@)
            } else {
                old(self).config_spec().thread_pool.pool_cfg(crate::config::default_pool_name())
            }),
            final(self).state_spec() == old(self).state_spec(),
            final(self).wakeup_spec() == old(self).wakeup_spec(),
            final(self).config_spec() == old(self).config_spec(),
            final(self).name_spec() == old(self).name_spec(),
    {
        let cfg = match self.config.thread_pool.get(name) {
            Some(c) => c,
            None => {
                let default_name = default_pool();
                match self.config.thread_pool.get(&default_name) {
                    Some(c) => c,
                    None => {
                        // unreachable: a well-formed configuration holds the
                        // reserved default pool entry
                        proof {
                            assert(false);
                        }
                        ThreadPoolConfig { thread_count: 1 }
                    },
                }
            },
        };
        self.thread_pool_manager.add_pool_with_config(name, cfg);
    }

    /// Creates (or re-sizes) the named pool with explicit sizing.
    pub fn add_pool_with_config(&mut self, name: &String, thread_pool_config: ThreadPoolConfig)
        requires
            old(self).wf(),
        ensures
            final(self).wf(),
            final(self).pools_spec().has_pool(name@),
            final(self).pools_spec().pool_config(name@) == thread_pool_config,
            final(self).state_spec() == old(self).state_spec(),
            final(self).wakeup_spec() == old(self).wakeup_spec(),
            final(self).config_spec() == old(self).config_spec(),
            final(self).name_spec() == old(self).name_spec(),
    {
        self.thread_pool_manager.add_pool_with_config(name, thread_pool_config);
    }

    /// Spawns an actor: builds its mailbox and address, registers it
    /// (asleep, with its mailbox) in both registries, constructs the
    /// instance through the factory, and returns the executor that owns
    /// it. Fails with `DuplicateActor`, changing nothing, if and only if
    /// the address is already registered.
    pub fn spawn<A: Actor, F: ActorFactory<A>>(&mut self, actor_props: F, actor_config: ActorConfig)
        -> (r: Result<Executor<A, F>, ActorError>)
        requires
            old(self).wf(),
            actor_config.wf(),
        ensures
            final(self).wf(),
            final(self).pools_spec() == old(self).pools_spec(),
            final(self).config_spec() == old(self).config_spec(),
            final(self).name_spec() == old(self).name_spec(),
            final(self).state_spec().stopping() == old(self).state_spec().stopping(),
            final(self).state_spec().stopped() == old(self).state_spec().stopped(),
            final(self).wakeup_spec().model().pending == old(self).wakeup_spec().model().pending,
            ({
                let a = spawned_address(old(self).name_spec(), actor_config);
                &&& old(self).state_spec().contains_actor(a) ==> r is Err && r->Err_0
                    == ActorError::DuplicateActor && final(self).state_spec() == old(self).state_spec() && final(self).wakeup_spec() == old(self).wakeup_spec()
                &&& !old(self).state_spec().contains_actor(a) ==> ({
                    &&& r is Ok
                    &&& r->Ok_0.config_spec() == actor_config
                    &&& r->Ok_0.address_spec()@ == a
                    &&& final(self).state_spec().actors() == old(self).state_spec().actors().push(
                        (a, final(self).state_spec().mailbox_of(a)),
                    )
                    &&& final(self).state_spec().mailbox_of(a).contents().len() == 0
                    &&& final(self).state_spec().mailbox_of(a).capacity()
                        == actor_config.mailbox_size
                    &&& !final(self).state_spec().mailbox_of(a).stopped()
                    &&& final(self).state_spec().mailbox_of(a).sleeping()
                    &&& !contains_addr(old(self).wakeup_spec().model().states, a) ==> final(self).wakeup_spec().model().states == old(self).wakeup_spec().model().states.push((a, SchedState::Asleep))
                })
            }),
    {
        let address = ActorAddress {
            actor: actor_config.actor_name.clone(),
            system: self.name.clone(),
            pool: actor_config.pool_name.clone(),
            remote: "local".to_owned(),
        };
        let mailbox = Mailbox::new(actor_config.mailbox_size);
        let ghost a = spawned_address(self.name@, actor_config);
        proof {
            assert(address@ =~= a);
        }
        match self.state.add_actor(address.clone(), mailbox) {
            Err(e) => Err(e),
            Ok(()) => {
                let _ = self.wakeup_manager.add_sleeping_actor(address.clone());
                let context = ActorContext { address: address.clone() };
                let actor = actor_props.new_actor(context);
                let executor = Executor::new(actor_props, actor_config, address, actor);
                proof {
                    assert(final(self).state_spec().actors().last() == (
                        a,
                        final(self).state_spec().mailbox_of(a),
                    )) by {
                        let acts = final(self).state_spec().actors();
                        crate::system_state::lemma_actor_at(
                            final(self).state_spec(),
                            a,
                            acts.len() - 1,
                        );
                    }
                }
                Ok(executor)
            },
        }
    }

    /// Sends a serialized message to the actor registered under an
    /// address and, when the actor was idle, wakes it: its scheduling
    /// state turns runnable with exactly one published token.
    pub fn send_to_address(&mut self, address: &ActorAddress, msg: SerializedMessage) -> (r:
        DeliveryStatus)
        requires
            old(self).wf(),
        ensures
            final(self).wf(),
            final(self).pools_spec() == old(self).pools_spec(),
            final(self).config_spec() == old(self).config_spec(),
            final(self).name_spec() == old(self).name_spec(),
            final(self).state_spec().stopping() == old(self).state_spec().stopping(),
            final(self).state_spec().actors().len() == old(self).state_spec().actors().len(),
            forall|b: AddrView|
                final(self).state_spec().contains_actor(b) <==> old(self).state_spec().contains_actor(b),
            forall|b: AddrView|
                b != address@ && old(self).state_spec().contains_actor(b) ==> final(self).state_spec().mailbox_of(b) == old(self).state_spec().mailbox_of(b),
            !old(self).state_spec().contains_actor(address@) ==> r == DeliveryStatus::NoSuchActor
                && final(self).state_spec() == old(self).state_spec() && final(self).wakeup_spec()
                == old(self).wakeup_spec(),
            old(self).state_spec().contains_actor(address@) ==> ({
                let mb = old(self).state_spec().mailbox_of(address@);
                let mb2 = final(self).state_spec().mailbox_of(address@);
                &&& mb2.capacity() == mb.capacity()
                &&& mb2.stopped() == mb.stopped()
                &&& mb2.sleeping() == mb.sleeping()
                &&& mb.stopped() ==> r == (DeliveryStatus::Rejected {
                    error: ActorError::MailboxClosed,
                }) && mb2.contents() == mb.contents()
                &&& (!mb.stopped() && (mb.capacity() == 0 || mb.contents().len() < mb.capacity()))
                    ==> r == (DeliveryStatus::Delivered { was_sleeping: mb.sleeping() })
                    && mb2.contents() == mb.contents().push(msg)
                &&& (!mb.stopped() && !(mb.capacity() == 0 || mb.contents().len() < mb.capacity()))
                    ==> r == (DeliveryStatus::Rejected { error: ActorError::MailboxFull })
                    && mb2.contents() == mb.contents()
                &&& (r == (DeliveryStatus::Delivered { was_sleeping: true })) ==> final(self).wakeup_spec().model() == wake_tr(old(self).wakeup_spec().model(), address@)
                &&& !(r == (DeliveryStatus::Delivered { was_sleeping: true })) ==> final(self).wakeup_spec() == old(self).wakeup_spec()
            }),
    {
        let r = self.state.deliver(address, msg);
        match r {
            DeliveryStatus::Delivered { was_sleeping: true } => {
                self.wakeup_manager.wake(address);
            },
            _ => {},
        }
        r
    }

    /// One step of the wakeup routing loop: takes the oldest published
    /// wakeup token and hands it to the owning pool's work queue — at
    /// most once per wake transition. Returns false when no token was
    /// pending. A token whose pool was never created is dropped.
    pub fn wake(&mut self) -> (r: bool)
        requires
            old(self).wf(),
        ensures
            final(self).wf(),
            final(self).state_spec() == old(self).state_spec(),
            final(self).config_spec() == old(self).config_spec(),
            final(self).name_spec() == old(self).name_spec(),
            final(self).wakeup_spec().model().states == old(self).wakeup_spec().model().states,
            final(self).pools_spec().pool_names() == old(self).pools_spec().pool_names(),
            forall|other: Seq<char>|
                old(self).pools_spec().has_pool(other) ==> final(self).pools_spec().pool_config(
                    other,
                ) == old(self).pools_spec().pool_config(other),
            r == (old(self).wakeup_spec().model().pending.len() > 0),
            !r ==> final(self).wakeup_spec().model() == old(self).wakeup_spec().model()
                && final(self).pools_spec() == old(self).pools_spec(),
            r ==> ({
                let a = old(self).wakeup_spec().model().pending[0];
                &&& final(self).wakeup_spec().model().pending == old(self).wakeup_spec().model().pending.skip(1)
                &&& old(self).pools_spec().has_pool(a.pool) ==> final(self).pools_spec().pool_tokens(
                    a.pool,
                ) == old(self).pools_spec().pool_tokens(a.pool).push(a)
                &&& !old(self).pools_spec().has_pool(a.pool) ==> final(self).pools_spec() == old(self).pools_spec()
                &&& forall|other: Seq<char>|
                    other != a.pool && old(self).pools_spec().has_pool(other) ==> final(self).pools_spec().pool_tokens(other) == old(self).pools_spec().pool_tokens(other)
            }),
    {
        match self.wakeup_manager.next_token() {
            None => false,
            Some(token) => {
                let _ = self.thread_pool_manager.route(token);
                true
            },
        }
    }

    /// One step of a pool worker's loop: pops the oldest token of the
    /// named pool and claims that actor. On success the actor is running
    /// — removed from the claimable set the instant it is taken, so no
    /// other worker can claim it until its activation ends — and its
    /// address is returned for [`ActorSystem::run_activation`]. A stale
    /// token (its actor already running, stopped, or never registered)
    /// is discarded and `None` returned.
    pub fn manage_threads(&mut self, pool_name: &String) -> (r: Option<ActorAddress>)
        requires
            old(self).wf(),
        ensures
            final(self).wf(),
            final(self).state_spec() == old(self).state_spec(),
            final(self).config_spec() == old(self).config_spec(),
            final(self).name_spec() == old(self).name_spec(),
            !old(self).pools_spec().has_pool(pool_name@) ==> r is None && final(self).pools_spec()
                == old(self).pools_spec() && final(self).wakeup_spec() == old(self).wakeup_spec(),
            old(self).pools_spec().has_pool(pool_name@) && old(self).pools_spec().pool_tokens(
                pool_name@,
            ).len() == 0 ==> r is None && final(self).wakeup_spec().model() == old(self).wakeup_spec().model() && final(self).pools_spec().pool_tokens(pool_name@) == old(self).pools_spec().pool_tokens(pool_name@),
            old(self).pools_spec().has_pool(pool_name@) && old(self).pools_spec().pool_tokens(
                pool_name@,
            ).len() > 0 ==> ({
                let a = old(self).pools_spec().pool_tokens(pool_name@)[0];
                &&& final(self).pools_spec().pool_tokens(pool_name@) == old(self).pools_spec().pool_tokens(pool_name@).skip(1)
                &&& final(self).wakeup_spec().model() == claim_tr(
                    old(self).wakeup_spec().model(),
                    a,
                )
                &&& claim_enabled(old(self).wakeup_spec().model(), a) ==> r is Some && r->Some_0@
                    == a && state_of(final(self).wakeup_spec().model().states, a)
                    is Running
                &&& !claim_enabled(old(self).wakeup_spec().model(), a) ==> r is None
            }),
    {
        match self.thread_pool_manager.pop_token(pool_name) {
            None => None,
            Some(token) => {
                let claimed = self.wakeup_manager.try_claim(&token.actor_address);
                proof {
                    let m0 = old(self).wakeup_spec().model();
                    let a = token.actor_address@;
                    if claim_enabled(m0, a) {
                        crate::wakeup::lemma_set_state_unique(m0.states, a, SchedState::Running);
                    }
                }
                if claimed {
                    Some(token.actor_address)
                } else {
                    None
                }
            },
        }
    }

    /// Runs one activation of the claimed actor owned by this executor:
    /// takes its mailbox for exclusive use, drains it through
    /// [`Executor::activate`], and routes the resulting state back
    /// through the registries — asleep or runnable re-registers the actor
    /// and its backlog, stopped deregisters it and decrements the live
    /// count.
    pub fn run_activation<A: Actor, F: ActorFactory<A>>(
        &mut self,
        executor: &mut Executor<A, F>,
    ) -> (r: Option<ActivationResult>)
        requires
            old(self).wf(),
            old(executor).config_spec().wf(),
        ensures
            final(self).wf(),
            final(self).pools_spec() == old(self).pools_spec(),
            final(self).config_spec() == old(self).config_spec(),
            final(self).name_spec() == old(self).name_spec(),
            final(self).state_spec().stopping() == old(self).state_spec().stopping(),
            final(self).state_spec().stopped() == old(self).state_spec().stopped(),
            final(executor).config_spec() == old(executor).config_spec(),
            final(executor).address_spec() == old(executor).address_spec(),
            forall|b: AddrView|
                b != old(executor).address_spec()@ ==> (final(self).state_spec().contains_actor(b)
                    <==> old(self).state_spec().contains_actor(b)),
            forall|b: AddrView|
                b != old(executor).address_spec()@ && old(self).state_spec().contains_actor(b)
                    ==> final(self).state_spec().mailbox_of(b) == old(self).state_spec().mailbox_of(
                    b,
                ),
            ({
                let a = old(executor).address_spec()@;
                &&& !old(self).state_spec().contains_actor(a) ==> r is None && final(self).state_spec() == old(self).state_spec() && final(self).wakeup_spec() == old(self).wakeup_spec()
                &&& (old(self).state_spec().contains_actor(a) && old(self).state_spec().mailbox_of(
                    a,
                ).stopped()) ==> r is None && !final(self).state_spec().contains_actor(a)
                &&& (old(self).state_spec().contains_actor(a) && !old(self).state_spec().mailbox_of(
                    a,
                ).stopped()) ==> ({
                    let mb = old(self).state_spec().mailbox_of(a);
                    &&& r is Some
                    &&& ({
                        let res = r->Some_0;
                        &&& res.consumed <= old(executor).config_spec().message_throughput
                        &&& res.consumed <= mb.contents().len()
                        &&& !(res.next_state is Stopped) ==> ({
                            &&& final(self).state_spec().contains_actor(a)
                            &&& final(self).state_spec().mailbox_of(a).contents()
                                == mb.contents().skip(res.consumed as int)
                            &&& !final(self).state_spec().mailbox_of(a).stopped()
                            &&& final(self).state_spec().actors().len() == old(self).state_spec().actors().len()
                            &&& final(self).wakeup_spec().model() == finish_tr(
                                old(self).wakeup_spec().model(),
                                a,
                                res.next_state is Runnable,
                            )
                        })
                        &&& res.next_state is Stopped ==> ({
                            &&& !final(self).state_spec().contains_actor(a)
                            &&& final(self).state_spec().actors().len() == old(self).state_spec().actors().len() - 1
                            &&& !contains_addr(final(self).wakeup_spec().model().states, a)
                            &&& old(executor).config_spec().restart_policy is Never
                        })
                        &&& res.next_state is Asleep ==> final(self).state_spec().mailbox_of(
                            a,
                        ).contents().len() == 0
                    })
                })
            }),
    {
        let address = executor.get_address().clone();
        match self.state.take_entry(&address) {
            None => None,
            Some(mut entry) => {
                if entry.mailbox.is_closed() {
                    // the actor was stopped while a claim was in flight:
                    // deregister it, discarding the entry
                    self.wakeup_manager.remove_actor(&address);
                    proof {
                        crate::system_state::lemma_remove_other_actors(
                            old(self).state_spec(),
                            final(self).state_spec(),
                            old(self).state_spec().actor_index(address@),
                        );
                    }
                    None
                } else {
                    let ghost mid_state = self.state_spec();
                    let result = executor.activate(&mut entry.mailbox);
                    let ghost a = old(executor).address_spec()@;
                    match result.next_state {
                        ExecutorState::Stopped => {
                            self.wakeup_manager.remove_actor(&address);
                        },
                        ExecutorState::Asleep => {
                            self.state.put_entry(entry);
                            self.wakeup_manager.release(&address, false);
                        },
                        ExecutorState::Runnable => {
                            self.state.put_entry(entry);
                            self.wakeup_manager.release(&address, true);
                        },
                    }
                    proof {
                        let idx = old(self).state_spec().actor_index(a);
                        crate::system_state::lemma_remove_other_actors(
                            old(self).state_spec(),
                            mid_state,
                            idx,
                        );
                        if !(result.next_state is Stopped) {
                            let acts = final(self).state_spec().actors();
                            crate::system_state::lemma_actor_at(
                                final(self).state_spec(),
                                a,
                                acts.len() - 1,
                            );
                            crate::system_state::lemma_push_other_actors(
                                mid_state,
                                final(self).state_spec(),
                                a,
                                final(self).state_spec().mailbox_of(a),
                            );
                        }
                    }
                    Some(result)
                }
            },
        }
    }

    /// Stops one actor independent of system shutdown: its mailbox is
    /// marked stopped (senders now fail with `MailboxClosed`) and it is
    /// deregistered from both registries, decrementing the live count.
    pub fn stop_actor(&mut self, address: &ActorAddress)
        requires
            old(self).wf(),
        ensures
            final(self).wf(),
            final(self).pools_spec() == old(self).pools_spec(),
            final(self).config_spec() == old(self).config_spec(),
            final(self).name_spec() == old(self).name_spec(),
            final(self).state_spec().stopping() == old(self).state_spec().stopping(),
            !final(self).state_spec().contains_actor(address@),
            !contains_addr(final(self).wakeup_spec().model().states, address@),
            old(self).state_spec().contains_actor(address@) ==> final(self).state_spec().actors().len() == old(self).state_spec().actors().len() - 1,
            !old(self).state_spec().contains_actor(address@) ==> final(self).state_spec().actors().len() == old(self).state_spec().actors().len(),
    {
        match self.state.take_entry(address) {
            Some(mut entry) => {
                entry.mailbox.mark_stopped();
            },
            None => {},
        }
        self.wakeup_manager.remove_actor(address);
    }

    /// Requests system stop: idempotent — a second call while already
    /// stopping changes nothing. The timed wait for actors to drain is
    /// the embedding program's loop around
    /// [`ActorSystem::shutdown_step`].
    pub fn stop(&mut self)
        requires
            old(self).wf(),
        ensures
            final(self).wf(),
            final(self).state_spec().stopping(),
            final(self).state_spec().stopped() == old(self).state_spec().stopped(),
            final(self).state_spec().force_stopped() == old(self).state_spec().force_stopped(),
            final(self).state_spec().actors() == old(self).state_spec().actors(),
            final(self).pools_spec() == old(self).pools_spec(),
            final(self).wakeup_spec() == old(self).wakeup_spec(),
            final(self).config_spec() == old(self).config_spec(),
            final(self).name_spec() == old(self).name_spec(),
            old(self).state_spec().stopping() ==> final(self).state_spec() == old(self).state_spec(),
    {
        self.state.stop();
    }

    /// One poll of the shutdown wait, with the elapsed time since stop
    /// was requested and the configured deadline: keeps waiting while
    /// actors remain before the deadline; otherwise finalizes the stop
    /// and returns the exit status — zero for a graceful completion,
    /// one for a forced one.
    pub fn shutdown_step(&mut self, elapsed_ms: u64, timeout_ms: u64) -> (r: Option<i32>)
        requires
            old(self).wf(),
        ensures
            final(self).wf(),
            final(self).state_spec().actors() == old(self).state_spec().actors(),
            final(self).pools_spec() == old(self).pools_spec(),
            final(self).wakeup_spec() == old(self).wakeup_spec(),
            final(self).config_spec() == old(self).config_spec(),
            final(self).name_spec() == old(self).name_spec(),
            ({
                let d = shutdown_decision_spec(
                    old(self).state_spec().actors().len() as usize,
                    elapsed_ms,
                    timeout_ms,
                );
                &&& d is KeepWaiting ==> r is None && final(self).state_spec() == old(self).state_spec()
                &&& d is Graceful ==> r == Some(0i32) && final(self).state_spec().stopped()
                    && !final(self).state_spec().force_stopped()
                &&& d is Forced ==> r == Some(1i32) && final(self).state_spec().stopped() && final(self).state_spec().force_stopped()
            }),
    {
        let count = self.state.get_actor_count();
        match shutdown_decision(count, elapsed_ms, timeout_ms) {
            ShutdownDecision::KeepWaiting => None,
            ShutdownDecision::Graceful => {
                self.state.finalize_stop(false);
                Some(0)
            },
            ShutdownDecision::Forced => {
                self.state.finalize_stop(true);
                Some(1)
            },
        }
    }

    /// One poll of an await-shutdown wait: `None` while the system has
    /// not stopped, else the exit status — zero for graceful, one for
    /// forced completion.
    pub fn await_shutdown(&self) -> (r: Option<i32>)
        ensures
            !self.state_spec().stopped() ==> r is None,
            self.state_spec().stopped() && !self.state_spec().force_stopped() ==> r == Some(0i32),
            self.state_spec().stopped() && self.state_spec().force_stopped() ==> r == Some(1i32),
    {
        if !self.state.is_stopped() {
            None
        } else if self.state.is_force_stopped() {
            Some(1)
        } else {
            Some(0)
        }
    }

    /// Begins resolving an actor's settings from the global defaults.
    pub fn builder(&self, name: &String) -> (r: ActorBuilder)
        ensures
            r.actor_config.actor_name@ == name@,
            r.actor_config.pool_name@ == crate::config::default_pool_name(),
            r.actor_config.mailbox_size == self.config_spec().global.default_mailbox_size,
            r.actor_config.message_throughput
                == self.config_spec().global.default_message_throughput,
            r.actor_config.restart_policy == self.config_spec().global.default_restart_policy,
    {
        ActorBuilder {
            actor_config: ActorConfig {
                actor_name: name.clone(),
                pool_name: default_pool(),
                mailbox_size: self.config.global.default_mailbox_size,
                message_throughput: self.config.global.default_message_throughput,
                restart_policy: self.config.global.default_restart_policy,
            },
        }
    }

    /// The resolved configuration this system was created from.
    pub fn get_config(&self) -> (r: &TyractorsaurConfig)
        ensures
            *r == self.config_spec(),
    {
        &self.config
    }
}

} // verus!
