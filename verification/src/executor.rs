//! The executor: owns one actor instance and drives its activations. An
//! activation drains the actor's mailbox in FIFO order up to the
//! configured throughput, dispatches each message, contains handler
//! failures at the single-message boundary, and decides the actor's next
//! scheduling state.

use vstd::prelude::*;
use crate::actor::{Actor, ActorContext, ActorFactory};
use crate::address::ActorAddress;
use crate::config::{ActorConfig, RestartPolicy};
use crate::mailbox::Mailbox;
use crate::messages::{HandlerResult, SerializedMessage};

verus! {

/// What the executor does after one message was dispatched.
#[derive(Clone, Copy, PartialEq, Eq, Structural, Debug)]
pub enum StepAction {
    /// The message was handled; keep draining.
    ContinueProcessing,
    /// No handler for this message kind: drop it and keep draining. An
    /// unsupported message never affects actor liveness.
    DropUnhandled,
    /// The handler failed and the policy restarts: replace the actor
    /// instance and resume with the next queued message.
    RestartActor,
    /// The handler failed and the policy stops: close the mailbox and end
    /// the activation terminally.
    StopActor,
}

/// The restart-policy decision function: maps one handler outcome to the
/// action the executor takes. Failures are resolved here and nowhere
/// else, so they never propagate past the single-message boundary.
pub open spec fn step_action_spec(policy: RestartPolicy, outcome: HandlerResult) -> StepAction {
    match outcome {
        HandlerResult::Processed => StepAction::ContinueProcessing,
        HandlerResult::Unhandled => StepAction::DropUnhandled,
        HandlerResult::Failed => match policy {
            RestartPolicy::Always => StepAction::RestartActor,
            RestartPolicy::Never => StepAction::StopActor,
        },
    }
}

/// Executable counterpart of [`step_action_spec`].
pub fn settle_outcome(policy: RestartPolicy, outcome: HandlerResult) -> (r: StepAction)
    ensures
        r == step_action_spec(policy, outcome),
{
    match outcome {
        HandlerResult::Processed => StepAction::ContinueProcessing,
        HandlerResult::Unhandled => StepAction::DropUnhandled,
        HandlerResult::Failed => match policy {
            RestartPolicy::Always => StepAction::RestartActor,
            RestartPolicy::Never => StepAction::StopActor,
        },
    }
}

/// The scheduling state an activation leaves the actor in.
#[derive(Clone, Copy, PartialEq, Eq, Structural, Debug)]
pub enum ExecutorState {
    /// The mailbox was drained empty: the actor goes back to sleep.
    Asleep,
    /// The throughput limit was reached with messages still pending: the
    /// actor yields cooperatively and stays runnable.
    Runnable,
    /// A failure was resolved to stop: the mailbox is closed and the actor
    /// ends terminally.
    Stopped,
}

/// Accounting of one activation.
#[derive(Clone, Copy, PartialEq, Eq, Structural, Debug)]
pub struct ActivationResult {
    /// The state to route back through the scheduler.
    pub next_state: ExecutorState,
    /// How many messages were taken off the mailbox.
    pub consumed: usize,
    /// How many fresh instances replaced a failed one.
    pub restarts: usize,
    /// How many messages had no handler and were dropped.
    pub unhandled: usize,
}

/// Owns one actor instance, its factory and its resolved configuration.
/// Created once per spawned actor and surviving restarts: on a restart
/// decision the instance inside is replaced, the executor is not.
pub struct Executor<A, F> {
    actor: A,
    factory: F,
    config: ActorConfig,
    address: ActorAddress,
}

impl<A: Actor, F: ActorFactory<A>> Executor<A, F> {
    pub closed spec fn config_spec(self) -> ActorConfig {
        self.config
    }

    pub closed spec fn actor_spec(self) -> A {
        self.actor
    }

    pub closed spec fn address_spec(self) -> ActorAddress {
        self.address
    }

    pub fn new(factory: F, config: ActorConfig, address: ActorAddress, actor: A) -> (r: Executor<
        A,
        F,
    >)
        ensures
            r.config_spec() == config,
            r.address_spec() == address,
    {
        Executor { actor, factory, config, address }
    }

    /// The address this executor was registered under.
    pub fn get_address(&self) -> (r: &ActorAddress)
        ensures
            *r == self.address_spec(),
    {
        &self.address
    }

    /// The actor instance currently owned (the replacement instance,
    /// after a restart).
    pub fn get_actor(&self) -> (r: &A)
        ensures
            *r == self.actor_spec(),
    {
        &self.actor
    }

    /// Runs one activation: drains the mailbox in FIFO order up to the
    /// configured message throughput, dispatching each message to the
    /// actor and resolving each outcome through the restart policy.
    ///
    /// Whatever the handlers report, the messages taken off the mailbox
    /// are exactly a prefix of its former contents and the backlog stays
    /// queued in order — a restart loses no queued work. The activation
    /// ends `Stopped` only when a failure was resolved by a `Never`
    /// policy; under `Always` the actor outlives every failure.
    pub fn activate(&mut self, mailbox: &mut Mailbox) -> (r: ActivationResult)
        requires
            !old(mailbox).stopped(),
            old(self).config_spec().wf(),
        ensures
            final(self).config_spec() == old(self).config_spec(),
            final(self).address_spec() == old(self).address_spec(),
            final(mailbox).capacity() == old(mailbox).capacity(),
            r.consumed <= old(self).config_spec().message_throughput,
            r.consumed <= old(mailbox).contents().len(),
            final(mailbox).contents() == old(mailbox).contents().skip(r.consumed as int),
            r.next_state is Stopped ==> final(mailbox).stopped()
                && old(self).config_spec().restart_policy is Never,
            old(self).config_spec().restart_policy is Always ==> !(r.next_state is Stopped),
            !(r.next_state is Stopped) ==> !final(mailbox).stopped(),
            r.next_state is Asleep ==> final(mailbox).contents().len() == 0
                && final(mailbox).sleeping(),
            r.next_state is Runnable ==> final(mailbox).contents().len() > 0
                && r.consumed == old(self).config_spec().message_throughput
                && !final(mailbox).sleeping(),
            r.restarts <= r.consumed,
            r.unhandled <= r.consumed,
    {
        let limit = self.config.message_throughput;
        let mut consumed: usize = 0;
        let mut restarts: usize = 0;
        let mut unhandled: usize = 0;
        mailbox.set_sleeping(false);
        while consumed < limit
            invariant
                limit == old(self).config_spec().message_throughput,
                consumed <= limit,
                restarts <= consumed,
                unhandled <= consumed,
                consumed <= old(mailbox).contents().len(),
                self.config == old(self).config_spec(),
                self.address == old(self).address_spec(),
                mailbox.contents() == old(mailbox).contents().skip(consumed as int),
                mailbox.capacity() == old(mailbox).capacity(),
                !mailbox.stopped(),
                !mailbox.sleeping(),
            decreases limit - consumed,
        {
            match mailbox.try_receive() {
                None => {
                    mailbox.set_sleeping(true);
                    proof {
                        assert(old(mailbox).contents().skip(consumed as int).len() == 0);
                    }
                    return ActivationResult {
                        next_state: ExecutorState::Asleep,
                        consumed,
                        restarts,
                        unhandled,
                    };
                },
                Some(msg) => {
                    proof {
                        assert(old(mailbox).contents().skip(consumed as int).skip(1)
                            =~= old(mailbox).contents().skip(consumed as int + 1));
                    }
                    let context = ActorContext { address: self.address.clone() };
                    let outcome = self.actor.handle(&msg, &context);
                    match settle_outcome(self.config.restart_policy, outcome) {
                        StepAction::ContinueProcessing => {},
                        StepAction::DropUnhandled => {
                            unhandled += 1;
                        },
                        StepAction::RestartActor => {
                            let fresh_context = ActorContext { address: self.address.clone() };
                            self.actor = self.factory.new_actor(fresh_context);
                            restarts += 1;
                        },
                        StepAction::StopActor => {
                            mailbox.mark_stopped();
                            return ActivationResult {
                                next_state: ExecutorState::Stopped,
                                consumed: consumed + 1,
                                restarts,
                                unhandled,
                            };
                        },
                    }
                    consumed += 1;
                },
            }
        }
        if mailbox.len() == 0 {
            mailbox.set_sleeping(true);
            ActivationResult { next_state: ExecutorState::Asleep, consumed, restarts, unhandled }
        } else {
            ActivationResult { next_state: ExecutorState::Runnable, consumed, restarts, unhandled }
        }
    }
}

/// Restart preserves backlog: however many of the `k` consumed messages
/// failed and were resolved by restarts, the messages an activation
/// leaves behind are exactly the not-yet-consumed ones, in their
/// original order, and the first of them is the next one dequeued — a
/// replacement instance resumes with the message after the failed one.
/// (That an `Always` policy never ends an activation `Stopped`, so the
/// backlog stays live, is part of [`Executor::activate`]'s contract.)
pub proof fn lemma_restart_preserves_backlog(q: Seq<SerializedMessage>, k: int)
    requires
        0 <= k <= q.len(),
    ensures
        q.skip(k).len() == q.len() - k,
        forall|j: int| 0 <= j < q.len() - k ==> q.skip(k)[j] == q[k + j],
        k < q.len() ==> q.skip(k)[0] == q[k],
{
}

} // verus!
