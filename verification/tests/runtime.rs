use tyractorsaur::actor::{Actor, ActorContext, ActorFactory};
use tyractorsaur::actor_system::{shutdown_decision, ActorSystem, ShutdownDecision};
use tyractorsaur::config::{
    ActorConfig, GlobalConfig, PoolsConfig, RestartPolicy, ThreadPoolConfig, TyractorsaurConfig,
};
use tyractorsaur::executor::{ActivationResult, Executor, ExecutorState};
use tyractorsaur::mailbox::Mailbox;
use tyractorsaur::messages::{ActorError, HandlerResult, SerializedMessage};
use tyractorsaur::system_state::DeliveryStatus;

const FAIL_KIND: u8 = 9;
const UNSUPPORTED_KIND: u8 = 7;

struct Recorder {
    seen: Vec<u8>,
}

impl Actor for Recorder {
    fn handle(&mut self, msg: &SerializedMessage, _context: &ActorContext) -> HandlerResult {
        let kind = if msg.content.is_empty() { 0 } else { msg.content[0] };
        if kind == FAIL_KIND {
            HandlerResult::Failed
        } else if kind == UNSUPPORTED_KIND {
            HandlerResult::Unhandled
        } else {
            self.seen.push(kind);
            HandlerResult::Processed
        }
    }
}

struct RecorderFactory;

impl ActorFactory<Recorder> for RecorderFactory {
    fn new_actor(&self, _context: ActorContext) -> Recorder {
        Recorder { seen: Vec::new() }
    }
}

fn make_config() -> TyractorsaurConfig {
    TyractorsaurConfig {
        global: GlobalConfig {
            name: "testsys".to_string(),
            default_mailbox_size: 0,
            default_message_throughput: 10,
            default_restart_policy: RestartPolicy::Always,
        },
        thread_pool: PoolsConfig {
            config: vec![(
                "default".to_string(),
                ThreadPoolConfig { thread_count: 1 },
            )],
        },
    }
}

fn actor_config(name: &str, mailbox_size: usize, policy: RestartPolicy) -> ActorConfig {
    ActorConfig {
        actor_name: name.to_string(),
        pool_name: "default".to_string(),
        mailbox_size,
        message_throughput: 10,
        restart_policy: policy,
    }
}

fn msg(kind: u8) -> SerializedMessage {
    SerializedMessage::new(vec![kind])
}

fn run_cycle(
    system: &mut ActorSystem,
    exec: &mut Executor<Recorder, RecorderFactory>,
) -> Option<ActivationResult> {
    system.wake();
    let pool = "default".to_string();
    match system.manage_threads(&pool) {
        Some(_claimed) => system.run_activation(exec),
        None => None,
    }
}

#[test]
fn fifo_processing_order() {
    let mut system = ActorSystem::new(make_config());
    let mut exec = system
        .spawn(RecorderFactory, actor_config("fifo", 0, RestartPolicy::Always))
        .unwrap();
    let addr = exec.get_address().clone();
    assert_eq!(
        system.send_to_address(&addr, msg(1)),
        DeliveryStatus::Delivered { was_sleeping: true }
    );
    assert_eq!(
        system.send_to_address(&addr, msg(2)),
        DeliveryStatus::Delivered { was_sleeping: true }
    );
    assert_eq!(
        system.send_to_address(&addr, msg(3)),
        DeliveryStatus::Delivered { was_sleeping: true }
    );
    let result = run_cycle(&mut system, &mut exec).unwrap();
    assert_eq!(result.consumed, 3);
    assert_eq!(result.next_state, ExecutorState::Asleep);
    assert_eq!(exec.get_actor().seen, vec![1, 2, 3]);
}

#[test]
fn bounded_mailbox_reports_full_until_drained() {
    let mut system = ActorSystem::new(make_config());
    let mut exec = system
        .spawn(RecorderFactory, actor_config("bounded", 1, RestartPolicy::Always))
        .unwrap();
    let addr = exec.get_address().clone();
    assert_eq!(
        system.send_to_address(&addr, msg(1)),
        DeliveryStatus::Delivered { was_sleeping: true }
    );
    // the second send cannot proceed while the first fills the single
    // slot: a blocking sender keeps retrying on exactly this outcome
    assert_eq!(
        system.send_to_address(&addr, msg(2)),
        DeliveryStatus::Rejected { error: ActorError::MailboxFull }
    );
    let first = run_cycle(&mut system, &mut exec).unwrap();
    assert_eq!(first.consumed, 1);
    // the slot is free again: the retried send goes through
    assert_eq!(
        system.send_to_address(&addr, msg(2)),
        DeliveryStatus::Delivered { was_sleeping: true }
    );
    let second = run_cycle(&mut system, &mut exec).unwrap();
    assert_eq!(second.consumed, 1);
    assert_eq!(
        system.send_to_address(&addr, msg(3)),
        DeliveryStatus::Delivered { was_sleeping: true }
    );
    let third = run_cycle(&mut system, &mut exec).unwrap();
    assert_eq!(third.consumed, 1);
    // nothing was lost and nothing reordered
    assert_eq!(exec.get_actor().seen, vec![1, 2, 3]);
}

#[test]
fn unsupported_message_keeps_actor_alive() {
    let mut system = ActorSystem::new(make_config());
    let mut exec = system
        .spawn(RecorderFactory, actor_config("nohandler", 0, RestartPolicy::Always))
        .unwrap();
    let addr = exec.get_address().clone();
    system.send_to_address(&addr, msg(UNSUPPORTED_KIND));
    system.send_to_address(&addr, msg(4));
    let result = run_cycle(&mut system, &mut exec).unwrap();
    assert_eq!(result.consumed, 2);
    assert_eq!(result.unhandled, 1);
    assert_eq!(result.next_state, ExecutorState::Asleep);
    // the unsupported message was dropped, the supported one processed
    assert_eq!(exec.get_actor().seen, vec![4]);
    // the actor is still alive and reachable
    assert_eq!(
        system.send_to_address(&addr, msg(5)),
        DeliveryStatus::Delivered { was_sleeping: true }
    );
}

#[test]
fn restart_preserves_backlog() {
    let mut system = ActorSystem::new(make_config());
    let mut exec = system
        .spawn(RecorderFactory, actor_config("restart", 0, RestartPolicy::Always))
        .unwrap();
    let addr = exec.get_address().clone();
    system.send_to_address(&addr, msg(FAIL_KIND));
    system.send_to_address(&addr, msg(2));
    system.send_to_address(&addr, msg(3));
    let result = run_cycle(&mut system, &mut exec).unwrap();
    assert_eq!(result.restarts, 1);
    assert_eq!(result.consumed, 3);
    assert_eq!(result.next_state, ExecutorState::Asleep);
    // the replacement instance resumed with the next queued message, in order
    assert_eq!(exec.get_actor().seen, vec![2, 3]);
}

#[test]
fn never_restart_policy_stops_actor() {
    let mut system = ActorSystem::new(make_config());
    let mut exec = system
        .spawn(RecorderFactory, actor_config("fragile", 0, RestartPolicy::Never))
        .unwrap();
    let addr = exec.get_address().clone();
    system.send_to_address(&addr, msg(FAIL_KIND));
    system.send_to_address(&addr, msg(2));
    let result = run_cycle(&mut system, &mut exec).unwrap();
    assert_eq!(result.next_state, ExecutorState::Stopped);
    assert_eq!(result.consumed, 1);
    assert_eq!(result.restarts, 0);
    // the actor is deregistered: later sends find nobody
    assert_eq!(system.send_to_address(&addr, msg(3)), DeliveryStatus::NoSuchActor);
}

#[test]
fn wake_is_idempotent() {
    let mut system = ActorSystem::new(make_config());
    let mut exec = system
        .spawn(RecorderFactory, actor_config("waker", 0, RestartPolicy::Always))
        .unwrap();
    let addr = exec.get_address().clone();
    // several sends while the actor is asleep: all observe it sleeping,
    // yet only one wakeup token is published
    system.send_to_address(&addr, msg(1));
    system.send_to_address(&addr, msg(2));
    system.send_to_address(&addr, msg(3));
    assert!(system.wake());
    assert!(!system.wake());
    // and exactly one claim succeeds
    let pool = "default".to_string();
    let claimed = system.manage_threads(&pool);
    assert!(claimed.is_some());
    assert!(system.manage_threads(&pool).is_none());
    let result = system.run_activation(&mut exec).unwrap();
    assert_eq!(result.consumed, 3);
}

#[test]
fn running_actor_cannot_be_claimed_again() {
    let mut system = ActorSystem::new(make_config());
    let mut exec = system
        .spawn(RecorderFactory, actor_config("exclusive", 0, RestartPolicy::Always))
        .unwrap();
    let addr = exec.get_address().clone();
    system.send_to_address(&addr, msg(1));
    assert!(system.wake());
    let pool = "default".to_string();
    assert!(system.manage_threads(&pool).is_some());
    // the actor is running: a fresh send does not publish a second
    // claimable token, and no second claim can succeed
    system.send_to_address(&addr, msg(2));
    assert!(!system.wake());
    assert!(system.manage_threads(&pool).is_none());
    // the one activation drains both messages and releases the actor
    let result = system.run_activation(&mut exec).unwrap();
    assert_eq!(result.consumed, 2);
    assert_eq!(exec.get_actor().seen, vec![1, 2]);
}

#[test]
fn cooperative_yield_when_throughput_reached() {
    let mut system = ActorSystem::new(make_config());
    let mut cfg = actor_config("busy", 0, RestartPolicy::Always);
    cfg.message_throughput = 2;
    let mut exec = system.spawn(RecorderFactory, cfg).unwrap();
    let addr = exec.get_address().clone();
    for k in 1..=5u8 {
        system.send_to_address(&addr, msg(k));
    }
    let first = run_cycle(&mut system, &mut exec).unwrap();
    assert_eq!(first.next_state, ExecutorState::Runnable);
    assert_eq!(first.consumed, 2);
    // the yield re-published the actor: the next cycles pick it up again
    let second = run_cycle(&mut system, &mut exec).unwrap();
    assert_eq!(second.next_state, ExecutorState::Runnable);
    let third = run_cycle(&mut system, &mut exec).unwrap();
    assert_eq!(third.next_state, ExecutorState::Asleep);
    assert_eq!(third.consumed, 1);
    assert_eq!(exec.get_actor().seen, vec![1, 2, 3, 4, 5]);
}

#[test]
fn duplicate_spawn_is_refused() {
    let mut system = ActorSystem::new(make_config());
    let _first: Executor<Recorder, RecorderFactory> = system
        .spawn(RecorderFactory, actor_config("twin", 0, RestartPolicy::Always))
        .unwrap();
    let second: Result<Executor<Recorder, RecorderFactory>, ActorError> =
        system.spawn(RecorderFactory, actor_config("twin", 0, RestartPolicy::Always));
    assert_eq!(second.err(), Some(ActorError::DuplicateActor));
}

#[test]
fn stopped_mailbox_refuses_sends() {
    let mut mailbox = Mailbox::new(0);
    mailbox.mark_stopped();
    assert_eq!(mailbox.send(msg(1)), Err(ActorError::MailboxClosed));
    // idempotent and irreversible
    mailbox.mark_stopped();
    assert_eq!(mailbox.send(msg(2)), Err(ActorError::MailboxClosed));
    assert_eq!(mailbox.len(), 0);
}

#[test]
fn mailbox_batch_preserves_fifo_order() {
    let mut mailbox = Mailbox::new(0);
    assert!(mailbox.send(msg(1)).is_ok());
    assert!(mailbox.send(msg(2)).is_ok());
    assert!(mailbox.send(msg(3)).is_ok());
    let batch = mailbox.try_receive_batch(2);
    assert_eq!(batch.len(), 2);
    assert_eq!(batch[0].content, vec![1]);
    assert_eq!(batch[1].content, vec![2]);
    assert_eq!(mailbox.len(), 1);
    let rest = mailbox.try_receive_batch(5);
    assert_eq!(rest.len(), 1);
    assert_eq!(rest[0].content, vec![3]);
    assert!(mailbox.try_receive().is_none());
}

#[test]
fn bounded_mailbox_capacity_is_enforced() {
    let mut mailbox = Mailbox::new(2);
    assert!(mailbox.send(msg(1)).is_ok());
    assert!(mailbox.send(msg(2)).is_ok());
    assert_eq!(mailbox.send(msg(3)), Err(ActorError::MailboxFull));
    assert_eq!(mailbox.len(), 2);
    assert_eq!(mailbox.try_receive().unwrap().content, vec![1]);
    assert!(mailbox.send(msg(3)).is_ok());
}

#[test]
fn graceful_shutdown_when_actors_drain() {
    let mut system = ActorSystem::new(make_config());
    let exec = system
        .spawn(RecorderFactory, actor_config("drainer", 0, RestartPolicy::Always))
        .unwrap();
    let addr = exec.get_address().clone();
    system.stop();
    assert_eq!(system.await_shutdown(), None);
    // the actor finishes and deregisters before the deadline
    system.stop_actor(&addr);
    let status = system.shutdown_step(100, 5000);
    assert_eq!(status, Some(0));
    assert_eq!(system.await_shutdown(), Some(0));
}

#[test]
fn forced_shutdown_at_deadline_not_before() {
    let mut system = ActorSystem::new(make_config());
    let _exec = system
        .spawn(RecorderFactory, actor_config("stuck", 0, RestartPolicy::Always))
        .unwrap();
    system.stop();
    // before the deadline the wait keeps going
    assert_eq!(system.shutdown_step(4999, 5000), None);
    assert_eq!(system.await_shutdown(), None);
    // at the deadline, with the actor still live, the stop is forced
    assert_eq!(system.shutdown_step(5000, 5000), Some(1));
    assert_eq!(system.await_shutdown(), Some(1));
}

#[test]
fn stop_is_idempotent() {
    let mut system = ActorSystem::new(make_config());
    system.stop();
    system.stop();
    assert_eq!(system.shutdown_step(0, 1000), Some(0));
    assert_eq!(system.await_shutdown(), Some(0));
}

#[test]
fn shutdown_decision_cases() {
    assert_eq!(shutdown_decision(0, 9999, 10), ShutdownDecision::Graceful);
    assert_eq!(shutdown_decision(3, 9, 10), ShutdownDecision::KeepWaiting);
    assert_eq!(shutdown_decision(3, 10, 10), ShutdownDecision::Forced);
    assert_eq!(shutdown_decision(0, 0, 0), ShutdownDecision::Graceful);
}

#[test]
fn builder_resolves_global_defaults() {
    let system = ActorSystem::new(make_config());
    let name = "built".to_string();
    let mut builder = system.builder(&name);
    assert_eq!(builder.actor_config.actor_name, "built");
    assert_eq!(builder.actor_config.pool_name, "default");
    assert_eq!(builder.actor_config.mailbox_size, 0);
    assert_eq!(builder.actor_config.message_throughput, 10);
    assert_eq!(builder.actor_config.restart_policy, RestartPolicy::Always);
    builder.set_mailbox_size(4);
    builder.set_message_throughput(2);
    builder.set_restart_policy(RestartPolicy::Never);
    let cfg = builder.config();
    assert_eq!(cfg.mailbox_size, 4);
    assert_eq!(cfg.message_throughput, 2);
    assert_eq!(cfg.restart_policy, RestartPolicy::Never);
}

#[test]
fn add_pool_uses_default_sizing_for_unknown_names() {
    let mut system = ActorSystem::new(make_config());
    let custom = "crunchers".to_string();
    system.add_pool(&custom);
    system.add_pool_with_config(&"io".to_string(), ThreadPoolConfig { thread_count: 3 });
    assert_eq!(system.get_config().global.name, "testsys");
    // an actor bound to the new pool schedules through it
    let mut exec = system
        .spawn(
            RecorderFactory,
            ActorConfig {
                actor_name: "pooled".to_string(),
                pool_name: "crunchers".to_string(),
                mailbox_size: 0,
                message_throughput: 10,
                restart_policy: RestartPolicy::Always,
            },
        )
        .unwrap();
    let addr = exec.get_address().clone();
    system.send_to_address(&addr, msg(1));
    assert!(system.wake());
    // the token went to the actor's own pool, not the default one
    assert!(system.manage_threads(&"default".to_string()).is_none());
    let claimed = system.manage_threads(&custom);
    assert!(claimed.is_some());
    let result = system.run_activation(&mut exec).unwrap();
    assert_eq!(result.consumed, 1);
    assert_eq!(exec.get_actor().seen, vec![1]);
}

#[test]
fn send_to_unknown_address_is_reported() {
    let mut system = ActorSystem::new(make_config());
    let exec = system
        .spawn(RecorderFactory, actor_config("known", 0, RestartPolicy::Always))
        .unwrap();
    let mut addr = exec.get_address().clone();
    addr.actor = "unknown".to_string();
    assert_eq!(system.send_to_address(&addr, msg(1)), DeliveryStatus::NoSuchActor);
}
