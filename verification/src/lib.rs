//! A typed actor runtime core: per-actor mailboxes, cooperative activation
//! scheduling across named worker pools, failure containment with restart
//! policies, and system-wide shutdown sequencing.
//!
//! The queues that carry messages and wakeup tokens are crossbeam channels;
//! everything decided around them (scheduling transitions, activation loops,
//! restart decisions, shutdown sequencing) is verified. Worker threads and
//! clocks live outside this crate: a driver claims runnable actors, runs
//! activations, and reports the outcome back.

pub mod actor;
pub mod actor_system;
pub mod address;
pub mod config;
pub mod executor;
pub mod mailbox;
pub mod messages;
pub mod system_state;
pub mod thread_pool;
pub mod wakeup;
