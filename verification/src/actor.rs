//! The user-facing actor abstractions: the actor behaviour trait, the
//! context handed to it, and the factory that constructs instances.

use vstd::prelude::*;
use crate::address::ActorAddress;
use crate::messages::{HandlerResult, SerializedMessage};

verus! {

/// What an actor sees of its surroundings: its own address. An actor can
/// hand the address on (for example to message itself through the system)
/// or inspect it during orderly-stop handling.
pub struct ActorContext {
    pub address: ActorAddress,
}

/// An isolated unit of state, reachable only through messages. The
/// runtime guarantees at most one activation of an actor at any instant,
/// so an implementation may treat its own state as single-threaded.
///
/// `handle` reports how the message was dispatched. An implementation
/// whose work may terminate abnormally must convert that termination into
/// [`HandlerResult::Failed`] at its own boundary (for example with an
/// unwind guard outside this crate): the scheduler consumes a value, never
/// an unwinding.
pub trait Actor: Sized {
    /// Dispatches one message to this actor.
    fn handle(&mut self, msg: &SerializedMessage, context: &ActorContext) -> HandlerResult;
}

/// Constructs actor instances. A factory rather than a duplicable actor:
/// on a restart decision the executor asks the factory for a replacement
/// instance instead of cloning a live one, so actor implementations need
/// no duplication semantics.
pub trait ActorFactory<A: Actor>: Sized {
    /// Creates the actual actor; invoked once at spawn and again on every
    /// restart decision.
    fn new_actor(&self, context: ActorContext) -> A;
}

} // verus!
