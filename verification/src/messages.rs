//! Message values, handler outcomes, and the runtime's error taxonomy.

use vstd::prelude::*;

verus! {

/// The wire form of a message: an opaque byte payload. Typed message
/// definitions and their serialization are the caller's concern; the
/// runtime queues and delivers these values unchanged.
pub struct SerializedMessage {
    pub content: Vec<u8>,
}

impl View for SerializedMessage {
    type V = Seq<u8>;

    open spec fn view(&self) -> Seq<u8> {
        self.content@
    }
}

impl SerializedMessage {
    pub fn new(content: Vec<u8>) -> (r: SerializedMessage)
        ensures
            r@ == content@,
    {
        SerializedMessage { content }
    }
}

/// What one handler invocation reported back to the executor.
///
/// A handler that terminates abnormally must be surfaced as `Failed` by the
/// caller-side dispatch boundary (unwinding is converted to a value before
/// it reaches the scheduler), so the executor can resolve it through the
/// restart policy.
#[derive(Clone, Copy, PartialEq, Eq, Structural, Debug)]
pub enum HandlerResult {
    /// The message was recognized and handled.
    Processed,
    /// No handler exists for this message kind: logged and dropped, the
    /// actor stays alive.
    Unhandled,
    /// The handler terminated abnormally: resolved via the restart policy.
    Failed,
}

/// The runtime's error taxonomy.
#[derive(Clone, Copy, PartialEq, Eq, Structural, Debug)]
pub enum ActorError {
    /// Send after the mailbox was stopped.
    MailboxClosed,
    /// Non-blocking send into a bounded mailbox that is at capacity.
    MailboxFull,
    /// Spawn with an address that is already registered.
    DuplicateActor,
}

} // verus!
