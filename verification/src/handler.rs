//! The handler capability: anything that can accept ownership of a message
//! and process it.

use vstd::prelude::*;
use crate::error::HandlerError;
use crate::message::Message;

verus! {

/// Capability to process a message. Implemented by the embedding process for
/// its concrete transports (e.g. a socket handler); the router only resolves
/// which handler receives a given hop and then transfers the message to it.
pub trait HandleMessage {
    /// What a completed `handle_message` call may state: it relates the
    /// handler, the message it took ownership of, and its result. Each
    /// implementation chooses its own meaning; the router promises callers no
    /// more than this relation for the message it delivered. An
    /// implementation that keeps the default claims nothing.
    open spec fn handle_spec(&self, m: Message, r: Result<(), HandlerError>) -> bool {
        true
    }

    /// Processes `m`, taking exclusive ownership of it. May perform blocking
    /// I/O. An error is reported to the router, which wraps it unchanged.
    fn handle_message(&self, m: Message) -> (r: Result<(), HandlerError>)
        ensures
            self.handle_spec(m, r),
    ;
}

} // verus!
