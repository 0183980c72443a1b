//! Typed errors of the control-plane core.  Nothing in this crate panics on
//! a fallible external condition: every such condition surfaces as one of
//! these values.

use vstd::prelude::*;

verus! {

/// A transaction could not be applied.  The batch then has no effect on
/// engine state (rollback atomicity).
#[derive(Clone, Copy, Debug, PartialEq, Eq, Structural)]
pub enum EngineError {
    /// `apply` was called after `stop` released the engine handle.
    UseAfterStop,
    /// An update named a relation identifier the running program does not
    /// declare; holds that identifier.
    UnknownRelation(u64),
}

/// An error surfaced to a caller of the control actor.
#[derive(Debug)]
pub enum ControllerError {
    /// The engine rejected the batch; state is unchanged.
    Engine(EngineError),
    /// The switch rejected or failed to apply a write batch; the batch is
    /// failed as a whole, with no partial retry.
    Write(String),
    /// The digest stream failed; only the digest subsystem ends.
    Stream(String),
    /// The actor task ended before replying, so the reply channel was
    /// dropped; distinguishable from a normal error reply.
    ActorUnavailable,
}

} // verus!
