//! The control actor's decision logic.  The actor is the single owner of
//! the engine facade and the switch connection for its whole lifetime; the
//! host process runs it as one task that drains a bounded mailbox in strict
//! arrival order, so engine and switch state are never touched concurrently.
//!
//! The host performs the switch I/O: it hands each update request to
//! `handle_update` and issues the returned write batch in one switch call,
//! replying to the requester with the first error encountered.

use vstd::prelude::*;

use crate::engine::{ControllerProgram, batch_valid, delta_of, first_unknown};
use crate::errors::EngineError;
use crate::record::FactUpdate;
use crate::schema::TableSchema;
use crate::translate::{Diagnostic, TableWrite, translate, translation_of, writes_view};

verus! {

/// The control actor's private state: the engine facade it exclusively
/// owns.  The published table schema is read per request, since the
/// pipeline may be reconfigured between requests.
pub struct ControllerActor {
    pub program: ControllerProgram,
}

/// The engine log after one update request is processed by an actor that
/// is not stopped: a valid batch is committed whole, an invalid one leaves
/// the log unchanged.
pub open spec fn step_applied(
    applied: Seq<FactUpdate>,
    relations: u64,
    batch: Seq<FactUpdate>,
) -> Seq<FactUpdate> {
    if batch_valid(relations, batch) {
        applied + batch
    } else {
        applied
    }
}

impl ControllerActor {
    /// Takes exclusive ownership of the engine facade.
    pub fn new(program: ControllerProgram) -> (r: ControllerActor)
        ensures
            r.program == program,
    {
        ControllerActor { program }
    }

    /// Processes one update request to completion: applies the batch
    /// through the engine facade, translates the resulting delta against
    /// the published schema, and returns the write batch for the host to
    /// issue to the switch, with the translation's diagnostics.  On an
    /// engine error the log is unchanged and nothing is to be written.
    pub fn handle_update(&mut self, input: Vec<FactUpdate>, schemas: &Vec<TableSchema>) -> (r:
        Result<(Vec<TableWrite>, Vec<Diagnostic>), EngineError>)
        ensures
            final(self).program.relations == old(self).program.relations,
            final(self).program.stopped == old(self).program.stopped,
            !old(self).program.stopped ==> final(self).program.applied@ == step_applied(
                old(self).program.applied@,
                old(self).program.relations,
                input@,
            ),
            match r {
                Ok((ws, ds)) => {
                    &&& !old(self).program.stopped
                    &&& batch_valid(old(self).program.relations, input@)
                    &&& final(self).program.applied@ == old(self).program.applied@ + input@
                    &&& writes_view(ws@) == translation_of(delta_of(input@), schemas@).writes
                    &&& ds@ == translation_of(delta_of(input@), schemas@).diags
                },
                Err(e) => {
                    &&& final(self).program.applied@ == old(self).program.applied@
                    &&& if old(self).program.stopped {
                        e == EngineError::UseAfterStop
                    } else {
                        &&& first_unknown(old(self).program.relations, input@) matches Some(rid)
                            && e == EngineError::UnknownRelation(rid)
                        &&& !batch_valid(old(self).program.relations, input@)
                    }
                },
            },
    {
        match self.program.add_input(input) {
            Ok(delta) => {
                let (writes, diags) = translate(&delta, schemas);
                Ok((writes, diags))
            },
            Err(e) => Err(e),
        }
    }
}

/// Mailbox ordering: two update requests processed in arrival order leave
/// the engine log with the first batch's updates standing, in full, before
/// the second batch's — the first request's effects are applied completely
/// before the second's begin, never interleaved.
pub proof fn lemma_mailbox_order(
    applied: Seq<FactUpdate>,
    relations: u64,
    b1: Seq<FactUpdate>,
    b2: Seq<FactUpdate>,
)
    requires
        batch_valid(relations, b1),
        batch_valid(relations, b2),
    ensures
        step_applied(step_applied(applied, relations, b1), relations, b2) == applied + b1 + b2,
{
}

} // verus!
