//! The engine facade: the single owner of the dataflow engine handle.  It
//! wraps a fact-update batch in a transaction and returns the net relation
//! delta; on failure it rolls back so that engine state is unchanged.
//!
//! The engine's own rule evaluation is an external collaborator; its
//! observable state here is the ordered log of committed fact updates, kept
//! as ghost state of the facade.  The host process forwards the same batches
//! to the running engine instance it owns.

use vstd::prelude::*;

use crate::errors::EngineError;
use crate::record::{Delta, DeltaEntry, FactUpdate, Record, UpdateKind, weight_of};

verus! {

/// The net relation delta a batch produces: one entry per update, carrying
/// the fact value with weight `1` for an insertion and `-1` for a
/// retraction.
pub open spec fn delta_of(batch: Seq<FactUpdate>) -> Seq<(u64, Seq<(Record, i64)>)>
    decreases batch.len(),
{
    if batch.len() == 0 {
        Seq::empty()
    } else {
        seq![(batch[0].relid, seq![(batch[0].value, weight_of(batch[0].kind))])] + delta_of(
            batch.drop_first(),
        )
    }
}

/// The relation identifier of the first update in `batch` that names a
/// relation the program does not declare, if any.
pub open spec fn first_unknown(relations: u64, batch: Seq<FactUpdate>) -> Option<u64>
    decreases batch.len(),
{
    if batch.len() == 0 {
        None
    } else if batch[0].relid >= relations {
        Some(batch[0].relid)
    } else {
        first_unknown(relations, batch.drop_first())
    }
}

/// Every update in `batch` names a declared relation.
pub open spec fn batch_valid(relations: u64, batch: Seq<FactUpdate>) -> bool {
    forall|i: int| 0 <= i < batch.len() ==> (#[trigger] batch[i]).relid < relations
}

/// `first_unknown` finds an offender exactly when the batch is invalid.
pub proof fn lemma_first_unknown_complete(relations: u64, batch: Seq<FactUpdate>)
    ensures
        first_unknown(relations, batch) is None <==> batch_valid(relations, batch),
    decreases batch.len(),
{
    if batch.len() != 0 {
        lemma_first_unknown_complete(relations, batch.drop_first());
        if first_unknown(relations, batch) is None {
            assert(forall|i: int|
                0 < i < batch.len() ==> (#[trigger] batch[i]) == batch.drop_first()[i - 1]);
        }
    }
}

/// The facade owning the engine handle.  `applied` is the model of engine
/// state: the ordered log of all fact updates committed so far.
pub struct ControllerProgram {
    /// Number of input relations the running program declares; an update
    /// naming a relation identifier at or above it is rejected.
    pub relations: u64,
    /// Model of the engine state: every update committed so far, in order.
    pub applied: Ghost<Seq<FactUpdate>>,
    /// Set once by `stop`; afterwards no apply is accepted.
    pub stopped: bool,
}

impl ControllerProgram {
    /// Takes ownership of a freshly started engine that declares
    /// `relations` input relations and has committed nothing yet.
    pub fn new(relations: u64) -> (r: ControllerProgram)
        ensures
            r.relations == relations,
            r.applied@ == Seq::<FactUpdate>::empty(),
            !r.stopped,
    {
        ControllerProgram { relations, applied: Ghost(Seq::empty()), stopped: false }
    }

    /// Applies a batch inside one transaction.  All-or-nothing: on success
    /// the whole batch is committed, in order, and the resulting delta is
    /// returned; on any failure the engine state is unchanged and a typed
    /// error names the cause.  Success is owed exactly when the facade is
    /// not stopped and every update names a declared relation.
    pub fn add_input(&mut self, updates: Vec<FactUpdate>) -> (r: Result<Delta, EngineError>)
        ensures
            final(self).relations == old(self).relations,
            final(self).stopped == old(self).stopped,
            match r {
                Ok(delta) => {
                    &&& !old(self).stopped
                    &&& batch_valid(old(self).relations, updates@)
                    &&& final(self).applied@ == old(self).applied@ + updates@
                    &&& delta@ == delta_of(updates@)
                    &&& delta.wf()
                },
                Err(e) => {
                    &&& final(self).applied@ == old(self).applied@
                    &&& if old(self).stopped {
                        e == EngineError::UseAfterStop
                    } else {
                        &&& first_unknown(old(self).relations, updates@) matches Some(rid)
                            && e == EngineError::UnknownRelation(rid)
                        &&& !batch_valid(old(self).relations, updates@)
                    }
                },
            },
    {
        if self.stopped {
            return Err(EngineError::UseAfterStop);
        }
        let ghost all = updates@;
        proof {
            assert(all.skip(0) =~= all);
        }
        let mut i: usize = 0;
        while i < updates.len()
            invariant
                self.relations == old(self).relations,
                self.stopped == old(self).stopped,
                self.applied == old(self).applied,
                !self.stopped,
                i <= updates.len(),
                updates@ == all,
                first_unknown(self.relations, all) == first_unknown(self.relations, all.skip(i as int)),
                forall|j: int| 0 <= j < i ==> (#[trigger] all[j]).relid < self.relations,
            decreases updates.len() - i,
        {
            let u = &updates[i];
            proof {
                assert(all.skip(i as int)[0] == all[i as int]);
                assert(all.skip(i as int).drop_first() =~= all.skip(i + 1));
            }
            if u.relid >= self.relations {
                proof {
                    assert(first_unknown(self.relations, all.skip(i as int)) == Some(u.relid));
                    lemma_first_unknown_complete(self.relations, all);
                }
                return Err(EngineError::UnknownRelation(u.relid));
            }
            i = i + 1;
        }
        proof {
            assert(all.skip(i as int) =~= Seq::<FactUpdate>::empty());
            lemma_first_unknown_complete(self.relations, all);
        }
        // The batch is valid: commit it, then report its net delta.
        self.applied = Ghost(self.applied@ + all);
        let mut entries: Vec<DeltaEntry> = Vec::new();
        let mut rest = updates;
        while rest.len() > 0
            invariant
                self.relations == old(self).relations,
                self.stopped == old(self).stopped,
                !self.stopped,
                self.applied@ == old(self).applied@ + all,
                batch_valid(self.relations, all),
                entries_view(entries@) + delta_of(rest@) == delta_of(all),
                forall|k: int, l: int|
                    0 <= k < entries@.len() && 0 <= l < entries@[k].facts@.len()
                        ==> (#[trigger] entries@[k].facts@[l]).1 != 0,
            decreases rest.len(),
        {
            let ghost pre = rest@;
            let u = rest.remove(0);
            let w: i64 = match u.kind {
                UpdateKind::Insert => 1,
                UpdateKind::Delete => -1,
            };
            let entry = DeltaEntry { relid: u.relid, facts: vec![(u.value, w)] };
            proof {
                assert(pre.remove(0) =~= pre.drop_first());
            }
            let ghost old_entries = entries@;
            entries.push(entry);
            proof {
                assert(entries_view(entries@) =~= entries_view(old_entries).push(
                    (entry.relid, entry.facts@),
                ));
                assert(entry.facts@ =~= seq![(pre[0].value, weight_of(pre[0].kind))]);
                assert(entries_view(old_entries).push((entry.relid, entry.facts@)) + delta_of(
                    pre.drop_first(),
                ) =~= entries_view(old_entries) + delta_of(pre));
            }
        }
        proof {
            assert(delta_of(rest@) =~= Seq::<(u64, Seq<(Record, i64)>)>::empty());
            assert(entries_view(entries@) =~= delta_of(all));
        }
        let delta = Delta { entries };
        proof {
            assert(delta@ =~= entries_view(delta.entries@));
        }
        Ok(delta)
    }

    /// Releases the engine handle.  Must be called at most once; afterwards
    /// every `add_input` fails with `UseAfterStop` and commits nothing.
    pub fn stop(&mut self)
        requires
            !old(self).stopped,
        ensures
            final(self).stopped,
            final(self).relations == old(self).relations,
            final(self).applied@ == old(self).applied@,
    {
        self.stopped = true;
    }
}

/// The delta view of a sequence of built entries.
pub open spec fn entries_view(entries: Seq<DeltaEntry>) -> Seq<(u64, Seq<(Record, i64)>)> {
    Seq::new(entries.len(), |i: int| (entries[i].relid, entries[i].facts@))
}

} // verus!
