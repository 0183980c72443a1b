//! The generic fact representation shared by the engine facade, the
//! translator and the digest path: a dynamically shaped value tree, a fact
//! update, and the relation delta produced by one transaction.

use vstd::prelude::*;

verus! {

/// A generic, dynamically shaped value tree used to traverse fact content
/// uniformly.  Every fact value carried by the engine converts losslessly
/// into one of these.
#[derive(Debug)]
pub enum Record {
    /// A tag name plus an ordered list of (field name, value) pairs.
    NamedStruct(String, Vec<(String, Record)>),
    Bool(bool),
    Int(i128),
    Str(String),
}

/// Whether a fact update inserts or retracts its fact.
#[derive(Clone, Copy, Debug, PartialEq, Eq, Structural)]
pub enum UpdateKind {
    Insert,
    Delete,
}

/// An insertion or retraction of one typed fact: a relation identifier plus
/// a value.  Constructed by callers or by digest decoding; consumed exactly
/// once by the engine facade.
#[derive(Debug)]
pub struct FactUpdate {
    pub kind: UpdateKind,
    pub relid: u64,
    pub value: Record,
}

/// The net change a fact update contributes to its relation: `1` for an
/// insertion, `-1` for a retraction.
pub open spec fn weight_of(kind: UpdateKind) -> i64 {
    match kind {
        UpdateKind::Insert => 1,
        UpdateKind::Delete => -1i64,
    }
}

/// The changes one transaction made to one relation: each fact value with
/// its net signed weight.
#[derive(Debug)]
pub struct DeltaEntry {
    pub relid: u64,
    pub facts: Vec<(Record, i64)>,
}

/// The net relation changes produced by one committed transaction, read once
/// by the translator and then discarded.
#[derive(Debug)]
pub struct Delta {
    pub entries: Vec<DeltaEntry>,
}

impl View for Delta {
    type V = Seq<(u64, Seq<(Record, i64)>)>;

    open spec fn view(&self) -> Seq<(u64, Seq<(Record, i64)>)> {
        Seq::new(self.entries@.len(), |i: int| (self.entries@[i].relid, self.entries@[i].facts@))
    }
}

impl Delta {
    /// Invariant of every delta the engine facade hands out: no recorded
    /// change has weight zero.
    pub open spec fn wf(&self) -> bool {
        forall|i: int, j: int|
            0 <= i < self@.len() && 0 <= j < self@[i].1.len() ==> (#[trigger] self@[i].1[j]).1 != 0
    }
}

} // verus!
