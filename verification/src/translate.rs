//! The delta translator: converts an engine delta into a batch of switch
//! table-write operations, using the schema resolver for table and action
//! names and a fixed scalar coercion rule for field values.
//!
//! The translation is a pure transformation.  Per fact value: the fact must
//! be a named struct, its tag must resolve to a published table, and its
//! `action` field must be a named struct whose tag resolves to one of that
//! table's actions; otherwise the fact contributes no write (a silent drop
//! reported through diagnostics, never an error).  Retractions are
//! translated the same way as insertions: every emitted write is an insert.

use vstd::prelude::*;

use crate::record::{Delta, Record};
use crate::schema::{
    ActionSchema, TableSchema, get_matching_action_name, get_matching_table, resolve_action_spec,
    resolve_table_spec,
};
use crate::text::str_eq;

verus! {

/// Operation kind of a table-entry mutation.
#[derive(Clone, Copy, Debug, PartialEq, Eq, Structural)]
pub enum WriteOp {
    Insert,
    Delete,
}

/// A fully resolved switch table-entry mutation: concrete table and action
/// names, match-field and parameter values, and a priority.  Built here,
/// consumed by the switch write call, never persisted.
///
/// `matches` and `params` are association lists in record field order; a
/// reader takes the last binding of a repeated name.
#[derive(Debug)]
pub struct TableWrite {
    pub op: WriteOp,
    pub table: String,
    pub action: String,
    pub matches: Vec<(String, u16)>,
    pub params: Vec<(String, u16)>,
    pub priority: i32,
}

/// The mathematical value of a `TableWrite`.
#[verifier::ext_equal]
pub ghost struct TableWriteV {
    pub op: WriteOp,
    pub table: Seq<char>,
    pub action: Seq<char>,
    pub matches: Seq<(Seq<char>, u16)>,
    pub params: Seq<(Seq<char>, u16)>,
    pub priority: int,
}

/// The mathematical value of an association list of 16-bit values.
pub open spec fn pairs_view(v: Seq<(String, u16)>) -> Seq<(Seq<char>, u16)> {
    Seq::new(v.len(), |i: int| (v[i].0@, v[i].1))
}

impl View for TableWrite {
    type V = TableWriteV;

    open spec fn view(&self) -> TableWriteV {
        TableWriteV {
            op: self.op,
            table: self.table@,
            action: self.action@,
            matches: pairs_view(self.matches@),
            params: pairs_view(self.params@),
            priority: self.priority as int,
        }
    }
}

/// A condition that made a fact, or part of one, contribute nothing to the
/// write batch.  Non-fatal: the fact is skipped, and the condition is
/// reported alongside the writes.
#[derive(Clone, Copy, Debug, PartialEq, Eq, Structural)]
pub enum Diagnostic {
    /// The fact's record was not a named struct.
    NotNamedStruct,
    /// No published table name matched the record's tag.
    UnresolvedTable,
    /// An `action` field was not itself a named struct.
    MalformedAction,
    /// The `action` field's tag matched none of the table's actions.
    UnresolvedAction,
}

/// Scalar coercion of a record to a 16-bit value: `true` is 1 and `false`
/// is 0; an integer is taken as is when it fits, and 0 otherwise; any other
/// variant is 1.  The rule is lossy by design and kept exactly for
/// compatibility.
pub open spec fn coerce_spec(r: Record) -> u16 {
    match r {
        Record::Bool(b) => if b {
            1
        } else {
            0
        },
        Record::Int(i) => if 0 <= i <= 65535 {
            i as u16
        } else {
            0
        },
        _ => 1,
    }
}

/// Coerces one record to a 16-bit scalar, following `coerce_spec` exactly
/// on every input.
pub fn extract_record_value(r: &Record) -> (v: u16)
    ensures
        v == coerce_spec(*r),
{
    match r {
        Record::Bool(b) => if *b {
            1
        } else {
            0
        },
        Record::Int(i) => if 0 <= *i && *i <= 65535 {
            *i as u16
        } else {
            0
        },
        _ => 1,
    }
}

/// State of the walk over a named struct's fields: the action name resolved
/// so far (empty when none), the match-key and parameter lists, the
/// priority, and the diagnostics reported on the way.
#[verifier::ext_equal]
pub ghost struct FieldWalk {
    pub action: Seq<char>,
    pub matches: Seq<(Seq<char>, u16)>,
    pub params: Seq<(Seq<char>, u16)>,
    pub priority: int,
    pub diags: Seq<Diagnostic>,
}

/// The walk's starting state: nothing resolved, nothing collected.
pub open spec fn initial_walk() -> FieldWalk {
    FieldWalk {
        action: Seq::empty(),
        matches: Seq::empty(),
        params: Seq::empty(),
        priority: 0,
        diags: Seq::empty(),
    }
}

/// The parameter bindings contributed by one action struct's fields: each
/// field's name with its coerced value, in order.
pub open spec fn params_of(afields: Seq<(String, Record)>) -> Seq<(Seq<char>, u16)> {
    Seq::new(afields.len(), |i: int| (afields[i].0@, coerce_spec(afields[i].1)))
}

/// One step of the field walk.  A field named `action` must be a named
/// struct: its tag is resolved against the table's actions and its fields
/// become parameter bindings.  A field named `priority` is coerced to the
/// priority.  Every other field becomes a match-key binding.
pub open spec fn walk_field(
    acc: FieldWalk,
    field: (String, Record),
    actions: Seq<ActionSchema>,
) -> FieldWalk {
    if field.0@ == "action"@ {
        match field.1 {
            Record::NamedStruct(atag, afields) => FieldWalk {
                action: match resolve_action_spec(atag@, actions) {
                    Some(a) => a.name@,
                    None => Seq::empty(),
                },
                matches: acc.matches,
                params: acc.params + params_of(afields@),
                priority: acc.priority,
                diags: match resolve_action_spec(atag@, actions) {
                    Some(a) => acc.diags,
                    None => acc.diags.push(Diagnostic::UnresolvedAction),
                },
            },
            _ => FieldWalk {
                action: acc.action,
                matches: acc.matches,
                params: acc.params,
                priority: acc.priority,
                diags: acc.diags.push(Diagnostic::MalformedAction),
            },
        }
    } else if field.0@ == "priority"@ {
        FieldWalk {
            action: acc.action,
            matches: acc.matches,
            params: acc.params,
            priority: coerce_spec(field.1) as int,
            diags: acc.diags,
        }
    } else {
        FieldWalk {
            action: acc.action,
            matches: acc.matches.push((field.0@, coerce_spec(field.1))),
            params: acc.params,
            priority: acc.priority,
            diags: acc.diags,
        }
    }
}

/// The field walk over a whole field list, in order.
pub open spec fn walk_fields(
    acc: FieldWalk,
    fields: Seq<(String, Record)>,
    actions: Seq<ActionSchema>,
) -> FieldWalk
    decreases fields.len(),
{
    if fields.len() == 0 {
        acc
    } else {
        walk_fields(walk_field(acc, fields[0], actions), fields.drop_first(), actions)
    }
}

/// What one fact record contributes to the translation: at most one write,
/// plus diagnostics.
#[verifier::ext_equal]
pub ghost struct RecordOutcome {
    pub write: Option<TableWriteV>,
    pub diags: Seq<Diagnostic>,
}

/// Translation of one fact record.  A write is emitted only when the record
/// is a named struct, its tag resolves to a table with a non-empty name,
/// and the field walk resolved a non-empty action name.
pub open spec fn record_outcome(rec: Record, schemas: Seq<TableSchema>) -> RecordOutcome {
    match rec {
        Record::NamedStruct(tag, fields) => match resolve_table_spec(tag@, schemas) {
            Some(t) => {
                let w = walk_fields(initial_walk(), fields@, t.actions@);
                RecordOutcome {
                    write: if t.name@.len() > 0 && w.action.len() > 0 {
                        Some(
                            TableWriteV {
                                op: WriteOp::Insert,
                                table: t.name@,
                                action: w.action,
                                matches: w.matches,
                                params: w.params,
                                priority: w.priority,
                            },
                        )
                    } else {
                        None
                    },
                    diags: w.diags,
                }
            },
            None => RecordOutcome { write: None, diags: seq![Diagnostic::UnresolvedTable] },
        },
        _ => RecordOutcome { write: None, diags: seq![Diagnostic::NotNamedStruct] },
    }
}

/// A record that is not a named struct never contributes a write.
pub proof fn lemma_non_struct_no_write(rec: Record, schemas: Seq<TableSchema>)
    requires
        !(rec is NamedStruct),
    ensures
        record_outcome(rec, schemas).write is None,
{
}

/// A named-struct record whose tag matches no published table never
/// contributes a write, regardless of its field content.
pub proof fn lemma_unmatched_tag_no_write(rec: Record, schemas: Seq<TableSchema>)
    requires
        rec matches Record::NamedStruct(tag, fields) && forall|i: int|
            0 <= i < schemas.len() ==> !crate::schema::table_matches(
                tag@,
                #[trigger] schemas[i],
            ),
    ensures
        record_outcome(rec, schemas).write is None,
{
    match rec {
        Record::NamedStruct(tag, _) => {
            crate::schema::lemma_resolve_table_characterization(tag@, schemas);
        },
        _ => {},
    }
}

/// Translates one fact record: the write it contributes, if any, and the
/// diagnostics the walk reported.
pub fn translate_record(rec: &Record, schemas: &Vec<TableSchema>) -> (r: (
    Option<TableWrite>,
    Vec<Diagnostic>,
))
    ensures
        match r.0 {
            Some(tw) => record_outcome(*rec, schemas@).write == Some(tw@),
            None => record_outcome(*rec, schemas@).write is None,
        },
        r.1@ == record_outcome(*rec, schemas@).diags,
{
    match rec {
        Record::NamedStruct(tag, fields) => {
            match get_matching_table(tag.as_str(), schemas) {
                Some(t) => {
                    let ghost actions_g = t.actions@;
                    let mut action_name: String = String::new();
                    let mut match_keys: Vec<(String, u16)> = Vec::new();
                    let mut action_params: Vec<(String, u16)> = Vec::new();
                    let mut priority: i32 = 0;
                    let mut diags: Vec<Diagnostic> = Vec::new();
                    proof {
                        assert(fields@.skip(0) =~= fields@);
                        assert(FieldWalk {
                            action: action_name@,
                            matches: pairs_view(match_keys@),
                            params: pairs_view(action_params@),
                            priority: priority as int,
                            diags: diags@,
                        } =~= initial_walk());
                    }
                    let mut i: usize = 0;
                    while i < fields.len()
                        invariant
                            i <= fields@.len(),
                            0 <= priority <= 65535,
                            actions_g == t.actions@,
                            resolve_table_spec(tag@, schemas@) == Some(*t),
                            walk_fields(
                                FieldWalk {
                                    action: action_name@,
                                    matches: pairs_view(match_keys@),
                                    params: pairs_view(action_params@),
                                    priority: priority as int,
                                    diags: diags@,
                                },
                                fields@.skip(i as int),
                                actions_g,
                            ) == walk_fields(initial_walk(), fields@, actions_g),
                        decreases fields@.len() - i,
                    {
                        let ghost acc_pre = FieldWalk {
                            action: action_name@,
                            matches: pairs_view(match_keys@),
                            params: pairs_view(action_params@),
                            priority: priority as int,
                            diags: diags@,
                        };
                        proof {
                            assert(fields@.skip(i as int)[0] == fields@[i as int]);
                            assert(fields@.skip(i as int).drop_first() =~= fields@.skip(i + 1));
                        }
                        let f = &fields[i];
                        if str_eq(f.0.as_str(), "action") {
                            match &f.1 {
                                Record::NamedStruct(atag, afields) => {
                                    match get_matching_action_name(atag.as_str(), &t.actions) {
                                        Some(n) => {
                                            action_name = n;
                                        },
                                        None => {
                                            action_name = String::new();
                                            diags.push(Diagnostic::UnresolvedAction);
                                        },
                                    }
                                    let ghost params_pre = action_params@;
                                    proof {
                                        assert(params_of(afields@.take(0)) =~= Seq::<
                                            (Seq<char>, u16),
                                        >::empty());
                                        assert(pairs_view(action_params@) =~= pairs_view(
                                            params_pre,
                                        ) + params_of(afields@.take(0)));
                                    }
                                    let mut j: usize = 0;
                                    while j < afields.len()
                                        invariant
                                            j <= afields@.len(),
                                            pairs_view(action_params@) == pairs_view(params_pre)
                                                + params_of(afields@.take(j as int)),
                                        decreases afields@.len() - j,
                                    {
                                        let af = &afields[j];
                                        let pkey = af.0.clone();
                                        let pval = extract_record_value(&af.1);
                                        let ghost before_push = action_params@;
                                        action_params.push((pkey, pval));
                                        proof {
                                            assert(pairs_view(action_params@) =~= pairs_view(
                                                before_push,
                                            ).push((afields@[j as int].0@, coerce_spec(afields@[j as int].1))));
                                            assert(params_of(afields@.take(j + 1)) =~= params_of(
                                                afields@.take(j as int),
                                            ).push((afields@[j as int].0@, coerce_spec(afields@[j as int].1))));
                                            assert(pairs_view(action_params@) =~= pairs_view(
                                                params_pre,
                                            ) + params_of(afields@.take(j + 1)));
                                        }
                                        j = j + 1;
                                    }
                                    proof {
                                        assert(afields@.take(afields@.len() as int) =~= afields@);
                                    }
                                },
                                _ => {
                                    diags.push(Diagnostic::MalformedAction);
                                },
                            }
                        } else if str_eq(f.0.as_str(), "priority") {
                            priority = extract_record_value(&f.1) as i32;
                        } else {
                            let mkey = f.0.clone();
                            let mval = extract_record_value(&f.1);
                            let ghost before_push = match_keys@;
                            match_keys.push((mkey, mval));
                            proof {
                                assert(pairs_view(match_keys@) =~= pairs_view(before_push).push(
                                    (fields@[i as int].0@, coerce_spec(fields@[i as int].1)),
                                ));
                            }
                        }
                        proof {
                            let acc_post = FieldWalk {
                                action: action_name@,
                                matches: pairs_view(match_keys@),
                                params: pairs_view(action_params@),
                                priority: priority as int,
                                diags: diags@,
                            };
                            assert(acc_post =~~= walk_field(acc_pre, fields@[i as int], actions_g));
                        }
                        i = i + 1;
                    }
                    proof {
                        assert(fields@.skip(fields@.len() as int) =~= Seq::<
                            (String, Record),
                        >::empty());
                    }
                    let table_name = t.name.clone();
                    if !table_name.as_str().is_empty() && !action_name.as_str().is_empty() {
                        let tw = TableWrite {
                            op: WriteOp::Insert,
                            table: table_name,
                            action: action_name,
                            matches: match_keys,
                            params: action_params,
                            priority,
                        };
                        proof {
                            let w = walk_fields(initial_walk(), fields@, actions_g);
                            assert(tw@ =~= TableWriteV {
                                op: WriteOp::Insert,
                                table: t.name@,
                                action: w.action,
                                matches: w.matches,
                                params: w.params,
                                priority: w.priority,
                            });
                        }
                        (Some(tw), diags)
                    } else {
                        (None, diags)
                    }
                },
                None => {
                    let d = vec![Diagnostic::UnresolvedTable];
                    proof {
                        assert(d@ =~= seq![Diagnostic::UnresolvedTable]);
                    }
                    (None, d)
                },
            }
        },
        _ => {
            let d = vec![Diagnostic::NotNamedStruct];
            proof {
                assert(d@ =~= seq![Diagnostic::NotNamedStruct]);
            }
            (None, d)
        },
    }
}

/// The accumulated result of a translation: the write batch and the
/// diagnostics, each in emission order.
#[verifier::ext_equal]
pub ghost struct TranslationV {
    pub writes: Seq<TableWriteV>,
    pub diags: Seq<Diagnostic>,
}

/// The empty translation.
pub open spec fn empty_translation() -> TranslationV {
    TranslationV { writes: Seq::empty(), diags: Seq::empty() }
}

/// Appends one record's outcome to an accumulated translation.
pub open spec fn outcome_append(
    t: TranslationV,
    rec: Record,
    schemas: Seq<TableSchema>,
) -> TranslationV {
    let o = record_outcome(rec, schemas);
    TranslationV {
        writes: match o.write {
            Some(w) => t.writes.push(w),
            None => t.writes,
        },
        diags: t.diags + o.diags,
    }
}

/// Folds one relation's fact changes, in order, into a translation.
pub open spec fn facts_translation(
    t: TranslationV,
    facts: Seq<(Record, i64)>,
    schemas: Seq<TableSchema>,
) -> TranslationV
    decreases facts.len(),
{
    if facts.len() == 0 {
        t
    } else {
        facts_translation(outcome_append(t, facts[0].0, schemas), facts.drop_first(), schemas)
    }
}

/// Folds a whole delta, relation by relation, into a translation.
pub open spec fn delta_translation(
    t: TranslationV,
    entries: Seq<(u64, Seq<(Record, i64)>)>,
    schemas: Seq<TableSchema>,
) -> TranslationV
    decreases entries.len(),
{
    if entries.len() == 0 {
        t
    } else {
        delta_translation(facts_translation(t, entries[0].1, schemas), entries.drop_first(), schemas)
    }
}

/// The translation of a delta against the published schema.
pub open spec fn translation_of(
    entries: Seq<(u64, Seq<(Record, i64)>)>,
    schemas: Seq<TableSchema>,
) -> TranslationV {
    delta_translation(empty_translation(), entries, schemas)
}

/// The mathematical value of a built write batch.
pub open spec fn writes_view(ws: Seq<TableWrite>) -> Seq<TableWriteV> {
    Seq::new(ws.len(), |i: int| ws[i]@)
}

/// Converts an engine delta into the batch of switch table writes it calls
/// for, with the diagnostics of every skipped fact.  Pure: the caller
/// issues the batch to the switch in one write call.
pub fn translate(delta: &Delta, schemas: &Vec<TableSchema>) -> (r: (Vec<TableWrite>, Vec<Diagnostic>))
    ensures
        writes_view(r.0@) == translation_of(delta@, schemas@).writes,
        r.1@ == translation_of(delta@, schemas@).diags,
{
    let mut writes: Vec<TableWrite> = Vec::new();
    let mut diags: Vec<Diagnostic> = Vec::new();
    proof {
        assert(delta@.skip(0) =~= delta@);
        assert(writes_view(writes@) =~= Seq::<TableWriteV>::empty());
        assert(TranslationV { writes: writes_view(writes@), diags: diags@ } =~= empty_translation());
    }
    let mut i: usize = 0;
    while i < delta.entries.len()
        invariant
            i <= delta.entries@.len(),
            delta_translation(
                TranslationV { writes: writes_view(writes@), diags: diags@ },
                delta@.skip(i as int),
                schemas@,
            ) == translation_of(delta@, schemas@),
        decreases delta.entries@.len() - i,
    {
        let ghost cur_start = TranslationV { writes: writes_view(writes@), diags: diags@ };
        proof {
            assert(delta@.skip(i as int)[0] == delta@[i as int]);
            assert(delta@.skip(i as int).drop_first() =~= delta@.skip(i + 1));
        }
        let entry = &delta.entries[i];
        let ghost facts_g = entry.facts@;
        proof {
            assert(facts_g.skip(0) =~= facts_g);
        }
        let mut j: usize = 0;
        while j < entry.facts.len()
            invariant
                j <= facts_g.len(),
                entry.facts@ == facts_g,
                facts_translation(
                    TranslationV { writes: writes_view(writes@), diags: diags@ },
                    facts_g.skip(j as int),
                    schemas@,
                ) == facts_translation(cur_start, facts_g, schemas@),
            decreases facts_g.len() - j,
        {
            let ghost cur_pre = TranslationV { writes: writes_view(writes@), diags: diags@ };
            proof {
                assert(facts_g.skip(j as int)[0] == facts_g[j as int]);
                assert(facts_g.skip(j as int).drop_first() =~= facts_g.skip(j + 1));
            }
            let fact = &entry.facts[j];
            let (w_opt, mut fact_diags) = translate_record(&fact.0, schemas);
            let ghost diags_pre = diags@;
            diags.append(&mut fact_diags);
            match w_opt {
                Some(tw) => {
                    let ghost writes_pre = writes@;
                    writes.push(tw);
                    proof {
                        assert(writes_view(writes@) =~= writes_view(writes_pre).push(tw@));
                    }
                },
                None => {},
            }
            proof {
                let cur_post = TranslationV { writes: writes_view(writes@), diags: diags@ };
                assert(cur_post =~= outcome_append(cur_pre, facts_g[j as int].0, schemas@));
            }
            j = j + 1;
        }
        proof {
            assert(facts_g.skip(facts_g.len() as int) =~= Seq::<(Record, i64)>::empty());
        }
        i = i + 1;
    }
    proof {
        assert(delta@.skip(delta@.len() as int) =~= Seq::<(u64, Seq<(Record, i64)>)>::empty());
        assert(delta.entries@.len() == delta@.len());
    }
    (writes, diags)
}

} // verus!
