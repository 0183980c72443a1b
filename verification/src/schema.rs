//! The schema resolver: given the switch's published table definitions and a
//! generic fact tag, find the best-matching table and action.
//!
//! Matching rule: a schema's qualified name is split on `.`; the resolver
//! accepts the first schema in iteration order whose trailing (unqualified)
//! name segment is a substring of the fact or action tag.  The rule is a
//! deliberately permissive heuristic tolerating naming drift between the
//! engine's relation names and the switch's published names; it can
//! multi-match or fail to match, and callers treat "no match" as "skip, do
//! not write", never as fatal.

use vstd::prelude::*;

use crate::text::{contains_seq, contains_substr, last_segment, tail_segment};

verus! {

/// One possible action of a switch table: its qualified name and the
/// ordered list of its parameter names.
pub struct ActionSchema {
    pub name: String,
    pub params: Vec<String>,
}

/// Published, read-only definition of one switch table for the lifetime of
/// one pipeline configuration: a qualified name, its match-field names, and
/// the actions it accepts.
pub struct TableSchema {
    pub name: String,
    pub match_fields: Vec<String>,
    pub actions: Vec<ActionSchema>,
}

/// The trailing segment of the table's qualified name is a substring of the
/// fact tag.
pub open spec fn table_matches(tag: Seq<char>, t: TableSchema) -> bool {
    contains_seq(tag, tail_segment(t.name@))
}

/// The trailing segment of the action's qualified name is a substring of
/// the action tag.
pub open spec fn action_matches(tag: Seq<char>, a: ActionSchema) -> bool {
    contains_seq(tag, tail_segment(a.name@))
}

/// The first table in iteration order that matches the fact tag.
pub open spec fn resolve_table_spec(tag: Seq<char>, ts: Seq<TableSchema>) -> Option<TableSchema>
    decreases ts.len(),
{
    if ts.len() == 0 {
        None
    } else if table_matches(tag, ts[0]) {
        Some(ts[0])
    } else {
        resolve_table_spec(tag, ts.drop_first())
    }
}

/// The first action in iteration order that matches the action tag.
pub open spec fn resolve_action_spec(tag: Seq<char>, acts: Seq<ActionSchema>) -> Option<
    ActionSchema,
>
    decreases acts.len(),
{
    if acts.len() == 0 {
        None
    } else if action_matches(tag, acts[0]) {
        Some(acts[0])
    } else {
        resolve_action_spec(tag, acts.drop_first())
    }
}

/// Resolution is exactly the substring heuristic on trailing name segments:
/// it fails precisely when no schema matches, and otherwise returns the
/// first matching schema in iteration order.
pub proof fn lemma_resolve_table_characterization(tag: Seq<char>, ts: Seq<TableSchema>)
    ensures
        resolve_table_spec(tag, ts) is None <==> forall|i: int|
            0 <= i < ts.len() ==> !table_matches(tag, #[trigger] ts[i]),
        resolve_table_spec(tag, ts) matches Some(t) ==> exists|i: int|
            0 <= i < ts.len() && #[trigger] ts[i] == t && table_matches(tag, t) && forall|j: int|
                0 <= j < i ==> !table_matches(tag, #[trigger] ts[j]),
    decreases ts.len(),
{
    if ts.len() != 0 {
        lemma_resolve_table_characterization(tag, ts.drop_first());
        if !table_matches(tag, ts[0]) {
            assert(forall|i: int|
                0 < i < ts.len() ==> #[trigger] ts[i] == ts.drop_first()[i - 1]);
            match resolve_table_spec(tag, ts) {
                Some(t) => {
                    let i0 = choose|i: int|
                        0 <= i < ts.drop_first().len() && #[trigger] ts.drop_first()[i] == t
                            && table_matches(tag, t) && forall|j: int|
                            0 <= j < i ==> !table_matches(tag, #[trigger] ts.drop_first()[j]);
                    assert(0 <= i0 + 1 < ts.len() && ts[i0 + 1] == t && table_matches(tag, t)
                        && forall|j: int|
                        0 <= j < i0 + 1 ==> !table_matches(tag, #[trigger] ts[j]));
                },
                None => {},
            }
        }
    }
}

/// The mirror statement for action resolution.
pub proof fn lemma_resolve_action_characterization(tag: Seq<char>, acts: Seq<ActionSchema>)
    ensures
        resolve_action_spec(tag, acts) is None <==> forall|i: int|
            0 <= i < acts.len() ==> !action_matches(tag, #[trigger] acts[i]),
        resolve_action_spec(tag, acts) matches Some(a) ==> exists|i: int|
            0 <= i < acts.len() && #[trigger] acts[i] == a && action_matches(tag, a) && forall|
                j: int,
            | 0 <= j < i ==> !action_matches(tag, #[trigger] acts[j]),
    decreases acts.len(),
{
    if acts.len() != 0 {
        lemma_resolve_action_characterization(tag, acts.drop_first());
        if !action_matches(tag, acts[0]) {
            assert(forall|i: int|
                0 < i < acts.len() ==> #[trigger] acts[i] == acts.drop_first()[i - 1]);
            match resolve_action_spec(tag, acts) {
                Some(a) => {
                    let i0 = choose|i: int|
                        0 <= i < acts.drop_first().len() && #[trigger] acts.drop_first()[i] == a
                            && action_matches(tag, a) && forall|j: int|
                            0 <= j < i ==> !action_matches(tag, #[trigger] acts.drop_first()[j]);
                    assert(0 <= i0 + 1 < acts.len() && acts[i0 + 1] == a && action_matches(tag, a)
                        && forall|j: int|
                        0 <= j < i0 + 1 ==> !action_matches(tag, #[trigger] acts[j]));
                },
                None => {},
            }
        }
    }
}

/// Finds the first published table whose trailing name segment is a
/// substring of the record's tag.
pub fn get_matching_table<'a>(record_name: &str, tables: &'a Vec<TableSchema>) -> (r: Option<
    &'a TableSchema,
>)
    ensures
        match r {
            Some(t) => resolve_table_spec(record_name@, tables@) == Some(*t),
            None => resolve_table_spec(record_name@, tables@) is None,
        },
{
    proof {
        assert(tables@.skip(0) =~= tables@);
    }
    let mut i: usize = 0;
    while i < tables.len()
        invariant
            i <= tables@.len(),
            resolve_table_spec(record_name@, tables@) == resolve_table_spec(
                record_name@,
                tables@.skip(i as int),
            ),
        decreases tables@.len() - i,
    {
        let t = &tables[i];
        proof {
            assert(tables@.skip(i as int)[0] == tables@[i as int]);
            assert(tables@.skip(i as int).drop_first() =~= tables@.skip(i + 1));
        }
        let seg = last_segment(t.name.as_str());
        if contains_substr(record_name, seg) {
            return Some(t);
        }
        i = i + 1;
    }
    proof {
        assert(tables@.skip(i as int) =~= Seq::<TableSchema>::empty());
    }
    None
}

/// Finds the qualified name of the first action of the table whose trailing
/// name segment is a substring of the record's action tag.
pub fn get_matching_action_name(record_name: &str, actions: &Vec<ActionSchema>) -> (r: Option<
    String,
>)
    ensures
        match r {
            Some(n) => resolve_action_spec(record_name@, actions@) matches Some(a) && n == a.name,
            None => resolve_action_spec(record_name@, actions@) is None,
        },
{
    proof {
        assert(actions@.skip(0) =~= actions@);
    }
    let mut i: usize = 0;
    while i < actions.len()
        invariant
            i <= actions@.len(),
            resolve_action_spec(record_name@, actions@) == resolve_action_spec(
                record_name@,
                actions@.skip(i as int),
            ),
        decreases actions@.len() - i,
    {
        let a = &actions[i];
        proof {
            assert(actions@.skip(i as int)[0] == actions@[i as int]);
            assert(actions@.skip(i as int).drop_first() =~= actions@.skip(i + 1));
        }
        let seg = last_segment(a.name.as_str());
        if contains_substr(record_name, seg) {
            return Some(a.name.clone());
        }
        i = i + 1;
    }
    proof {
        assert(actions@.skip(i as int) =~= Seq::<ActionSchema>::empty());
    }
    None
}

} // verus!
