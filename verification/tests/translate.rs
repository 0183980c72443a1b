//! End-to-end tests of the delta translator.

use nerpa_controller::record::{Delta, DeltaEntry, Record};
use nerpa_controller::schema::{ActionSchema, TableSchema};
use nerpa_controller::translate::{translate, Diagnostic, WriteOp};

fn sample_schemas() -> Vec<TableSchema> {
    vec![TableSchema {
        name: "p.Stage.TableA".to_string(),
        match_fields: vec!["key1".to_string()],
        actions: vec![ActionSchema {
            name: "p.Stage.ActionB".to_string(),
            params: vec!["param1".to_string()],
        }],
    }]
}

fn single_fact_delta(record: Record) -> Delta {
    Delta { entries: vec![DeltaEntry { relid: 0, facts: vec![(record, 1)] }] }
}

#[test]
fn translates_named_struct_to_one_write() {
    let record = Record::NamedStruct(
        "Stage.TableA".to_string(),
        vec![
            ("key1".to_string(), Record::Int(5)),
            (
                "action".to_string(),
                Record::NamedStruct(
                    "Stage.ActionB".to_string(),
                    vec![("param1".to_string(), Record::Int(7))],
                ),
            ),
        ],
    );
    let (writes, diags) = translate(&single_fact_delta(record), &sample_schemas());
    assert_eq!(writes.len(), 1);
    let w = &writes[0];
    assert!(matches!(w.op, WriteOp::Insert));
    assert_eq!(w.table, "p.Stage.TableA");
    assert_eq!(w.action, "p.Stage.ActionB");
    assert_eq!(w.matches, vec![("key1".to_string(), 5u16)]);
    assert_eq!(w.params, vec![("param1".to_string(), 7u16)]);
    assert_eq!(w.priority, 0);
    assert!(diags.is_empty());
}

#[test]
fn boolean_action_field_yields_no_write_and_a_diagnostic() {
    let record = Record::NamedStruct(
        "Stage.TableA".to_string(),
        vec![
            ("key1".to_string(), Record::Int(5)),
            ("action".to_string(), Record::Bool(true)),
        ],
    );
    let (writes, diags) = translate(&single_fact_delta(record), &sample_schemas());
    assert_eq!(writes.len(), 0);
    assert_eq!(diags, vec![Diagnostic::MalformedAction]);
}

#[test]
fn non_named_struct_record_yields_no_write() {
    let (writes, diags) = translate(&single_fact_delta(Record::Int(3)), &sample_schemas());
    assert_eq!(writes.len(), 0);
    assert_eq!(diags, vec![Diagnostic::NotNamedStruct]);
}

#[test]
fn unmatched_tag_yields_no_write_regardless_of_fields() {
    let record = Record::NamedStruct(
        "SomethingElse".to_string(),
        vec![
            ("key1".to_string(), Record::Int(5)),
            (
                "action".to_string(),
                Record::NamedStruct(
                    "Stage.ActionB".to_string(),
                    vec![("param1".to_string(), Record::Int(7))],
                ),
            ),
        ],
    );
    let (writes, diags) = translate(&single_fact_delta(record), &sample_schemas());
    assert_eq!(writes.len(), 0);
    assert_eq!(diags, vec![Diagnostic::UnresolvedTable]);
}

#[test]
fn unmatched_action_tag_yields_no_write_and_a_diagnostic() {
    let record = Record::NamedStruct(
        "Stage.TableA".to_string(),
        vec![
            ("key1".to_string(), Record::Int(5)),
            (
                "action".to_string(),
                Record::NamedStruct("NoSuchAction".to_string(), vec![]),
            ),
        ],
    );
    let (writes, diags) = translate(&single_fact_delta(record), &sample_schemas());
    assert_eq!(writes.len(), 0);
    assert_eq!(diags, vec![Diagnostic::UnresolvedAction]);
}

#[test]
fn priority_field_sets_the_priority() {
    let record = Record::NamedStruct(
        "Stage.TableA".to_string(),
        vec![
            ("key1".to_string(), Record::Int(5)),
            ("priority".to_string(), Record::Int(40)),
            (
                "action".to_string(),
                Record::NamedStruct("Stage.ActionB".to_string(), vec![]),
            ),
        ],
    );
    let (writes, diags) = translate(&single_fact_delta(record), &sample_schemas());
    assert_eq!(writes.len(), 1);
    assert_eq!(writes[0].priority, 40);
    assert_eq!(writes[0].matches, vec![("key1".to_string(), 5u16)]);
    assert_eq!(writes[0].params, Vec::<(String, u16)>::new());
    assert!(diags.is_empty());
}

#[test]
fn retraction_is_translated_like_an_insertion() {
    let record = Record::NamedStruct(
        "Stage.TableA".to_string(),
        vec![
            ("key1".to_string(), Record::Int(5)),
            (
                "action".to_string(),
                Record::NamedStruct("Stage.ActionB".to_string(), vec![]),
            ),
        ],
    );
    let delta = Delta { entries: vec![DeltaEntry { relid: 0, facts: vec![(record, -1)] }] };
    let (writes, _diags) = translate(&delta, &sample_schemas());
    assert_eq!(writes.len(), 1);
    assert!(matches!(writes[0].op, WriteOp::Insert));
}

#[test]
fn empty_delta_yields_nothing() {
    let delta = Delta { entries: vec![] };
    let (writes, diags) = translate(&delta, &sample_schemas());
    assert!(writes.is_empty());
    assert!(diags.is_empty());
}

#[test]
fn several_facts_translate_in_delta_order() {
    let mk = |key: i128| {
        Record::NamedStruct(
            "Stage.TableA".to_string(),
            vec![
                ("key1".to_string(), Record::Int(key)),
                (
                    "action".to_string(),
                    Record::NamedStruct("Stage.ActionB".to_string(), vec![]),
                ),
            ],
        )
    };
    let delta = Delta {
        entries: vec![
            DeltaEntry { relid: 0, facts: vec![(mk(1), 1), (mk(2), 1)] },
            DeltaEntry { relid: 1, facts: vec![(mk(3), 1)] },
        ],
    };
    let (writes, _diags) = translate(&delta, &sample_schemas());
    assert_eq!(writes.len(), 3);
    assert_eq!(writes[0].matches, vec![("key1".to_string(), 1u16)]);
    assert_eq!(writes[1].matches, vec![("key1".to_string(), 2u16)]);
    assert_eq!(writes[2].matches, vec![("key1".to_string(), 3u16)]);
}
