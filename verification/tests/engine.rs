//! Tests of the transactional engine facade.

use nerpa_controller::engine::ControllerProgram;
use nerpa_controller::errors::EngineError;
use nerpa_controller::record::{FactUpdate, Record, UpdateKind};

fn insert(relid: u64, value: Record) -> FactUpdate {
    FactUpdate { kind: UpdateKind::Insert, relid, value }
}

#[test]
fn successful_apply_returns_one_entry_per_update() {
    let mut program = ControllerProgram::new(4);
    let batch = vec![
        insert(1, Record::Bool(true)),
        FactUpdate { kind: UpdateKind::Delete, relid: 2, value: Record::Int(9) },
    ];
    let delta = program.add_input(batch).expect("valid batch applies");
    assert_eq!(delta.entries.len(), 2);
    assert_eq!(delta.entries[0].relid, 1);
    assert_eq!(delta.entries[0].facts.len(), 1);
    assert_eq!(delta.entries[0].facts[0].1, 1);
    assert_eq!(delta.entries[1].relid, 2);
    assert_eq!(delta.entries[1].facts[0].1, -1);
}

#[test]
fn empty_batch_commits_an_empty_delta() {
    let mut program = ControllerProgram::new(1);
    let delta = program.add_input(vec![]).expect("empty batch applies");
    assert!(delta.entries.is_empty());
}

#[test]
fn unknown_relation_rejects_the_whole_batch() {
    let mut program = ControllerProgram::new(2);
    let batch = vec![insert(0, Record::Bool(true)), insert(7, Record::Bool(false))];
    let err = program.add_input(batch).expect_err("invalid batch is rejected");
    assert_eq!(err, EngineError::UnknownRelation(7));
}

#[test]
fn first_unknown_relation_is_reported() {
    let mut program = ControllerProgram::new(2);
    let batch = vec![insert(9, Record::Int(1)), insert(7, Record::Int(2))];
    let err = program.add_input(batch).expect_err("invalid batch is rejected");
    assert_eq!(err, EngineError::UnknownRelation(9));
}

#[test]
fn apply_after_stop_fails_with_use_after_stop() {
    let mut program = ControllerProgram::new(2);
    program.stop();
    let err = program.add_input(vec![insert(0, Record::Bool(true))]).expect_err("stopped");
    assert_eq!(err, EngineError::UseAfterStop);
}

#[test]
fn failed_apply_leaves_later_applies_unaffected() {
    let mut program = ControllerProgram::new(2);
    let err = program.add_input(vec![insert(5, Record::Int(1))]);
    assert!(err.is_err());
    let delta = program.add_input(vec![insert(1, Record::Int(1))]).expect("still usable");
    assert_eq!(delta.entries.len(), 1);
}
