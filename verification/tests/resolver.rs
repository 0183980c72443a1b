//! Tests of the substring-based schema resolver and its string helpers.

use nerpa_controller::schema::{
    get_matching_action_name, get_matching_table, ActionSchema, TableSchema,
};
use nerpa_controller::text::{contains_substr, last_segment, str_eq};

fn table(name: &str) -> TableSchema {
    TableSchema { name: name.to_string(), match_fields: vec![], actions: vec![] }
}

#[test]
fn trailing_segment_substring_resolves() {
    let tables = vec![table("pipeline.stage.TableA")];
    let found = get_matching_table("TableA_0", &tables);
    assert!(found.is_some());
    assert_eq!(found.unwrap().name, "pipeline.stage.TableA");
}

#[test]
fn unrelated_tag_does_not_resolve() {
    let tables = vec![table("pipeline.stage.TableA")];
    assert!(get_matching_table("OtherTable", &tables).is_none());
}

#[test]
fn first_matching_table_wins() {
    let tables = vec![table("p.A.Port"), table("q.B.Port")];
    let found = get_matching_table("MyPort_3", &tables).unwrap();
    assert_eq!(found.name, "p.A.Port");
}

#[test]
fn unqualified_schema_name_matches_whole() {
    let tables = vec![table("Flood")];
    assert!(get_matching_table("FloodOut", &tables).is_some());
    assert!(get_matching_table("Drain", &tables).is_none());
}

#[test]
fn schema_name_ending_in_separator_matches_everything() {
    let tables = vec![table("oddly.named.")];
    assert!(get_matching_table("anything", &tables).is_some());
}

#[test]
fn action_resolution_returns_qualified_name() {
    let actions = vec![
        ActionSchema { name: "p.Stage.Drop".to_string(), params: vec![] },
        ActionSchema { name: "p.Stage.Forward".to_string(), params: vec!["port".to_string()] },
    ];
    let name = get_matching_action_name("Forward_1", &actions);
    assert_eq!(name, Some("p.Stage.Forward".to_string()));
}

#[test]
fn action_resolution_fails_without_match() {
    let actions = vec![ActionSchema { name: "p.Stage.Drop".to_string(), params: vec![] }];
    assert_eq!(get_matching_action_name("Forward_1", &actions), None);
}

#[test]
fn substring_search_finds_and_rejects() {
    assert!(contains_substr("TableA_0", "TableA"));
    assert!(contains_substr("abc", ""));
    assert!(contains_substr("abc", "abc"));
    assert!(!contains_substr("abc", "abcd"));
    assert!(!contains_substr("OtherTable", "TableA"));
}

#[test]
fn last_segment_takes_suffix_after_last_dot() {
    assert_eq!(last_segment("pipeline.stage.TableA"), "TableA");
    assert_eq!(last_segment("TableA"), "TableA");
    assert_eq!(last_segment("a.b."), "");
    assert_eq!(last_segment(""), "");
}

#[test]
fn string_equality_is_by_characters() {
    assert!(str_eq("action", "action"));
    assert!(!str_eq("action", "actions"));
    assert!(!str_eq("action", "priority"));
}
