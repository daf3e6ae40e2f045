//! The test-case store, exercised against real serde_json documents.

use autograder::report::TestCase;
use autograder::store::{
    build_cases, cases_from_value, get_cases_from_text, updated_store_text, StoreError,
};

const STORE: &str = r#"{
  "q1": [
    {"description": "adds", "input": "5 3", "expected_output": "8"},
    {"description": "adds negatives", "input": "-5 3", "expected_output": "-2"}
  ],
  "q2": []
}"#;

fn case(description: &str, input: &str, expected: &str) -> TestCase {
    TestCase {
        description: description.to_string(),
        input: input.to_string(),
        expected_output: expected.to_string(),
    }
}

#[test]
fn reads_cases_in_stored_order() {
    let cases = get_cases_from_text(STORE, "q1").expect("q1 is present");
    assert_eq!(cases.len(), 2);
    assert_eq!(cases[0], case("adds", "5 3", "8"));
    assert_eq!(cases[1], case("adds negatives", "-5 3", "-2"));
}

#[test]
fn reads_empty_entry() {
    let cases = get_cases_from_text(STORE, "q2").expect("q2 is present");
    assert!(cases.is_empty());
}

#[test]
fn missing_question_is_not_found() {
    assert_eq!(get_cases_from_text(STORE, "q99"), Err(StoreError::NotFound));
}

#[test]
fn broken_json_is_malformed() {
    match get_cases_from_text("{ not json", "q1") {
        Err(StoreError::Malformed { message }) => assert!(!message.is_empty()),
        other => panic!("expected a malformed store, got {:?}", other),
    }
}

#[test]
fn non_object_document_is_malformed() {
    match get_cases_from_text("[1, 2, 3]", "q1") {
        Err(StoreError::Malformed { message }) => {
            assert_eq!(message, "test case store is not a JSON object");
        }
        other => panic!("expected a malformed store, got {:?}", other),
    }
}

#[test]
fn non_array_entry_is_malformed() {
    match get_cases_from_text(r#"{"q1": "oops"}"#, "q1") {
        Err(StoreError::Malformed { message }) => {
            assert_eq!(message, "question entry is not a JSON array");
        }
        other => panic!("expected a malformed entry, got {:?}", other),
    }
}

#[test]
fn case_missing_field_is_malformed() {
    let text = r#"{"q1": [{"description": "d", "input": "i"}]}"#;
    match get_cases_from_text(text, "q1") {
        Err(StoreError::Malformed { message }) => {
            assert_eq!(message, "malformed test case entry");
        }
        other => panic!("expected a malformed case, got {:?}", other),
    }
}

#[test]
fn case_with_non_string_field_is_malformed() {
    let text = r#"{"q1": [{"description": "d", "input": 5, "expected_output": "x"}]}"#;
    assert!(matches!(
        get_cases_from_text(text, "q1"),
        Err(StoreError::Malformed { .. })
    ));
}

#[test]
fn unknown_case_fields_are_ignored() {
    let text = r#"{"q1": [{"description": "d", "input": "i", "expected_output": "e", "points": 10}]}"#;
    let cases = get_cases_from_text(text, "q1").expect("extra fields are ignored");
    assert_eq!(cases, vec![case("d", "i", "e")]);
}

#[test]
fn other_entries_do_not_block_the_requested_one() {
    let text = r#"{"q1": [{"description": "d", "input": "i", "expected_output": "e"}], "broken": 7}"#;
    let cases = get_cases_from_text(text, "q1").expect("only the requested entry is read");
    assert_eq!(cases.len(), 1);
}

#[test]
fn lookup_works_on_a_parsed_document() {
    let root: serde_json::Value = serde_json::from_str(STORE).expect("the store text parses");
    let cases = cases_from_value(&root, "q1").expect("q1 is present");
    assert_eq!(cases.len(), 2);
    assert_eq!(cases_from_value(&root, "q3"), Err(StoreError::NotFound));
}

#[test]
fn written_store_reads_back() {
    let cases = vec![case("a", "1", "one"), case("b", "2\n3", "five")];
    let text = updated_store_text("{}", "q7", &cases);
    let read = get_cases_from_text(&text, "q7").expect("the written entry reads back");
    assert_eq!(read, cases);
}

#[test]
fn update_keeps_other_questions() {
    let new_cases = vec![case("replacement", "x", "y")];
    let text = updated_store_text(STORE, "q2", &new_cases);
    assert_eq!(get_cases_from_text(&text, "q2").unwrap(), new_cases);
    // q1 is untouched by an edit of q2.
    let q1 = get_cases_from_text(&text, "q1").unwrap();
    assert_eq!(q1.len(), 2);
    assert_eq!(q1[0], case("adds", "5 3", "8"));
}

#[test]
fn update_replaces_the_edited_question() {
    let new_cases = vec![case("only one now", "in", "out")];
    let text = updated_store_text(STORE, "q1", &new_cases);
    assert_eq!(get_cases_from_text(&text, "q1").unwrap(), new_cases);
}

#[test]
fn update_of_unparsable_store_starts_fresh() {
    let cases = vec![case("a", "1", "one")];
    let text = updated_store_text("not json at all", "q1", &cases);
    assert_eq!(get_cases_from_text(&text, "q1").unwrap(), cases);
    assert_eq!(get_cases_from_text(&text, "q2"), Err(StoreError::NotFound));
}

#[test]
fn update_escapes_special_text() {
    // Text with quotes, backslashes and newlines survives the round trip.
    let cases = vec![case("say \"hi\"", "a\\b\nc", "tab\there")];
    let text = updated_store_text("{}", "q1", &cases);
    assert_eq!(get_cases_from_text(&text, "q1").unwrap(), cases);
}

#[test]
fn update_is_deterministic() {
    let cases = vec![case("a", "1", "one")];
    assert_eq!(
        updated_store_text(STORE, "q2", &cases),
        updated_store_text(STORE, "q2", &cases)
    );
}

#[test]
fn build_cases_stops_at_the_shortest_list() {
    let cases = build_cases(
        vec!["a".to_string(), "b".to_string(), "c".to_string()],
        vec!["1".to_string(), "2".to_string()],
        vec!["x".to_string(), "y".to_string(), "z".to_string()],
    );
    assert_eq!(cases, vec![case("a", "1", "x"), case("b", "2", "y")]);
}

#[test]
fn build_cases_of_nothing_is_empty() {
    assert!(build_cases(vec![], vec!["1".to_string()], vec![]).is_empty());
}
