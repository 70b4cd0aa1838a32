use atomic_search::dedupe::{admit_subject, dedupe_values, holds};
use atomic_search::error::SearchError;
use atomic_search::index::FieldValue;

fn text(s: &str) -> FieldValue {
    FieldValue::Text(s.to_string())
}

fn strings(items: &[&str]) -> Vec<String> {
    items.iter().map(|s| s.to_string()).collect()
}

#[test]
fn no_matches_give_no_subjects() {
    assert_eq!(dedupe_values(&vec![]), Ok(Vec::<String>::new()));
}

#[test]
fn distinct_subjects_are_all_kept_in_order() {
    let values = vec![text("c"), text("a"), text("b")];
    assert_eq!(dedupe_values(&values), Ok(strings(&["c", "a", "b"])));
}

#[test]
fn a_repeated_subject_stays_at_its_first_place() {
    let values = vec![text("a"), text("b"), text("a"), text("c"), text("b"), text("a")];
    assert_eq!(dedupe_values(&values), Ok(strings(&["a", "b", "c"])));
}

#[test]
fn the_same_subject_throughout_gives_one() {
    let values = vec![text("a"), text("a"), text("a")];
    assert_eq!(dedupe_values(&values), Ok(strings(&["a"])));
}

#[test]
fn ten_distinct_subjects_give_ten() {
    let values: Vec<FieldValue> = (0..10).map(|i| text(&format!("https://localhost/{}", i))).collect();
    let subjects = dedupe_values(&values).unwrap();
    assert_eq!(subjects.len(), 10);
    for (i, subject) in subjects.iter().enumerate() {
        assert_eq!(subject, &format!("https://localhost/{}", i));
    }
}

#[test]
fn the_result_is_a_subsequence_that_is_never_longer() {
    let names = ["b", "a", "b", "c", "a", "d", "d", "b", "e", "a"];
    let values: Vec<FieldValue> = names.iter().map(|s| text(s)).collect();
    let subjects = dedupe_values(&values).unwrap();
    assert!(subjects.len() <= values.len());
    let mut from = 0;
    for subject in &subjects {
        let at = names[from..].iter().position(|n| n == subject).unwrap() + from;
        assert_eq!(names[..at].iter().filter(|n| *n == subject).count(), 0);
        from = at + 1;
    }
    for name in names {
        assert_eq!(subjects.iter().filter(|s| s.as_str() == name).count(), 1);
    }
}

#[test]
fn subjects_differ_by_case_and_by_trailing_characters() {
    let values = vec![text("a"), text("A"), text("a "), text("a")];
    assert_eq!(dedupe_values(&values), Ok(strings(&["a", "A", "a "])));
}

#[test]
fn a_value_that_is_no_string_is_a_schema_violation() {
    let values = vec![text("a"), FieldValue::Other, text("b")];
    assert_eq!(dedupe_values(&values), Err(SearchError::SchemaViolation));
}

#[test]
fn a_document_without_a_subject_is_a_schema_violation() {
    let values = vec![FieldValue::Missing];
    assert_eq!(dedupe_values(&values), Err(SearchError::SchemaViolation));
    let values = vec![text("a"), text("a"), FieldValue::Missing];
    assert_eq!(dedupe_values(&values), Err(SearchError::SchemaViolation));
}

#[test]
fn admit_subject_appends_a_new_subject() {
    let mut subjects = strings(&["a"]);
    assert_eq!(admit_subject(&mut subjects, &text("b")), Ok(()));
    assert_eq!(subjects, strings(&["a", "b"]));
}

#[test]
fn admit_subject_passes_over_a_known_subject() {
    let mut subjects = strings(&["a", "b"]);
    assert_eq!(admit_subject(&mut subjects, &text("a")), Ok(()));
    assert_eq!(subjects, strings(&["a", "b"]));
}

#[test]
fn admit_subject_refuses_what_is_no_string() {
    let mut subjects = strings(&["a", "b"]);
    assert_eq!(admit_subject(&mut subjects, &FieldValue::Other), Err(SearchError::SchemaViolation));
    assert_eq!(admit_subject(&mut subjects, &FieldValue::Missing), Err(SearchError::SchemaViolation));
    assert_eq!(subjects, strings(&["a", "b"]));
}

#[test]
fn holds_tells_whether_a_subject_was_seen() {
    let subjects = strings(&["a", "b"]);
    assert!(holds(&subjects, &"a".to_string()));
    assert!(holds(&subjects, &"b".to_string()));
    assert!(!holds(&subjects, &"c".to_string()));
    assert!(!holds(&Vec::new(), &"a".to_string()));
}
