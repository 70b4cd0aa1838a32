use atomic_search::error::SearchError;
use atomic_search::hydrate::{admit_entity, collect_entities};

fn entity(subject: &str) -> atomic_lib::Resource {
    atomic_lib::Resource::new(subject.to_string())
}

fn subjects_of(entities: &[atomic_lib::Resource]) -> Vec<String> {
    entities.iter().map(|e| e.get_subject().clone()).collect()
}

#[test]
fn no_answers_give_no_entities() {
    let entities = collect_entities(Vec::new()).unwrap();
    assert!(entities.is_empty());
}

#[test]
fn all_answers_give_all_entities_in_order() {
    let entities = collect_entities(vec![Ok(entity("b")), Ok(entity("a")), Ok(entity("c"))]).unwrap();
    assert_eq!(subjects_of(&entities), vec!["b", "a", "c"]);
}

#[test]
fn one_failure_fails_the_whole_hydration() {
    let hydrated = collect_entities(vec![Ok(entity("a")), Err("gone".to_string()), Ok(entity("c"))]);
    match hydrated {
        Err(error) => assert_eq!(error, SearchError::Hydration("gone".to_string())),
        Ok(_) => panic!("a partial list was handed out"),
    }
}

#[test]
fn the_first_failure_is_the_one_reported() {
    let hydrated = collect_entities(vec![Err("first".to_string()), Err("second".to_string())]);
    match hydrated {
        Err(error) => assert_eq!(error, SearchError::Hydration("first".to_string())),
        Ok(_) => panic!("a partial list was handed out"),
    }
}

#[test]
fn a_failure_at_the_end_fails_the_whole_hydration() {
    let hydrated = collect_entities(vec![Ok(entity("a")), Ok(entity("b")), Err("late".to_string())]);
    match hydrated {
        Err(error) => assert_eq!(error, SearchError::Hydration("late".to_string())),
        Ok(_) => panic!("a partial list was handed out"),
    }
}

#[test]
fn admit_entity_appends_an_entity() {
    let mut entities = vec![entity("a")];
    assert_eq!(admit_entity(&mut entities, Ok(entity("b"))), Ok(()));
    assert_eq!(subjects_of(&entities), vec!["a", "b"]);
}

#[test]
fn admit_entity_keeps_the_others_on_a_failure() {
    let mut entities = vec![entity("a")];
    assert_eq!(
        admit_entity(&mut entities, Err("gone".to_string())),
        Err(SearchError::Hydration("gone".to_string()))
    );
    assert_eq!(subjects_of(&entities), vec!["a"]);
}
