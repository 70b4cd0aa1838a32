use atomic_search::classify::QueryKind;
use atomic_search::dedupe::dedupe;
use atomic_search::error::SearchError;
use atomic_search::index::DocRef;
use atomic_search::query::{
    build, execute, parse_outcome, plan, resolve_fields, search_outcome, Fields, MatchSet,
    QueryPlan, FUZZY_DISTANCE, TOP_K, TRANSPOSITION_COST_ONE,
};
use tantivy::schema::{Schema, STORED, STRING, TEXT};

/// A snapshot of an index in memory with the fields `subject`, `property` and `value`,
/// one document per pair.
fn text_index(documents: &[(&str, &str)]) -> tantivy::Searcher {
    let mut builder = Schema::builder();
    let subject = builder.add_text_field("subject", STRING | STORED);
    let _property = builder.add_text_field("property", TEXT | STORED);
    let value = builder.add_text_field("value", TEXT | STORED);
    let index = tantivy::Index::create_in_ram(builder.build());
    let mut writer: tantivy::IndexWriter = index.writer_with_num_threads(1, 15_000_000).unwrap();
    for (s, v) in documents {
        let mut document = tantivy::TantivyDocument::default();
        document.add_text(subject, s);
        document.add_text(value, v);
        writer.add_document(document).unwrap();
    }
    writer.commit().unwrap();
    index.reader().unwrap().searcher()
}

/// A snapshot whose documents hold a number as their subject.
fn numbered_index(documents: &[(u64, &str)]) -> tantivy::Searcher {
    let mut builder = Schema::builder();
    let value = builder.add_text_field("value", TEXT | STORED);
    let subject = builder.add_u64_field("subject", STORED);
    let index = tantivy::Index::create_in_ram(builder.build());
    let mut writer: tantivy::IndexWriter = index.writer_with_num_threads(1, 15_000_000).unwrap();
    for (s, v) in documents {
        let mut document = tantivy::TantivyDocument::default();
        document.add_u64(subject, *s);
        document.add_text(value, v);
        writer.add_document(document).unwrap();
    }
    writer.commit().unwrap();
    index.reader().unwrap().searcher()
}

/// A snapshot whose documents have a value and no subject.
fn index_without_subjects(values: &[&str]) -> tantivy::Searcher {
    let mut builder = Schema::builder();
    let _subject = builder.add_text_field("subject", STRING | STORED);
    let value = builder.add_text_field("value", TEXT | STORED);
    let index = tantivy::Index::create_in_ram(builder.build());
    let mut writer: tantivy::IndexWriter = index.writer_with_num_threads(1, 15_000_000).unwrap();
    for v in values {
        let mut document = tantivy::TantivyDocument::default();
        document.add_text(value, v);
        writer.add_document(document).unwrap();
    }
    writer.commit().unwrap();
    index.reader().unwrap().searcher()
}

fn run(searcher: &tantivy::Searcher, text: &str, kind: QueryKind, limit: usize) -> (Fields, MatchSet) {
    let fields = resolve_fields(searcher).unwrap();
    let query = build(searcher, &fields, text, kind).unwrap();
    (fields, execute(searcher, &query, limit).unwrap())
}

fn subjects_found(searcher: &tantivy::Searcher, text: &str, kind: QueryKind) -> Vec<String> {
    let (fields, hits) = run(searcher, text, kind, TOP_K);
    dedupe(searcher, &fields, &hits).unwrap()
}

#[test]
fn the_limits_are_ten_matches_and_two_edits() {
    assert_eq!(TOP_K, 10);
    assert_eq!(FUZZY_DISTANCE, 2);
    assert!(TRANSPOSITION_COST_ONE);
}

#[test]
fn a_fuzzy_plan_takes_the_whole_text_as_a_term_on_the_value_field() {
    let fields = Fields { subject: 0, value: 2 };
    assert_eq!(
        plan(&fields, "helo wrld", QueryKind::Fuzzy),
        QueryPlan::Fuzzy {
            field: 2,
            term: "helo wrld".to_string(),
            distance: 2,
            transposition_cost_one: true
        }
    );
}

#[test]
fn a_structured_plan_searches_subject_and_value() {
    let fields = Fields { subject: 4, value: 7 };
    assert_eq!(
        plan(&fields, "a AND b", QueryKind::Structured),
        QueryPlan::Structured { first: 4, second: 7, text: "a AND b".to_string() }
    );
}

#[test]
fn the_fields_are_found_by_their_names() {
    let searcher = text_index(&[]);
    let fields = resolve_fields(&searcher).unwrap();
    assert_eq!(fields.subject, searcher.schema().get_field("subject").unwrap().field_id());
    assert_eq!(fields.value, searcher.schema().get_field("value").unwrap().field_id());
    assert_eq!(fields, Fields { subject: 0, value: 2 });
}

#[test]
fn the_fields_are_found_wherever_they_stand_in_the_schema() {
    let searcher = numbered_index(&[]);
    assert_eq!(resolve_fields(&searcher), Ok(Fields { subject: 1, value: 0 }));
}

#[test]
fn a_schema_without_the_value_field_is_a_schema_violation() {
    let mut builder = Schema::builder();
    builder.add_text_field("subject", STRING | STORED);
    let index = tantivy::Index::create_in_ram(builder.build());
    let searcher = index.reader().unwrap().searcher();
    assert_eq!(resolve_fields(&searcher), Err(SearchError::SchemaViolation));
}

#[test]
fn a_schema_without_the_subject_field_is_a_schema_violation() {
    let mut builder = Schema::builder();
    builder.add_text_field("value", TEXT | STORED);
    let index = tantivy::Index::create_in_ram(builder.build());
    let searcher = index.reader().unwrap().searcher();
    assert_eq!(resolve_fields(&searcher), Err(SearchError::SchemaViolation));
}

#[test]
fn a_match_set_keeps_up_to_ten_hits() {
    let hits: Vec<DocRef> = (0..7).map(|i| DocRef { segment: 0, doc: i }).collect();
    let set = MatchSet::from_hits(hits.clone());
    assert_eq!(set.len(), 7);
    for i in 0..7 {
        assert_eq!(set.get(i), hits[i]);
    }
    assert_eq!(MatchSet::from_hits(Vec::new()).len(), 0);
}

#[test]
fn a_match_set_drops_what_comes_after_the_tenth_hit() {
    let hits: Vec<DocRef> = (0..25).map(|i| DocRef { segment: 1, doc: i }).collect();
    let set = MatchSet::from_hits(hits.clone());
    assert_eq!(set.len(), 10);
    for i in 0..10 {
        assert_eq!(set.get(i), hits[i]);
    }
    let exact: Vec<DocRef> = (0..10).map(|i| DocRef { segment: 1, doc: i }).collect();
    assert_eq!(MatchSet::from_hits(exact).len(), 10);
}

#[test]
fn a_failed_search_is_a_search_execution_error() {
    let failed = search_outcome(Err(tantivy::TantivyError::InvalidArgument("broken".to_string())));
    match failed {
        Err(error) => assert_eq!(error, SearchError::SearchExecution),
        Ok(_) => panic!("a failed search gave matches"),
    }
}

#[test]
fn the_hits_of_a_search_become_the_match_set() {
    let hits = vec![DocRef { segment: 0, doc: 3 }, DocRef { segment: 0, doc: 1 }];
    let set = search_outcome(Ok(hits.clone())).ok().unwrap();
    assert_eq!(set.len(), 2);
    assert_eq!(set.get(0), hits[0]);
    assert_eq!(set.get(1), hits[1]);
}

#[test]
fn a_refusal_of_the_parser_is_a_query_parse_error_with_its_message() {
    let planned = QueryPlan::Structured { first: 0, second: 1, text: "a AND".to_string() };
    match parse_outcome(planned, Err("Syntax Error: a AND".to_string())) {
        Err(error) => assert_eq!(error, SearchError::QueryParse("Syntax Error: a AND".to_string())),
        Ok(_) => panic!("a refused text gave a query"),
    }
}

#[test]
fn a_fuzzy_query_is_always_built() {
    let searcher = text_index(&[]);
    let fields = resolve_fields(&searcher).unwrap();
    for text in ["", "helo", "a:b", "(((", "^", "-", "~~~", "a  b"] {
        let built = build(&searcher, &fields, text, QueryKind::Fuzzy).ok().unwrap();
        assert_eq!(built.plan, plan(&fields, text, QueryKind::Fuzzy));
    }
}

#[test]
fn a_structured_query_carries_its_plan() {
    let searcher = text_index(&[]);
    let fields = resolve_fields(&searcher).unwrap();
    let built = build(&searcher, &fields, "cats AND dogs", QueryKind::Structured).ok().unwrap();
    assert_eq!(
        built.plan,
        QueryPlan::Structured { first: 0, second: 2, text: "cats AND dogs".to_string() }
    );
}

#[test]
fn a_structured_query_on_an_unknown_field_is_refused_with_the_message_of_the_parser() {
    let searcher = text_index(&[]);
    let fields = resolve_fields(&searcher).unwrap();
    let parser = tantivy::query::QueryParser::for_index(
        searcher.index(),
        vec![
            searcher.schema().get_field("subject").unwrap(),
            searcher.schema().get_field("value").unwrap(),
        ],
    );
    let expected = parser.parse_query("nowhere:\"x\"").err().unwrap().to_string();
    match build(&searcher, &fields, "nowhere:\"x\"", QueryKind::Structured) {
        Err(error) => {
            assert_eq!(error, SearchError::QueryParse(expected.clone()));
            assert_eq!(error.message(), format!("Error parsing query {}", expected));
        }
        Ok(_) => panic!("a query on an unknown field was built"),
    }
}

#[test]
fn a_structured_query_with_broken_syntax_is_refused() {
    let searcher = text_index(&[]);
    let fields = resolve_fields(&searcher).unwrap();
    match build(&searcher, &fields, "value:[a TO", QueryKind::Structured) {
        Err(error) => assert!(matches!(error, SearchError::QueryParse(_))),
        Ok(_) => panic!("a broken range was built"),
    }
}

#[test]
fn a_search_with_limit_zero_gives_no_matches() {
    let searcher = text_index(&[("https://localhost/a", "hello"), ("https://localhost/b", "hello")]);
    let (_, hits) = run(&searcher, "hello", QueryKind::Fuzzy, 0);
    assert_eq!(hits.len(), 0);
}

#[test]
fn a_search_gives_at_most_as_many_matches_as_the_limit() {
    let searcher = text_index(&[
        ("https://localhost/a", "hello"),
        ("https://localhost/b", "hello"),
        ("https://localhost/c", "hello"),
        ("https://localhost/d", "hello"),
        ("https://localhost/e", "hello"),
    ]);
    assert_eq!(run(&searcher, "hello", QueryKind::Fuzzy, 1).1.len(), 1);
    assert_eq!(run(&searcher, "hello", QueryKind::Fuzzy, 3).1.len(), 3);
    assert_eq!(run(&searcher, "hello", QueryKind::Fuzzy, 5).1.len(), 5);
    assert_eq!(run(&searcher, "hello", QueryKind::Fuzzy, 9).1.len(), 5);
}

#[test]
fn a_search_never_gives_more_than_ten_matches() {
    let documents: Vec<(String, &str)> =
        (0..12).map(|i| (format!("https://localhost/{}", i), "hello")).collect();
    let borrowed: Vec<(&str, &str)> = documents.iter().map(|(s, v)| (s.as_str(), *v)).collect();
    let searcher = text_index(&borrowed);
    assert_eq!(run(&searcher, "hello", QueryKind::Fuzzy, 10).1.len(), 10);
    assert_eq!(run(&searcher, "hello", QueryKind::Fuzzy, 50).1.len(), 10);
    assert_eq!(run(&searcher, "hello", QueryKind::Fuzzy, usize::MAX).1.len(), 10);
    assert_eq!(run(&searcher, "hello", QueryKind::Structured, 50).1.len(), 10);
}

#[test]
fn a_search_that_matches_nothing_gives_an_empty_match_set() {
    let searcher = text_index(&[("https://localhost/a", "hello")]);
    assert_eq!(run(&searcher, "zzzzzzzz", QueryKind::Fuzzy, 10).1.len(), 0);
    assert_eq!(run(&searcher, "\"good bye\"", QueryKind::Structured, 10).1.len(), 0);
    let empty = text_index(&[]);
    assert_eq!(run(&empty, "hello", QueryKind::Fuzzy, 10).1.len(), 0);
}

#[test]
fn a_fuzzy_search_forgives_up_to_two_edits() {
    let searcher = text_index(&[("https://localhost/a", "hello world")]);
    assert_eq!(subjects_found(&searcher, "hello", QueryKind::Fuzzy), vec!["https://localhost/a"]);
    assert_eq!(subjects_found(&searcher, "helo", QueryKind::Fuzzy), vec!["https://localhost/a"]);
    assert_eq!(subjects_found(&searcher, "helxx", QueryKind::Fuzzy), vec!["https://localhost/a"]);
    assert!(subjects_found(&searcher, "hexxx", QueryKind::Fuzzy).is_empty());
}

#[test]
fn a_fuzzy_search_matches_the_beginning_of_a_term() {
    let searcher = text_index(&[("https://localhost/a", "searching")]);
    assert_eq!(subjects_found(&searcher, "search", QueryKind::Fuzzy), vec!["https://localhost/a"]);
}

#[test]
fn a_fuzzy_search_reads_the_value_and_not_the_subject() {
    let searcher = text_index(&[("needle", "haystack")]);
    assert!(subjects_found(&searcher, "needle", QueryKind::Fuzzy).is_empty());
    assert_eq!(subjects_found(&searcher, "haystack", QueryKind::Fuzzy), vec!["needle"]);
}

#[test]
fn a_structured_search_reads_subject_and_value() {
    let searcher = text_index(&[("needle", "haystack"), ("other", "thing")]);
    assert_eq!(subjects_found(&searcher, "\"needle\"", QueryKind::Structured), vec!["needle"]);
    assert_eq!(subjects_found(&searcher, "\"haystack\"", QueryKind::Structured), vec!["needle"]);
}

#[test]
fn a_structured_search_obeys_the_operators() {
    let searcher = text_index(&[
        ("https://localhost/both", "cats dogs"),
        ("https://localhost/cats", "cats"),
        ("https://localhost/dogs", "dogs"),
    ]);
    assert_eq!(
        subjects_found(&searcher, "cats AND dogs", QueryKind::Structured),
        vec!["https://localhost/both"]
    );
    let mut either = subjects_found(&searcher, "cats OR dogs", QueryKind::Structured);
    either.sort();
    assert_eq!(
        either,
        vec!["https://localhost/both", "https://localhost/cats", "https://localhost/dogs"]
    );
}

#[test]
fn fragments_of_one_entity_give_one_subject() {
    let searcher = text_index(&[
        ("https://localhost/a", "hello there"),
        ("https://localhost/a", "hello again"),
        ("https://localhost/b", "hello"),
        ("https://localhost/a", "hello"),
    ]);
    let (_, hits) = run(&searcher, "hello", QueryKind::Fuzzy, TOP_K);
    assert_eq!(hits.len(), 4);
    let mut subjects = subjects_found(&searcher, "hello", QueryKind::Fuzzy);
    assert_eq!(subjects.len(), 2);
    subjects.sort();
    assert_eq!(subjects, vec!["https://localhost/a", "https://localhost/b"]);
}

#[test]
fn the_subjects_are_those_that_the_matched_documents_store() {
    let searcher = text_index(&[
        ("https://localhost/a", "alpha"),
        ("https://localhost/b", "beta"),
        ("https://localhost/c", "gamma"),
    ]);
    let (fields, hits) = run(&searcher, "beta", QueryKind::Fuzzy, TOP_K);
    assert_eq!(hits.len(), 1);
    let stored: tantivy::TantivyDocument = searcher
        .doc(tantivy::DocAddress::new(hits.get(0).segment, hits.get(0).doc))
        .unwrap();
    let subject = stored
        .get_first(tantivy::schema::Field::from_field_id(fields.subject))
        .and_then(|value| tantivy::schema::Value::as_str(&value).map(|s| s.to_string()));
    assert_eq!(subject, Some("https://localhost/b".to_string()));
    assert_eq!(dedupe(&searcher, &fields, &hits), Ok(vec!["https://localhost/b".to_string()]));
}

#[test]
fn ten_matches_of_ten_entities_give_ten_subjects() {
    let documents: Vec<(String, &str)> =
        (0..10).map(|i| (format!("https://localhost/{}", i), "hello")).collect();
    let borrowed: Vec<(&str, &str)> = documents.iter().map(|(s, v)| (s.as_str(), *v)).collect();
    let searcher = text_index(&borrowed);
    let (fields, hits) = run(&searcher, "hello", QueryKind::Fuzzy, TOP_K);
    assert_eq!(hits.len(), 10);
    let mut subjects = dedupe(&searcher, &fields, &hits).unwrap();
    assert_eq!(subjects.len(), 10);
    subjects.sort();
    subjects.dedup();
    assert_eq!(subjects.len(), 10);
}

#[test]
fn a_subject_that_is_a_number_is_a_schema_violation() {
    let searcher = numbered_index(&[(7, "hello")]);
    let (fields, hits) = run(&searcher, "hello", QueryKind::Fuzzy, TOP_K);
    assert_eq!(hits.len(), 1);
    assert_eq!(dedupe(&searcher, &fields, &hits), Err(SearchError::SchemaViolation));
}

#[test]
fn a_matched_document_without_a_subject_is_a_schema_violation() {
    let searcher = index_without_subjects(&["hello"]);
    let (fields, hits) = run(&searcher, "hello", QueryKind::Fuzzy, TOP_K);
    assert_eq!(hits.len(), 1);
    assert_eq!(dedupe(&searcher, &fields, &hits), Err(SearchError::SchemaViolation));
}

#[test]
fn no_matches_need_no_documents() {
    let searcher = numbered_index(&[(7, "hello")]);
    let (fields, hits) = run(&searcher, "zzzzzzzz", QueryKind::Fuzzy, TOP_K);
    assert_eq!(dedupe(&searcher, &fields, &hits), Ok(Vec::new()));
}
