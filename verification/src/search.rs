//! The whole of a search request: from the query text to the response body.

use vstd::prelude::*;
use crate::classify::{QueryKind, classification, classify};
use crate::dedupe::{
    all_texts, dedupe, dedupe_outcome, first_positions, is_subsequence_at, lemma_dedup_distinct,
    lemma_dedup_length, lemma_dedupe_keeps_order, lemma_dedupe_of_distinct, stored_subjects,
    texts,
};
use crate::envelope::{assemble, envelope_for, is_envelope};
use crate::error::SearchError;
use crate::hydrate::{entities_of, hydrate};
use crate::index::{IndexQuery, ranked_hits};
use crate::query::{
    ExecutableQuery, Fields, MatchSet, TOP_K, build, execute, fields_of, has_fields, plan_of,
    query_of, resolve_fields,
};
use crate::store::{json_ad, resource_subject, store_base};

verus! {

/// The parameters of a search request.
#[derive(Clone, Debug, PartialEq, Eq)]
pub struct SearchQuery {
    /// The query text.
    pub q: String,
    /// Whether whole resources are wanted in the response. Entities are always
    /// embedded whole, so the flag changes nothing.
    pub include_full: Option<bool>,
}

/// The query that a text asks of a snapshot whose schema has the fields `subject` and
/// `value`, or the message with which the parser refuses the text.
pub open spec fn query_for(searcher: tantivy::Searcher, text: Seq<char>) -> Result<
    IndexQuery,
    Seq<char>,
> {
    query_of(searcher, plan_of(fields_of(searcher), text, classification(text)))
}

/// What deduplication makes of the best [`TOP_K`] matches of a query: their
/// subjects, or a failure where a matched document holds no string as its subject.
pub open spec fn subjects_read(searcher: tantivy::Searcher, query: IndexQuery) -> Result<
    Seq<Seq<char>>,
    SearchError,
> {
    dedupe_outcome(
        stored_subjects(
            searcher,
            fields_of(searcher).subject,
            ranked_hits(searcher, query, TOP_K),
        ),
    )
}

/// What the index gave for a query text.
pub struct Matched {
    /// How the query text was read.
    pub kind: QueryKind,
    /// The fields of the index that were searched and read.
    pub fields: Fields,
    /// The query that was run, with what it was made from.
    pub query: ExecutableQuery,
    /// The matches, best first.
    pub hits: MatchSet,
    /// The subjects of the matches, each once, in the order of their first match.
    pub subjects: Vec<String>,
}

impl Matched {
    /// This is what the snapshot gives for the text: the query is the one that the
    /// text asks for, the matches are the best [`TOP_K`] that the index ranks for it,
    /// and the subjects are those that the matched documents store, deduplicated.
    pub open spec fn is_for(self, searcher: tantivy::Searcher, text: Seq<char>) -> bool {
        &&& has_fields(searcher)
        &&& self.kind == classification(text)
        &&& self.fields == fields_of(searcher)
        &&& self.fields.resolved_in(searcher)
        &&& query_for(searcher, text) == Ok::<IndexQuery, Seq<char>>(self.query.query)
        &&& self.query.plan@ == plan_of(self.fields, text, self.kind)
        &&& self.hits@ == ranked_hits(searcher, self.query.query, TOP_K)
        &&& self.hits.within(searcher)
        &&& self.hits@.len() <= TOP_K
        &&& subjects_read(searcher, self.query.query) == Ok::<Seq<Seq<char>>, SearchError>(
            texts(self.subjects@),
        )
        &&& texts(self.subjects@).no_duplicates()
        &&& self.subjects@.len() <= self.hits@.len()
    }
}

/// What a search found.
pub struct SearchResult {
    /// What the index gave.
    pub matched: Matched,
    /// The envelope that carries the entities of the subjects.
    pub envelope: atomic_lib::Resource,
}

/// `envelope` stands at the address `base` followed by `path_and_query`, and holds
/// `entities`, which are those of `subjects`.
pub open spec fn carries(
    envelope: atomic_lib::Resource,
    base: Seq<char>,
    path_and_query: Seq<char>,
    entities: Seq<atomic_lib::Resource>,
    subjects: Seq<Seq<char>>,
) -> bool {
    is_envelope(envelope, base + path_and_query, entities) && entities_of(entities, subjects)
}

impl SearchResult {
    /// The result answers the query `text` of a request for `path_and_query`, from the
    /// snapshot and for a service at `base`: what was matched is what the snapshot
    /// gives for the text, and the envelope stands at `base` followed by
    /// `path_and_query` and holds the entities of the subjects, in their order.
    pub open spec fn answers(
        self,
        searcher: tantivy::Searcher,
        text: Seq<char>,
        base: Seq<char>,
        path_and_query: Seq<char>,
    ) -> bool {
        &&& self.matched.is_for(searcher, text)
        &&& exists|entities: Seq<atomic_lib::Resource>| #[trigger]
            carries(self.envelope, base, path_and_query, entities, texts(self.matched.subjects@))
    }
}

/// What a failure tells of the index: a schema violation means that the schema lacks
/// a field or that a matched document holds no string as its subject; a query that
/// does not parse is one that the parser refuses, with its message; a failed search
/// had a query to run; a failed hydration had subjects to fetch.
pub open spec fn index_explains(
    error: SearchError,
    searcher: tantivy::Searcher,
    text: Seq<char>,
) -> bool {
    match error {
        SearchError::SchemaViolation => !has_fields(searcher) || (query_for(searcher, text)
            matches Ok(query) && subjects_read(searcher, query) is Err),
        SearchError::QueryParse(reason) => has_fields(searcher) && query_for(searcher, text)
            == Err::<IndexQuery, Seq<char>>(reason@),
        SearchError::SearchExecution => has_fields(searcher) && query_for(searcher, text) is Ok,
        SearchError::Hydration(_) => has_fields(searcher) && (query_for(searcher, text)
            matches Ok(query) && (subjects_read(searcher, query) matches Ok(subjects)
            && subjects.len() > 0)),
        _ => false,
    }
}

/// What a failure of a request tells of the index, the store and the request: of the
/// index as [`index_explains`] says; a base URL or a path is missing where the failure
/// says so; and an envelope is built and written only where both are there.
pub open spec fn explains(
    error: SearchError,
    searcher: tantivy::Searcher,
    store: atomic_lib::Db,
    text: Seq<char>,
    path_and_query: Option<Seq<char>>,
) -> bool {
    match error {
        SearchError::MissingBaseUrl => store_base(store) is None,
        SearchError::MissingQuery => store_base(store) is Some && path_and_query is None,
        SearchError::Serialization(_) => store_base(store) is Some && path_and_query is Some,
        _ => index_explains(error, searcher, text),
    }
}

/// The failures that are owed whatever index and store answer: a schema without the
/// fields is a `SchemaViolation`, and a text that the parser refuses is a `QueryParse`
/// with the parser's message. `failure` is the failure of a request, if it failed.
pub open spec fn owes(
    searcher: tantivy::Searcher,
    text: Seq<char>,
    failure: Option<SearchError>,
) -> bool {
    &&& !has_fields(searcher) ==> failure == Some(SearchError::SchemaViolation)
    &&& has_fields(searcher) ==> (query_for(searcher, text) matches Err(message) ==> (failure
        matches Some(SearchError::QueryParse(reason)) && reason@ == message))
}

/// The failure of a request, if it failed.
pub open spec fn failure_of<T>(outcome: Result<T, SearchError>) -> Option<SearchError> {
    match outcome {
        Ok(_) => None,
        Err(error) => Some(error),
    }
}

/// The path and query of a request as a sequence of characters, if it has one.
pub open spec fn path_text(path_and_query: Option<&str>) -> Option<Seq<char>> {
    match path_and_query {
        Some(rest) => Some(rest@),
        None => None,
    }
}

/// Asks the index and the store: classifies the query text, builds and runs the query
/// for the best [`TOP_K`] matches, deduplicates their subjects and fetches the entity
/// of each. Any failure on the way ends it.
pub fn gather(
    searcher: &tantivy::Searcher,
    store: &atomic_lib::Db,
    params: &SearchQuery,
) -> (gathered: Result<(Matched, Vec<atomic_lib::Resource>), SearchError>)
    ensures
        owes(*searcher, params.q@, failure_of(gathered)),
        match gathered {
            Ok((matched, entities)) => matched.is_for(*searcher, params.q@) && entities_of(
                entities@,
                texts(matched.subjects@),
            ),
            Err(error) => index_explains(error, *searcher, params.q@),
        },
{
    let fields = match resolve_fields(searcher) {
        Ok(fields) => fields,
        Err(error) => {
            return Err(error);
        },
    };
    let kind = classify(params.q.as_str());
    let query = match build(searcher, &fields, params.q.as_str(), kind) {
        Ok(query) => query,
        Err(error) => {
            return Err(error);
        },
    };
    let hits = match execute(searcher, &query, TOP_K) {
        Ok(hits) => hits,
        Err(error) => {
            return Err(error);
        },
    };
    let subjects = match dedupe(searcher, &fields, &hits) {
        Ok(subjects) => subjects,
        Err(error) => {
            return Err(error);
        },
    };
    let entities = match hydrate(store, &subjects) {
        Ok(entities) => entities,
        Err(error) => {
            assert(texts(subjects@).len() > 0);
            return Err(error);
        },
    };
    proof {
        let read = stored_subjects(*searcher, fields.subject, hits@);
        let plain = read.map_values(|entry: Option<Seq<char>>| entry.unwrap());
        lemma_dedup_distinct(plain);
        lemma_dedup_length(plain);
        assert(plain.len() == hits@.len());
    }
    Ok((Matched { kind, fields, query, hits, subjects }, entities))
}

/// Runs a search: asks the index and the store as [`gather`] does, and puts the
/// entities into the envelope at the address of the request. Any failure on the way
/// ends the search.
pub fn search(
    searcher: &tantivy::Searcher,
    store: &atomic_lib::Db,
    params: &SearchQuery,
    path_and_query: Option<&str>,
) -> (searched: Result<SearchResult, SearchError>)
    ensures
        owes(*searcher, params.q@, failure_of(searched)),
        match searched {
            Ok(found) => {
                &&& store_base(*store) matches Some(base)
                &&& path_and_query matches Some(rest)
                &&& found.answers(*searcher, params.q@, base, rest@)
            },
            Err(error) => explains(error, *searcher, *store, params.q@, path_text(path_and_query)),
        },
{
    let (matched, entities) = match gather(searcher, store, params) {
        Ok(gathered) => gathered,
        Err(error) => {
            return Err(error);
        },
    };
    let ghost held = entities@;
    let envelope = match envelope_for(store, path_and_query, entities) {
        Ok(envelope) => envelope,
        Err(error) => {
            return Err(error);
        },
    };
    let found = SearchResult { matched, envelope };
    assert(carries(
        found.envelope,
        store_base(*store)->0,
        path_and_query->0@,
        held,
        texts(found.matched.subjects@),
    ));
    Ok(found)
}

/// Answers a search request with the response body: the envelope of the search,
/// written as JSON-AD.
pub fn search_query(
    searcher: &tantivy::Searcher,
    store: &atomic_lib::Db,
    params: &SearchQuery,
    path_and_query: Option<&str>,
) -> (body: Result<String, SearchError>)
    ensures
        owes(*searcher, params.q@, failure_of(body)),
        match body {
            Ok(text) => {
                &&& store_base(*store) matches Some(base)
                &&& path_and_query matches Some(rest)
                &&& exists|found: SearchResult| #[trigger]
                    found.answers(*searcher, params.q@, base, rest@) && text@ == json_ad(
                        found.envelope,
                    )
            },
            Err(error) => explains(error, *searcher, *store, params.q@, path_text(path_and_query)),
        },
{
    let (matched, entities) = match gather(searcher, store, params) {
        Ok(gathered) => gathered,
        Err(error) => {
            return Err(error);
        },
    };
    let ghost held = entities@;
    let body = assemble(store, path_and_query, entities);
    proof {
        if body is Ok {
            let base = store_base(*store)->0;
            let rest = path_and_query->0@;
            let envelope = choose|envelope: atomic_lib::Resource|
                #[trigger] is_envelope(envelope, base + rest, held) && body->Ok_0@ == json_ad(
                    envelope,
                );
            let found = SearchResult { matched, envelope };
            assert(carries(found.envelope, base, rest, held, texts(found.matched.subjects@)));
            assert(found.answers(*searcher, params.q@, base, rest));
        }
    }
    body
}

/// What the matched documents of a search store as their subjects, in the order of
/// the matches.
pub open spec fn matched_subjects(matched: Matched, searcher: tantivy::Searcher) -> Seq<
    Option<Seq<char>>,
> {
    stored_subjects(searcher, fields_of(searcher).subject, matched.hits@)
}

/// The subjects of a search are the subjects of its matches, deduplicated: every
/// match holds a string as its subject, the subjects are no more than the matches,
/// none occurs twice, every subject of a match is among them, and each stands where
/// it was first matched, in the order of the matches.
pub proof fn lemma_subjects_keep_order(
    matched: Matched,
    searcher: tantivy::Searcher,
    text: Seq<char>,
)
    requires
        matched.is_for(searcher, text),
    ensures
        all_texts(matched_subjects(matched, searcher)),
        texts(matched.subjects@).len() <= matched.hits@.len(),
        texts(matched.subjects@).no_duplicates(),
        ({
            let stored = matched_subjects(matched, searcher).map_values(
                |entry: Option<Seq<char>>| entry.unwrap(),
            );
            &&& is_subsequence_at(texts(matched.subjects@), stored, first_positions(stored))
            &&& forall|subject: Seq<char>|
                texts(matched.subjects@).contains(subject) <==> stored.contains(subject)
        }),
{
    lemma_dedupe_keeps_order(matched_subjects(matched, searcher));
}

/// Two searches of one text in one snapshot match the same: the same reading of the
/// text, the same query, the same matches in the same order, and so the same
/// subjects in the same order.
pub proof fn lemma_same_text_same_matches(
    first: Matched,
    second: Matched,
    searcher: tantivy::Searcher,
    text: Seq<char>,
)
    requires
        first.is_for(searcher, text),
        second.is_for(searcher, text),
    ensures
        first.kind == second.kind,
        first.fields == second.fields,
        first.query.plan@ == second.query.plan@,
        first.query.query == second.query.query,
        first.hits@ == second.hits@,
        texts(first.subjects@) == texts(second.subjects@),
{
}

/// Two answers to one request, from one snapshot, list the same subjects in the same
/// order; each holds the entities of those subjects, as [`lemma_no_partial_list`]
/// says. What the store hands out for a subject is the store's to say.
pub proof fn lemma_same_request_same_list(
    first: SearchResult,
    second: SearchResult,
    searcher: tantivy::Searcher,
    text: Seq<char>,
    base: Seq<char>,
    path_and_query: Seq<char>,
)
    requires
        first.answers(searcher, text, base, path_and_query),
        second.answers(searcher, text, base, path_and_query),
    ensures
        first.matched.hits@ == second.matched.hits@,
        texts(first.matched.subjects@) == texts(second.matched.subjects@),
        resource_subject(first.envelope) == resource_subject(second.envelope),
{
    lemma_same_text_same_matches(first.matched, second.matched, searcher, text);
}

/// A query that matches nothing is answered with an empty list, and fails only where
/// the index fails to run it or the envelope cannot be made: there is no subject to
/// read and no entity to fetch.
pub proof fn lemma_no_matches(searcher: tantivy::Searcher, text: Seq<char>, query: IndexQuery)
    requires
        has_fields(searcher),
        query_for(searcher, text) == Ok::<IndexQuery, Seq<char>>(query),
        ranked_hits(searcher, query, TOP_K).len() == 0,
    ensures
        subjects_read(searcher, query) == Ok::<Seq<Seq<char>>, SearchError>(Seq::empty()),
        forall|error: SearchError| #[trigger]
            index_explains(error, searcher, text) ==> error == SearchError::SearchExecution,
        forall|matched: Matched| #[trigger]
            matched.is_for(searcher, text) ==> matched.subjects@.len() == 0,
        forall|found: SearchResult, base: Seq<char>, rest: Seq<char>| #[trigger]
            found.answers(searcher, text, base, rest) ==> is_envelope(
                found.envelope,
                base + rest,
                Seq::empty(),
            ),
{
    let stored = stored_subjects(
        searcher,
        fields_of(searcher).subject,
        ranked_hits(searcher, query, TOP_K),
    );
    assert(stored.map_values(|entry: Option<Seq<char>>| entry.unwrap()) =~= Seq::<
        Seq<char>,
    >::empty());
    assert forall|found: SearchResult, base: Seq<char>, rest: Seq<char>| #[trigger]
        found.answers(searcher, text, base, rest) implies is_envelope(
        found.envelope,
        base + rest,
        Seq::empty(),
    ) by {
        let held = choose|entities: Seq<atomic_lib::Resource>| #[trigger]
            carries(found.envelope, base, rest, entities, texts(found.matched.subjects@));
        assert(held =~= Seq::<atomic_lib::Resource>::empty());
    }
}

/// Matches of entities that all differ are all answered: the list holds one entity
/// for each match, entity `i` with the subject of match `i`, nothing dropped, merged
/// or moved.
pub proof fn lemma_distinct_matches(
    found: SearchResult,
    searcher: tantivy::Searcher,
    text: Seq<char>,
    base: Seq<char>,
    path_and_query: Seq<char>,
)
    requires
        found.answers(searcher, text, base, path_and_query),
        matched_subjects(found.matched, searcher).map_values(
            |entry: Option<Seq<char>>| entry.unwrap(),
        ).no_duplicates(),
    ensures
        found.matched.subjects@.len() == found.matched.hits@.len(),
        exists|entities: Seq<atomic_lib::Resource>|
            {
                &&& #[trigger] is_envelope(found.envelope, base + path_and_query, entities)
                &&& entities.len() == found.matched.hits@.len()
                &&& forall|i: int|
                    0 <= i < entities.len() ==> matched_subjects(found.matched, searcher)[i]
                        == Some(resource_subject(#[trigger] entities[i]))
            },
{
    let stored = matched_subjects(found.matched, searcher);
    lemma_dedupe_keeps_order(stored);
    lemma_dedupe_of_distinct(stored);
    let plain = stored.map_values(|entry: Option<Seq<char>>| entry.unwrap());
    assert(texts(found.matched.subjects@) == plain);
    assert(plain.len() == found.matched.hits@.len());
    let held = choose|entities: Seq<atomic_lib::Resource>| #[trigger]
        carries(found.envelope, base, path_and_query, entities, texts(found.matched.subjects@));
    assert forall|i: int| 0 <= i < held.len() implies stored[i] == Some(
        resource_subject(#[trigger] held[i]),
    ) by {
        assert(stored[i] is Some);
        assert(plain[i] == stored[i].unwrap());
    }
}

/// No answer lists fewer entities than subjects: a body that is handed out holds the
/// entity of every subject, in order, so that a failed fetch can only have failed the
/// whole request.
pub proof fn lemma_no_partial_list(
    found: SearchResult,
    searcher: tantivy::Searcher,
    text: Seq<char>,
    base: Seq<char>,
    path_and_query: Seq<char>,
)
    requires
        found.answers(searcher, text, base, path_and_query),
    ensures
        exists|entities: Seq<atomic_lib::Resource>|
            {
                &&& #[trigger] is_envelope(found.envelope, base + path_and_query, entities)
                &&& entities_of(entities, texts(found.matched.subjects@))
                &&& entities.len() == found.matched.subjects@.len()
            },
{
    let held = choose|entities: Seq<atomic_lib::Resource>| #[trigger]
        carries(found.envelope, base, path_and_query, entities, texts(found.matched.subjects@));
    assert(is_envelope(found.envelope, base + path_and_query, held));
}

} // verus!
