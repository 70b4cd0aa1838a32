//! The inverted index, as this library sees it: a read-only snapshot that is asked for
//! its fields, runs queries and hands out stored field values. Everything in this file
//! that touches the index is believed of the `tantivy` crate and not proved.

use vstd::prelude::*;

verus! {

/// `tantivy::Searcher`: a snapshot of the index, taken at one point in time. Nothing
/// is known of what is inside but what the names below say.
#[verifier::external_type_specification]
#[verifier::external_body]
pub struct ExSearcher(tantivy::Searcher);

/// `tantivy::TantivyError`: a failure of the index. It is carried, never read.
#[verifier::external_type_specification]
#[verifier::external_body]
pub struct ExTantivyError(tantivy::TantivyError);

/// `tantivy::query::QueryParserError`: the parser's refusal of a query text. Only its
/// message is read, by [`parser_message`].
#[verifier::external_type_specification]
#[verifier::external_body]
pub struct ExQueryParserError(tantivy::query::QueryParserError);

/// A query in the form in which the index runs it: a boxed `tantivy::query::Query`.
/// A trait object of another crate cannot stand in a verified type, so the whole
/// struct is hidden from the verifier. It is made by [`fuzzy_prefix_query`] and
/// [`parse_structured`] only, and is opaque otherwise.
#[verifier::external_body]
pub struct IndexQuery {
    inner: Box<dyn tantivy::query::Query>,
}

/// The address of a document in a snapshot: the ordinal of its segment and its
/// number in that segment.
#[derive(Clone, Copy, Debug, PartialEq, Eq, Structural)]
pub struct DocRef {
    pub segment: u32,
    pub doc: u32,
}

impl DocRef {
    /// The address as a pair.
    pub open spec fn key(self) -> (u32, u32) {
        (self.segment, self.doc)
    }
}

/// What a stored document holds first for a field.
#[derive(Clone, Debug, PartialEq, Eq)]
pub enum FieldValue {
    /// The document has no value for the field.
    Missing,
    /// The value is a string.
    Text(String),
    /// The value is of another type.
    Other,
}

impl FieldValue {
    /// Whether this is what `document` holds first for `field`, where a document is
    /// given by the first value of each field it has: the text of a string, `None`
    /// for a value of another type.
    pub open spec fn is_first_of(self, document: Map<u32, Option<Seq<char>>>, field: u32) -> bool {
        match self {
            FieldValue::Missing => !document.contains_key(field),
            FieldValue::Text(text) => document.contains_key(field) && document[field] == Some(
                text@,
            ),
            FieldValue::Other => document.contains_key(field) && document[field] is None,
        }
    }
}

/// The names of the fields in the schema of a snapshot's index, in the order of
/// their ids: the field with id `i` has the name at position `i`.
pub uninterp spec fn schema_fields(searcher: tantivy::Searcher) -> Seq<Seq<char>>;

/// The ids of the fields that a query searches.
pub uninterp spec fn query_fields(query: IndexQuery) -> Set<u32>;

/// The fuzzy query on a field for a term, with a tolerance: the query that
/// `FuzzyTermQuery::new_prefix` makes of these four values, which are all it holds.
pub uninterp spec fn fuzzy_query_of(
    field: u32,
    term: Seq<char>,
    distance: u8,
    transposition_cost_one: bool,
) -> IndexQuery;

/// What the parser of the snapshot's index answers to a text, with two default
/// fields: the query it makes, or the message of its refusal. The parser reads the
/// schema and the tokenizers of the index and the text, and nothing else.
pub uninterp spec fn parser_answer(
    searcher: tantivy::Searcher,
    first: u32,
    second: u32,
    text: Seq<char>,
) -> Result<IndexQuery, Seq<char>>;

/// What a refusal of the parser says.
pub uninterp spec fn refusal_text(error: tantivy::query::QueryParserError) -> Seq<char>;

/// `answer` is the query `query`.
pub open spec fn is_accepted(answer: Result<IndexQuery, Seq<char>>, query: IndexQuery) -> bool {
    answer == Ok::<IndexQuery, Seq<char>>(query)
}

/// `answer` is a refusal with the message `message`.
pub open spec fn is_refused(answer: Result<IndexQuery, Seq<char>>, message: Seq<char>) -> bool {
    answer == Err::<IndexQuery, Seq<char>>(message)
}

/// The addresses that a search of the snapshot gives for a query and a limit, best
/// first. The snapshot does not change, and among documents of equal score the
/// smaller address comes first, so that the same search gives the same addresses.
pub uninterp spec fn ranked_hits(
    searcher: tantivy::Searcher,
    query: IndexQuery,
    limit: usize,
) -> Seq<DocRef>;

/// The documents that a snapshot stores, by address (segment ordinal, document
/// number): for each document the first value of each field it has, by field id;
/// the text of a string, `None` for a value of another type.
pub uninterp spec fn stored_documents(searcher: tantivy::Searcher) -> Map<
    (u32, u32),
    Map<u32, Option<Seq<char>>>,
>;

/// `field` is the id of a field of the snapshot's schema.
pub open spec fn has_field(searcher: tantivy::Searcher, field: u32) -> bool {
    (field as int) < schema_fields(searcher).len()
}

/// Every field that `query` searches is a field of the snapshot's schema.
pub open spec fn query_fits(searcher: tantivy::Searcher, query: IndexQuery) -> bool {
    forall|field: u32| query_fields(query).contains(field) ==> has_field(searcher, field)
}

/// `tantivy::schema::Schema::get_field`, on the schema of the searcher's index: the id
/// of the field with the given name, `None` where the schema has no field of that
/// name. No two fields of a schema have the same name, so the id is the only one
/// at which the name stands.
#[verifier::external_body]
pub(crate) fn field_named(searcher: &tantivy::Searcher, name: &str) -> (id: Option<u32>)
    ensures
        match id {
            Some(field) => {
                &&& has_field(*searcher, field)
                &&& schema_fields(*searcher)[field as int] == name@
                &&& forall|other: int|
                    0 <= other < schema_fields(*searcher).len() && #[trigger] schema_fields(
                        *searcher,
                    )[other] == name@ ==> other == field
            },
            None => !schema_fields(*searcher).contains(name@),
        },
{
    searcher.schema().get_field(name).ok().map(|field| field.field_id())
}

/// `tantivy::query::FuzzyTermQuery::new_prefix`, on the term that
/// `tantivy::Term::from_field_text` makes of the field and the text: a query on that
/// one field, made from just these four values. Building it reads no index and
/// does not fail.
#[verifier::external_body]
pub(crate) fn fuzzy_prefix_query(
    field: u32,
    term: &str,
    distance: u8,
    transposition_cost_one: bool,
) -> (query: IndexQuery)
    ensures
        query_fields(query) == set![field],
        query == fuzzy_query_of(field, term@, distance, transposition_cost_one),
{
    let term = tantivy::Term::from_field_text(tantivy::schema::Field::from_field_id(field), term);
    let query = tantivy::query::FuzzyTermQuery::new_prefix(term, distance, transposition_cost_one);
    IndexQuery { inner: Box::new(query) }
}

/// `tantivy::query::QueryParser::parse_query`, on a parser made by
/// `QueryParser::for_index` for the searcher's index with two default fields. The
/// parser looks fields up in the schema, so a query that it hands out searches
/// fields of that schema only. The default fields must be fields of the schema:
/// the parser indexes the schema's field list with them.
#[verifier::external_body]
pub(crate) fn parse_structured(
    searcher: &tantivy::Searcher,
    first: u32,
    second: u32,
    text: &str,
) -> (parsed: Result<IndexQuery, tantivy::query::QueryParserError>)
    requires
        has_field(*searcher, first),
        has_field(*searcher, second),
    ensures
        parsed matches Ok(query) ==> query_fits(*searcher, query),
        parsed matches Ok(query) ==> is_accepted(
            parser_answer(*searcher, first, second, text@),
            query,
        ),
        parsed matches Err(error) ==> is_refused(
            parser_answer(*searcher, first, second, text@),
            refusal_text(error),
        ),
{
    let defaults = vec![
        tantivy::schema::Field::from_field_id(first),
        tantivy::schema::Field::from_field_id(second),
    ];
    let parser = tantivy::query::QueryParser::for_index(searcher.index(), defaults);
    parser.parse_query(text).map(|inner| IndexQuery { inner })
}

/// The text of a `tantivy::query::QueryParserError`, as its `Display` writes it.
#[verifier::external_body]
pub(crate) fn parser_message(error: &tantivy::query::QueryParserError) -> (text: String)
    ensures
        text@ == refusal_text(*error),
{
    error.to_string()
}

/// `tantivy::Searcher::search` with the collector `TopDocs::with_limit(limit)` ordered
/// by score: at most `limit` addresses of documents of the snapshot, best first, and
/// the same ones whenever the same search is made. The limit must not be 0
/// (`with_limit` panics there) and must be small: the collector sets room aside for
/// twice as many documents before it looks at any. The query must search fields of
/// the snapshot's schema only (the segment readers index the schema with them).
#[verifier::external_body]
pub(crate) fn top_documents(
    searcher: &tantivy::Searcher,
    query: &IndexQuery,
    limit: usize,
) -> (found: Result<Vec<DocRef>, tantivy::TantivyError>)
    requires
        0 < limit <= crate::query::TOP_K,
        query_fits(*searcher, *query),
    ensures
        found matches Ok(hits) ==> {
            &&& hits@ == ranked_hits(*searcher, *query, limit)
            &&& hits.len() <= limit
            &&& forall|i: int|
                0 <= i < hits.len() ==> stored_documents(*searcher).contains_key(
                    #[trigger] hits[i].key(),
                )
        },
{
    let collector = tantivy::collector::TopDocs::with_limit(limit).order_by_score();
    let hits = searcher.search(&*query.inner, &collector)?;
    Ok(hits.into_iter().map(|(_, at)| DocRef { segment: at.segment_ord, doc: at.doc_id }).collect())
}

/// `tantivy::Searcher::doc` and then `TantivyDocument::get_first`: the first value that
/// the document at `address` stores for `field`. The address must be one of the
/// snapshot's: `doc` indexes the list of segments with its ordinal.
#[verifier::external_body]
pub(crate) fn first_stored_value(
    searcher: &tantivy::Searcher,
    address: DocRef,
    field: u32,
) -> (read: Result<FieldValue, tantivy::TantivyError>)
    requires
        stored_documents(*searcher).contains_key(address.key()),
    ensures
        read matches Ok(value) ==> value.is_first_of(
            stored_documents(*searcher)[address.key()],
            field,
        ),
{
    let at = tantivy::DocAddress::new(address.segment, address.doc);
    let document: tantivy::TantivyDocument = searcher.doc(at)?;
    Ok(
        match document.get_first(tantivy::schema::Field::from_field_id(field)) {
            None => FieldValue::Missing,
            Some(value) => match tantivy::schema::Value::as_str(&value) {
                Some(text) => FieldValue::Text(text.to_string()),
                None => FieldValue::Other,
            },
        },
    )
}

} // verus!
