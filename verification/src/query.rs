//! Building the query that a text asks for, and running it against a snapshot of
//! the index.

use vstd::prelude::*;
use vstd::string::*;
use crate::classify::QueryKind;
use crate::error::SearchError;
use crate::index::{
    DocRef, IndexQuery, field_named, fuzzy_prefix_query, fuzzy_query_of, has_field,
    parse_structured, parser_answer, parser_message, query_fields, query_fits, ranked_hits,
    schema_fields, stored_documents, top_documents,
};

verus! {

/// The number of matches that a search hands out at most.
pub const TOP_K: usize = 10;

/// The edit distance within which a fuzzy query matches a term.
pub const FUZZY_DISTANCE: u8 = 2;

/// Whether a fuzzy query counts the exchange of two neighbouring characters as one edit.
pub const TRANSPOSITION_COST_ONE: bool = true;

/// The two fields of an indexed document that a search reads, by their ids in the
/// schema: `subject` holds the identifier of the entity, `value` the text to search.
#[derive(Clone, Copy, Debug, PartialEq, Eq, Structural)]
pub struct Fields {
    pub subject: u32,
    pub value: u32,
}

impl Fields {
    /// Both ids are fields of the snapshot's schema.
    pub open spec fn within(self, searcher: tantivy::Searcher) -> bool {
        has_field(searcher, self.subject) && has_field(searcher, self.value)
    }

    /// The ids are those of the fields named `subject` and `value` in the snapshot's
    /// schema.
    pub open spec fn resolved_in(self, searcher: tantivy::Searcher) -> bool {
        &&& self.within(searcher)
        &&& schema_fields(searcher)[self.subject as int] == "subject"@
        &&& schema_fields(searcher)[self.value as int] == "value"@
    }
}

/// The schema of the snapshot has the fields `subject` and `value`.
pub open spec fn has_fields(searcher: tantivy::Searcher) -> bool {
    schema_fields(searcher).contains("subject"@) && schema_fields(searcher).contains("value"@)
}

/// The fields `subject` and `value` of a snapshot whose schema has them.
pub open spec fn fields_of(searcher: tantivy::Searcher) -> Fields {
    choose|fields: Fields| fields.resolved_in(searcher)
}

/// Looks up the fields `subject` and `value` in the schema of a snapshot. Fails with
/// `SchemaViolation` where the schema lacks one of them.
pub fn resolve_fields(searcher: &tantivy::Searcher) -> (resolved: Result<Fields, SearchError>)
    ensures
        match resolved {
            Ok(fields) => has_fields(*searcher) && fields.resolved_in(*searcher) && fields
                == fields_of(*searcher),
            Err(error) => error == SearchError::SchemaViolation && !has_fields(*searcher),
        },
{
    match field_named(searcher, "subject") {
        None => Err(SearchError::SchemaViolation),
        Some(subject) => match field_named(searcher, "value") {
            None => Err(SearchError::SchemaViolation),
            Some(value) => {
                let fields = Fields { subject, value };
                assert(fields.resolved_in(*searcher));
                assert(fields_of(*searcher).resolved_in(*searcher));
                Ok(fields)
            },
        },
    }
}

/// What is handed to the index to make a query, in plain values.
#[derive(Clone, Debug, PartialEq, Eq)]
pub enum QueryPlan {
    /// One term on one field, matched as a prefix within an edit distance.
    Fuzzy { field: u32, term: String, distance: u8, transposition_cost_one: bool },
    /// A text in the query grammar; a clause that names no field searches these two.
    Structured { first: u32, second: u32, text: String },
}

/// A [`QueryPlan`] with its texts as sequences of characters.
pub enum QueryPlanView {
    Fuzzy { field: u32, term: Seq<char>, distance: u8, transposition_cost_one: bool },
    Structured { first: u32, second: u32, text: Seq<char> },
}

impl View for QueryPlan {
    type V = QueryPlanView;

    open spec fn view(&self) -> QueryPlanView {
        match *self {
            QueryPlan::Fuzzy { field, term, distance, transposition_cost_one } => {
                QueryPlanView::Fuzzy { field, term: term@, distance, transposition_cost_one }
            },
            QueryPlan::Structured { first, second, text } => QueryPlanView::Structured {
                first,
                second,
                text: text@,
            },
        }
    }
}

/// The plan for a text of a given kind. A fuzzy query takes the whole text as one
/// term on the `value` field; a structured one is parsed with `subject` and `value`
/// as the fields of clauses that name none.
pub open spec fn plan_of(fields: Fields, text: Seq<char>, kind: QueryKind) -> QueryPlanView {
    match kind {
        QueryKind::Fuzzy => QueryPlanView::Fuzzy {
            field: fields.value,
            term: text,
            distance: FUZZY_DISTANCE,
            transposition_cost_one: TRANSPOSITION_COST_ONE,
        },
        QueryKind::Structured => QueryPlanView::Structured {
            first: fields.subject,
            second: fields.value,
            text,
        },
    }
}

/// Decides what is handed to the index for a text of a given kind.
pub fn plan(fields: &Fields, text: &str, kind: QueryKind) -> (planned: QueryPlan)
    ensures
        planned@ == plan_of(*fields, text@, kind),
{
    match kind {
        QueryKind::Fuzzy => QueryPlan::Fuzzy {
            field: fields.value,
            term: String::from_str(text),
            distance: FUZZY_DISTANCE,
            transposition_cost_one: TRANSPOSITION_COST_ONE,
        },
        QueryKind::Structured => QueryPlan::Structured {
            first: fields.subject,
            second: fields.value,
            text: String::from_str(text),
        },
    }
}

/// A query that is ready to run: the plan it was made from, and the form in which
/// the index runs it.
pub struct ExecutableQuery {
    pub plan: QueryPlan,
    pub query: IndexQuery,
}

/// What becomes of a structured plan once the parser has answered: the query it made,
/// or `QueryParse` with the parser's message.
pub fn parse_outcome(planned: QueryPlan, parsed: Result<IndexQuery, String>) -> (built: Result<
    ExecutableQuery,
    SearchError,
>)
    ensures
        match parsed {
            Ok(query) => built matches Ok(ready) && ready.plan == planned && ready.query == query,
            Err(reason) => built matches Err(SearchError::QueryParse(carried)) && carried@
                == reason@,
        },
{
    match parsed {
        Ok(query) => Ok(ExecutableQuery { plan: planned, query }),
        Err(reason) => Err(SearchError::QueryParse(reason)),
    }
}

/// The query that the index makes of a plan, or the message with which its parser
/// refuses the text of a structured plan.
pub open spec fn query_of(searcher: tantivy::Searcher, planned: QueryPlanView) -> Result<
    IndexQuery,
    Seq<char>,
> {
    match planned {
        QueryPlanView::Fuzzy { field, term, distance, transposition_cost_one } => Ok(
            fuzzy_query_of(field, term, distance, transposition_cost_one),
        ),
        QueryPlanView::Structured { first, second, text } => parser_answer(
            searcher,
            first,
            second,
            text,
        ),
    }
}

/// Builds the query for a text of a given kind. A fuzzy query is always built; a
/// structured one fails with `QueryParse`, and the parser's message, exactly where
/// the parser refuses the text.
pub fn build(searcher: &tantivy::Searcher, fields: &Fields, text: &str, kind: QueryKind) -> (built:
    Result<ExecutableQuery, SearchError>)
    requires
        fields.within(*searcher),
    ensures
        match query_of(*searcher, plan_of(*fields, text@, kind)) {
            Ok(query) => built matches Ok(ready) && ready.query == query,
            Err(message) => built matches Err(SearchError::QueryParse(reason)) && reason@
                == message,
        },
        match built {
            Ok(ready) => {
                &&& ready.plan@ == plan_of(*fields, text@, kind)
                &&& query_fits(*searcher, ready.query)
                &&& kind == QueryKind::Fuzzy ==> query_fields(ready.query) == set![fields.value]
            },
            Err(error) => kind == QueryKind::Structured && error is QueryParse,
        },
{
    let planned = plan(fields, text, kind);
    match &planned {
        QueryPlan::Fuzzy { field, term, distance, transposition_cost_one } => {
            let query = fuzzy_prefix_query(
                *field,
                term.as_str(),
                *distance,
                *transposition_cost_one,
            );
            Ok(ExecutableQuery { plan: planned, query })
        },
        QueryPlan::Structured { first, second, text } => {
            let parsed = match parse_structured(searcher, *first, *second, text.as_str()) {
                Ok(query) => Ok(query),
                Err(error) => Err(parser_message(&error)),
            };
            parse_outcome(planned, parsed)
        },
    }
}

/// The matches of one search: addresses of documents, best first, at most [`TOP_K`].
pub struct MatchSet {
    hits: Vec<DocRef>,
}

impl View for MatchSet {
    type V = Seq<DocRef>;

    closed spec fn view(&self) -> Seq<DocRef> {
        self.hits@
    }
}

impl MatchSet {
    #[verifier::type_invariant]
    spec fn bounded(self) -> bool {
        self.hits@.len() <= TOP_K
    }

    /// Every match is the address of a document of the snapshot.
    pub open spec fn within(self, searcher: tantivy::Searcher) -> bool {
        forall|i: int|
            0 <= i < self@.len() ==> stored_documents(searcher).contains_key(
                #[trigger] self@[i].key(),
            )
    }

    /// The match set of the given hits: the first [`TOP_K`] of them.
    pub fn from_hits(hits: Vec<DocRef>) -> (set: MatchSet)
        ensures
            set@ == if hits@.len() <= TOP_K {
                hits@
            } else {
                hits@.take(TOP_K as int)
            },
    {
        let mut hits = hits;
        if hits.len() > TOP_K {
            hits.truncate(TOP_K);
        }
        MatchSet { hits }
    }

    /// The number of matches.
    pub fn len(&self) -> (n: usize)
        ensures
            n == self@.len(),
            n <= TOP_K,
    {
        proof {
            use_type_invariant(self);
        }
        self.hits.len()
    }

    /// The match at a position.
    pub fn get(&self, at: usize) -> (hit: DocRef)
        requires
            at < self@.len(),
        ensures
            hit == self@[at as int],
    {
        self.hits[at]
    }
}

/// What becomes of a search once the index has answered: the hits as a match set,
/// or `SearchExecution`.
pub fn search_outcome(found: Result<Vec<DocRef>, tantivy::TantivyError>) -> (matched: Result<
    MatchSet,
    SearchError,
>)
    ensures
        match found {
            Ok(hits) => matched matches Ok(set) && set@ == if hits@.len() <= TOP_K {
                hits@
            } else {
                hits@.take(TOP_K as int)
            },
            Err(_) => matched == Err::<MatchSet, SearchError>(SearchError::SearchExecution),
        },
{
    match found {
        Ok(hits) => Ok(MatchSet::from_hits(hits)),
        Err(_) => Err(SearchError::SearchExecution),
    }
}

/// The matches that a search of the snapshot gives for a query and a limit: none for
/// a limit of 0, else what the index ranks best, up to the limit and never more
/// than [`TOP_K`].
pub open spec fn matches_of(searcher: tantivy::Searcher, query: IndexQuery, limit: usize) -> Seq<
    DocRef,
> {
    if limit == 0 {
        Seq::empty()
    } else if limit <= TOP_K {
        ranked_hits(searcher, query, limit)
    } else {
        ranked_hits(searcher, query, TOP_K)
    }
}

/// Runs a query against a snapshot and hands out at most `limit` matches, and never
/// more than [`TOP_K`], best first. With a limit of 0 the index is not asked. A failure
/// of the index is `SearchExecution`.
pub fn execute(searcher: &tantivy::Searcher, query: &ExecutableQuery, limit: usize) -> (matched:
    Result<MatchSet, SearchError>)
    requires
        query_fits(*searcher, query.query),
    ensures
        match matched {
            Ok(set) => {
                &&& set@ == matches_of(*searcher, query.query, limit)
                &&& set@.len() <= limit
                &&& set@.len() <= TOP_K
                &&& set.within(*searcher)
            },
            Err(error) => error == SearchError::SearchExecution && limit > 0,
        },
{
    if limit == 0 {
        return Ok(MatchSet::from_hits(Vec::new()));
    }
    let capped: usize = if limit <= TOP_K {
        limit
    } else {
        TOP_K
    };
    search_outcome(top_documents(searcher, &query.query, capped))
}

} // verus!
