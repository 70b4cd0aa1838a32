//! The result envelope: the resource that describes the search endpoint and carries
//! the entities that were found.

use vstd::prelude::*;
use vstd::string::*;
use crate::error::SearchError;
use crate::store::{
    ItemView, PropertyValue, PropertyValueView, all_writable, as_nested, base_url,
    error_message, json_ad, nested_values, no_values, resource_subject, resource_values,
    set_value, store_base, value_depth, value_writable, writable, write_json_ad,
};

verus! {

/// The property that holds the classes of a resource.
pub const IS_A: &'static str = "https://atomicdata.dev/properties/isA";

/// The class of an endpoint.
pub const ENDPOINT: &'static str = "https://atomicdata.dev/classes/Endpoint";

/// The property that holds the description of a resource.
pub const DESCRIPTION: &'static str = "https://atomicdata.dev/properties/description";

/// The property that holds the results of an endpoint.
pub const ENDPOINT_RESULTS: &'static str = "https://atomicdata.dev/properties/endpoint/results";

/// The property that holds the parameters that an endpoint accepts.
pub const ENDPOINT_PARAMETERS: &'static str = "https://atomicdata.dev/properties/endpoint/parameters";

/// The parameter that carries the query text.
pub const SEARCH_QUERY: &'static str = "https://atomicdata.dev/properties/search/query";

/// What the envelope says of the query syntax.
pub const DESCRIPTION_TEXT: &'static str =
    "Full text-search endpoint. You can use the keyword `AND` and `OR`, or use `\"` for advanced searches. ";

/// What is said of an envelope that cannot be written.
pub const NOT_WRITABLE: &'static str =
    "A resource that is held whole as a value cannot be written as JSON-AD";

/// The address of the envelope: the base URL of the service, followed by the path and
/// query of the request. Without a base URL the result is `MissingBaseUrl`; with one,
/// but without a path and query, it is `MissingQuery`.
pub open spec fn address_of(base: Option<Seq<char>>, path_and_query: Option<Seq<char>>) -> Result<
    Seq<char>,
    SearchError,
> {
    match base {
        None => Err(SearchError::MissingBaseUrl),
        Some(url) => match path_and_query {
            None => Err(SearchError::MissingQuery),
            Some(rest) => Ok(url + rest),
        },
    }
}

/// Computes the address of the envelope.
pub fn envelope_address(base: Option<String>, path_and_query: Option<&str>) -> (address: Result<
    String,
    SearchError,
>)
    ensures
        match address {
            Ok(url) => address_of(
                match base {
                    Some(b) => Some(b@),
                    None => None,
                },
                match path_and_query {
                    Some(rest) => Some(rest@),
                    None => None,
                },
            ) == Ok::<Seq<char>, SearchError>(url@),
            Err(error) => address_of(
                match base {
                    Some(b) => Some(b@),
                    None => None,
                },
                match path_and_query {
                    Some(rest) => Some(rest@),
                    None => None,
                },
            ) == Err::<Seq<char>, SearchError>(error),
        },
{
    match base {
        None => Err(SearchError::MissingBaseUrl),
        Some(url) => match path_and_query {
            None => Err(SearchError::MissingQuery),
            Some(rest) => Ok(url.concat(rest)),
        },
    }
}

/// The values of the envelope for the given entities: its class, the description of
/// the query syntax, the entities as its results, and the parameter it accepts.
pub open spec fn envelope_values(entities: Seq<atomic_lib::Resource>) -> Map<
    Seq<char>,
    PropertyValueView,
> {
    no_values().insert(
        IS_A@,
        PropertyValueView::Items(seq![ItemView::Subject(ENDPOINT@)]),
    ).insert(DESCRIPTION@, PropertyValueView::Markdown(DESCRIPTION_TEXT@)).insert(
        ENDPOINT_RESULTS@,
        PropertyValueView::Items(entities.map_values(|r: atomic_lib::Resource| ItemView::Whole(r))),
    ).insert(ENDPOINT_PARAMETERS@, PropertyValueView::Items(seq![ItemView::Subject(SEARCH_QUERY@)]))
}

/// `resource` is the envelope at `address` for `entities`.
pub open spec fn is_envelope(
    resource: atomic_lib::Resource,
    address: Seq<char>,
    entities: Seq<atomic_lib::Resource>,
) -> bool {
    &&& resource_subject(resource) == address
    &&& resource_values(resource) == envelope_values(entities)
}

/// A list that holds one subject.
fn one_subject(subject: &str) -> (subjects: Vec<String>)
    ensures
        subjects@.map_values(|s: String| ItemView::Subject(s@)) == seq![
            ItemView::Subject(subject@),
        ],
{
    let mut subjects: Vec<String> = Vec::new();
    subjects.push(String::from_str(subject));
    assert(subjects@.map_values(|s: String| ItemView::Subject(s@)) =~= seq![
        ItemView::Subject(subject@),
    ]);
    subjects
}

/// The failure that a refusal of the store becomes.
fn refused(error: &atomic_lib::AtomicError) -> (failure: SearchError)
    ensures
        failure is Serialization,
{
    SearchError::Serialization(error_message(error))
}

/// Whether every one of the entities can be written as JSON-AD.
pub fn can_write_all(entities: &Vec<atomic_lib::Resource>) -> (able: bool)
    ensures
        able == all_writable(entities@),
{
    let mut i: usize = 0;
    while i < entities.len()
        invariant
            i <= entities.len(),
            forall|j: int| 0 <= j < i ==> writable(#[trigger] entities@[j]),
        decreases entities.len() - i,
    {
        if !can_write(&entities[i]) {
            return false;
        }
        i += 1;
    }
    true
}

/// Builds the envelope at an address for the given entities. Entities that cannot all
/// be written are `Serialization` before the store is asked. The store checks each
/// property; where it refuses one, the result is `Serialization` with its message.
pub fn build_envelope(
    store: &atomic_lib::Db,
    address: String,
    entities: Vec<atomic_lib::Resource>,
) -> (built: Result<atomic_lib::Resource, SearchError>)
    ensures
        match built {
            Ok(envelope) => is_envelope(envelope, address@, entities@) && all_writable(entities@),
            Err(error) => error is Serialization,
        },
        !all_writable(entities@) ==> (built matches Err(SearchError::Serialization(reason))
            && reason@ == NOT_WRITABLE@),
{
    if !can_write_all(&entities) {
        return Err(SearchError::Serialization(String::from_str(NOT_WRITABLE)));
    }
    let mut envelope = atomic_lib::Resource::new(address);
    if let Err(error) = set_value(
        &mut envelope,
        IS_A,
        PropertyValue::Subjects(one_subject(ENDPOINT)),
        store,
    ) {
        return Err(refused(&error));
    }
    if let Err(error) = set_value(
        &mut envelope,
        DESCRIPTION,
        PropertyValue::Markdown(String::from_str(DESCRIPTION_TEXT)),
        store,
    ) {
        return Err(refused(&error));
    }
    if let Err(error) = set_value(
        &mut envelope,
        ENDPOINT_RESULTS,
        PropertyValue::Resources(entities),
        store,
    ) {
        return Err(refused(&error));
    }
    if let Err(error) = set_value(
        &mut envelope,
        ENDPOINT_PARAMETERS,
        PropertyValue::Subjects(one_subject(SEARCH_QUERY)),
        store,
    ) {
        return Err(refused(&error));
    }
    Ok(envelope)
}

/// What becomes of the envelope once it has been written: the text, or
/// `Serialization` with the message of the failure.
pub fn written_outcome(written: Result<String, String>) -> (body: Result<String, SearchError>)
    ensures
        match written {
            Ok(text) => body == Ok::<String, SearchError>(text),
            Err(reason) => body == Err::<String, SearchError>(SearchError::Serialization(reason)),
        },
{
    match written {
        Ok(text) => Ok(text),
        Err(reason) => Err(SearchError::Serialization(reason)),
    }
}

/// Writes an envelope as JSON-AD; one that cannot be written is `Serialization`.
pub fn serialize(envelope: &atomic_lib::Resource) -> (body: Result<String, SearchError>)
    ensures
        match body {
            Ok(text) => writable(*envelope) && text@ == json_ad(*envelope),
            Err(error) => {
                &&& !writable(*envelope)
                &&& error matches SearchError::Serialization(reason)
                &&& reason@ == NOT_WRITABLE@
            },
        },
{
    if !can_write(envelope) {
        return Err(SearchError::Serialization(String::from_str(NOT_WRITABLE)));
    }
    let written = match write_json_ad(envelope) {
        Ok(text) => Ok(text),
        Err(error) => Err(error_message(&error)),
    };
    written_outcome(written)
}

/// Whether a value can be written as JSON-AD: it is no whole resource held as a
/// value, and neither is any value nested under it.
pub fn value_is_writable(value: &atomic_lib::Value) -> (able: bool)
    ensures
        able == value_writable(*value),
    decreases value_depth(*value),
{
    match nested_values(value) {
        None => false,
        Some(inner) => {
            let mut i: usize = 0;
            while i < inner.len()
                invariant
                    i <= inner.len(),
                    forall|j: int| 0 <= j < i ==> value_writable(#[trigger] inner[j]),
                    value_writable(*value) <==> forall|j: int|
                        0 <= j < inner.len() ==> value_writable(#[trigger] inner[j]),
                    forall|j: int|
                        0 <= j < inner.len() ==> value_depth(#[trigger] inner[j]) < value_depth(
                            *value,
                        ),
                decreases inner.len() - i,
            {
                if !value_is_writable(&inner[i]) {
                    return false;
                }
                i += 1;
            }
            true
        },
    }
}

/// Whether a resource can be written as JSON-AD: none of its values, at any depth,
/// is a whole resource held as a value.
pub fn can_write(resource: &atomic_lib::Resource) -> (able: bool)
    ensures
        able == writable(*resource),
{
    let value = as_nested(resource);
    value_is_writable(&value)
}

/// The envelope of a request: at the base URL of the store followed by the path and
/// query of the request, for the given entities. Fails with `MissingBaseUrl` where the
/// store has no base URL, with `MissingQuery` where the request has no path and
/// query, and with `Serialization` where an entity cannot be written or the store
/// refuses a property.
pub fn envelope_for(
    store: &atomic_lib::Db,
    path_and_query: Option<&str>,
    entities: Vec<atomic_lib::Resource>,
) -> (built: Result<atomic_lib::Resource, SearchError>)
    ensures
        store_base(*store) is None ==> built == Err::<atomic_lib::Resource, SearchError>(
            SearchError::MissingBaseUrl,
        ),
        store_base(*store) is Some && path_and_query is None ==> built == Err::<
            atomic_lib::Resource,
            SearchError,
        >(SearchError::MissingQuery),
        store_base(*store) is Some && path_and_query is Some ==> match built {
            Ok(envelope) => all_writable(entities@) && is_envelope(
                envelope,
                store_base(*store)->0 + path_and_query->0@,
                entities@,
            ),
            Err(error) => {
                &&& error is Serialization
                &&& !all_writable(entities@) ==> (error matches SearchError::Serialization(reason)
                    && reason@ == NOT_WRITABLE@)
            },
        },
{
    let address = match envelope_address(base_url(store), path_and_query) {
        Ok(address) => address,
        Err(error) => {
            return Err(error);
        },
    };
    build_envelope(store, address, entities)
}

/// Assembles the response for the entities of a search: the envelope at the address
/// of the request, written as JSON-AD. Fails with `MissingBaseUrl` where the store has
/// no base URL, with `MissingQuery` where the request has no path and query, and with
/// `Serialization` where the envelope cannot be built or written.
pub fn assemble(
    store: &atomic_lib::Db,
    path_and_query: Option<&str>,
    entities: Vec<atomic_lib::Resource>,
) -> (body: Result<String, SearchError>)
    ensures
        store_base(*store) is None ==> body == Err::<String, SearchError>(
            SearchError::MissingBaseUrl,
        ),
        store_base(*store) is Some && path_and_query is None ==> body == Err::<
            String,
            SearchError,
        >(SearchError::MissingQuery),
        store_base(*store) is Some && path_and_query is Some ==> (body matches Err(error)
            ==> error is Serialization),
        body matches Ok(text) ==> exists|envelope: atomic_lib::Resource|
            #[trigger] is_envelope(
                envelope,
                store_base(*store)->0 + path_and_query->0@,
                entities@,
            ) && writable(envelope) && text@ == json_ad(envelope),
{
    match envelope_for(store, path_and_query, entities) {
        Ok(envelope) => {
            let body = serialize(&envelope);
            assert(body is Ok ==> is_envelope(
                envelope,
                store_base(*store)->0 + path_and_query->0@,
                entities@,
            ));
            body
        },
        Err(error) => Err(error),
    }
}

} // verus!
