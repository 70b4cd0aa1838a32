//! The backing store, as this library sees it: it is asked for its base URL and for
//! entities by their subject, and it checks the properties of the result envelope.
//! Everything in this file that touches the store is believed of the `atomic_lib`
//! crate and not proved.

use vstd::prelude::*;

verus! {

/// `atomic_lib::Db`: the store. Nothing is known of what is inside but its base URL.
#[verifier::external_type_specification]
#[verifier::external_body]
pub struct ExDb(atomic_lib::Db);

/// `atomic_lib::Resource`: an entity, or the result envelope. Nothing is known of
/// what is inside but what the names below say.
#[verifier::external_type_specification]
#[verifier::external_body]
pub struct ExResource(atomic_lib::Resource);

/// `atomic_lib::AtomicError`: a failure of the store. Only its message is read, by
/// [`error_message`].
#[verifier::external_type_specification]
#[verifier::external_body]
pub struct ExAtomicError(atomic_lib::AtomicError);

/// `atomic_lib::Value`: a value that a resource holds for a property. It is taken
/// apart by [`nested_values`] only.
#[verifier::external_type_specification]
#[verifier::external_body]
pub struct ExValue(atomic_lib::Value);

/// On whose behalf an entity is read from the store.
pub enum Reader {
    /// Nobody in particular: rights are not checked.
    Unchecked,
    /// The public.
    Public,
    /// The agent with the given subject.
    Agent(String),
}

/// A value that the result envelope holds for one of its properties.
pub enum PropertyValue {
    /// References to resources, by their subjects.
    Subjects(Vec<String>),
    /// A text in Markdown.
    Markdown(String),
    /// Whole resources, nested.
    Resources(Vec<atomic_lib::Resource>),
}

/// One item of a list that a resource holds as a value.
pub enum ItemView {
    /// A reference to a resource, by its subject.
    Subject(Seq<char>),
    /// A whole resource, nested.
    Whole(atomic_lib::Resource),
    /// Values without a subject of their own, which this library never sets.
    Other,
}

/// What a resource holds for a property: a list of items, a text in Markdown, or a
/// value of a kind that this library never sets. A list of subjects and a list of
/// resources are both lists of items, so that two empty lists are the same value.
pub enum PropertyValueView {
    Items(Seq<ItemView>),
    Markdown(Seq<char>),
    Other,
}

impl View for PropertyValue {
    type V = PropertyValueView;

    open spec fn view(&self) -> PropertyValueView {
        match *self {
            PropertyValue::Subjects(subjects) => PropertyValueView::Items(
                subjects@.map_values(|s: String| ItemView::Subject(s@)),
            ),
            PropertyValue::Markdown(text) => PropertyValueView::Markdown(text@),
            PropertyValue::Resources(resources) => PropertyValueView::Items(
                resources@.map_values(|r: atomic_lib::Resource| ItemView::Whole(r)),
            ),
        }
    }
}

/// The subject of a resource: the URL at which it is addressed.
pub uninterp spec fn resource_subject(resource: atomic_lib::Resource) -> Seq<char>;

/// The values that a resource holds, by the URL of the property, each read as a
/// [`PropertyValueView`].
pub uninterp spec fn resource_values(resource: atomic_lib::Resource) -> Map<
    Seq<char>,
    PropertyValueView,
>;

/// A resource as JSON-AD: the text in which it goes over the wire, with its subject
/// under `@id` and each value under the URL of its property, the keys of every
/// object in order.
pub uninterp spec fn json_ad(resource: atomic_lib::Resource) -> Seq<char>;

/// Whether a value can be written as JSON-AD: neither the value nor any value nested
/// under it, at any depth, is a whole resource held as a value (`Value::Resource`).
pub uninterp spec fn value_writable(value: atomic_lib::Value) -> bool;

/// Whether a resource can be written as JSON-AD: every value it holds can.
pub uninterp spec fn writable(resource: atomic_lib::Resource) -> bool;

/// Every one of the resources can be written as JSON-AD.
pub open spec fn all_writable(resources: Seq<atomic_lib::Resource>) -> bool {
    forall|i: int| 0 <= i < resources.len() ==> writable(#[trigger] resources[i])
}

/// How deep values are nested under a value: more than under any value nested
/// directly under it.
pub uninterp spec fn value_depth(value: atomic_lib::Value) -> nat;

/// The URL at which a store is hosted, as it was given when the store was opened;
/// `None` for a store that is no server.
pub uninterp spec fn store_base(store: atomic_lib::Db) -> Option<Seq<char>>;

/// The values of a resource that holds none.
pub open spec fn no_values() -> Map<Seq<char>, PropertyValueView> {
    Map::empty()
}

/// `atomic_lib::Resource::new`: a resource with the given subject and no values.
pub assume_specification[ atomic_lib::Resource::new ](subject: String) -> (made:
    atomic_lib::Resource)
    ensures
        resource_subject(made) == subject@,
        resource_values(made) == no_values(),
;

/// `atomic_lib::Resource::to_json_ad`: the resource written as JSON-AD. The text is
/// [`json_ad`] of the resource: it depends on nothing but the resource. The method
/// reads the subject and the values, collects them in a `serde_json` map, which
/// keeps its keys in order, and writes that map; none of these steps fails. It
/// panics on a `Value::Resource`, so the resource must hold none at any depth.
#[verifier::external_body]
pub(crate) fn write_json_ad(
    resource: &atomic_lib::Resource,
) -> (written: Result<String, atomic_lib::AtomicError>)
    requires
        writable(*resource),
    ensures
        written is Ok,
        written matches Ok(text) ==> text@ == json_ad(*resource),
{
    resource.to_json_ad()
}

/// The resource as a value: nested whole under a `Value::NestedResource`, which is
/// how a resource is held where it can be written. The value can be written
/// exactly if the resource can.
#[verifier::external_body]
pub(crate) fn as_nested(resource: &atomic_lib::Resource) -> (value: atomic_lib::Value)
    ensures
        value_writable(value) == writable(*resource),
{
    atomic_lib::Value::NestedResource(atomic_lib::values::SubResource::from(resource.clone()))
}

/// Takes a value apart, by its variant: `None` for a `Value::Resource`; else the
/// values nested directly under it, which are the values of the resources and of the
/// sets of values that a `NestedResource` or a `ResourceArray` holds, and none for
/// the other variants. The value can be written exactly if it is no
/// `Value::Resource` and every value nested under it can.
#[verifier::external_body]
pub(crate) fn nested_values(value: &atomic_lib::Value) -> (nested: Option<Vec<atomic_lib::Value>>)
    ensures
        match nested {
            None => !value_writable(*value),
            Some(inner) => {
                &&& value_writable(*value) <==> forall|i: int|
                    0 <= i < inner.len() ==> value_writable(#[trigger] inner[i])
                &&& forall|i: int|
                    0 <= i < inner.len() ==> value_depth(#[trigger] inner[i]) < value_depth(
                        *value,
                    )
            },
        },
{
    let items = match value {
        atomic_lib::Value::Resource(_) => return None,
        atomic_lib::Value::NestedResource(item) => vec![item.clone()],
        atomic_lib::Value::ResourceArray(items) => items.clone(),
        _ => Vec::new(),
    };
    Some(items.into_iter().flat_map(|item| match item {
        atomic_lib::values::SubResource::Resource(whole) => whole.into_propvals().into_values(),
        atomic_lib::values::SubResource::Nested(values) => values.into_values(),
        atomic_lib::values::SubResource::Subject(_) => {
            atomic_lib::resources::PropVals::new().into_values()
        },
    }).collect())
}

/// `atomic_lib::Resource::set`: gives the resource a value for a property, after the
/// store has checked the property and the datatype of the value. Where the check
/// fails, the resource is left as it was. A refusal writes the value into its
/// message, nested resources as JSON-AD, so every resource in the value must be one
/// that can be written.
#[verifier::external_body]
pub(crate) fn set_value(
    resource: &mut atomic_lib::Resource,
    property: &str,
    value: PropertyValue,
    store: &atomic_lib::Db,
) -> (set: Result<(), atomic_lib::AtomicError>)
    requires
        value matches PropertyValue::Resources(resources) ==> all_writable(resources@),
    ensures
        match set {
            Ok(()) => {
                &&& resource_subject(*final(resource)) == resource_subject(*old(resource))
                &&& resource_values(*final(resource)) == resource_values(*old(resource)).insert(
                    property@,
                    value@,
                )
            },
            Err(_) => *final(resource) == *old(resource),
        },
{
    let value = match value {
        PropertyValue::Subjects(subjects) => atomic_lib::Value::from(subjects),
        PropertyValue::Markdown(text) => atomic_lib::Value::Markdown(text),
        PropertyValue::Resources(resources) => atomic_lib::Value::from(resources),
    };
    resource.set(property.to_string(), value, store).map(|_| ())
}

/// `atomic_lib::Storelike::get_self_url` on the store: the URL at which the service
/// is hosted, if it has one. The store keeps it unchanged from the day it was opened.
#[verifier::external_body]
pub(crate) fn base_url(store: &atomic_lib::Db) -> (url: Option<String>)
    ensures
        match url {
            Some(text) => store_base(*store) == Some(text@),
            None => store_base(*store) is None,
        },
{
    atomic_lib::Storelike::get_self_url(store)
}

/// `atomic_lib::Storelike::get_resource_extended` on the store: the entity with the
/// given subject. The entity that comes back is addressed by the subject that was
/// asked for. The contract admits only a fetch that leaves out the dynamic properties
/// of an entity and does not check rights: this library does not vouch for the code
/// that computes the one and checks the other. A subject that is an endpoint of the
/// store is still answered by the handler of that endpoint, and a subject that the
/// store does not hold may still be asked of the server it names.
#[verifier::external_body]
pub(crate) fn fetch_entity(
    store: &atomic_lib::Db,
    subject: &str,
    skip_dynamic: bool,
    reader: &Reader,
) -> (fetched: Result<atomic_lib::Resource, atomic_lib::AtomicError>)
    requires
        skip_dynamic,
        reader is Unchecked,
    ensures
        fetched matches Ok(entity) ==> resource_subject(entity) == subject@,
{
    let for_agent = match reader {
        Reader::Unchecked => atomic_lib::agents::ForAgent::Sudo,
        Reader::Public => atomic_lib::agents::ForAgent::Public,
        Reader::Agent(agent) => atomic_lib::agents::ForAgent::AgentSubject(agent.clone()),
    };
    atomic_lib::Storelike::get_resource_extended(store, subject, skip_dynamic, &for_agent)
}

/// The text of an `atomic_lib::AtomicError`, as its `Display` writes it.
#[verifier::external_body]
pub(crate) fn error_message(error: &atomic_lib::AtomicError) -> (text: String) {
    error.to_string()
}

} // verus!
