use vstd::prelude::*;
use vstd::string::StringExecFns;

use crate::change_stream::{ChangeOperation, ChangeStreamEvent};
use crate::dup::Dup;
use crate::entity::Entity;
use crate::event::Event;

verus! {

/// An opaque per-field filter predicate, passed through to the backend's
/// match stage: pairs of field name and required value.
pub type MongoFilter = Vec<(String, String)>;

/// The external persistent backend, as the storage layer sees it: the
/// opaque connection parameters passed once at construction. Opening the
/// driver connection, the CRUD round trips against the named collection
/// and the long-lived feed loop are I/O and live with the embedding, which
/// hands every native feed notification to [`translate_change_event`].
pub struct MongoEntityStorage {
    pub connection_string: String,
    pub database_name: String,
    pub app_name: Option<String>,
}

impl MongoEntityStorage {
    /// Record the connection parameters of the backend.
    pub fn new(connection_string: String, database_name: String, app_name: Option<String>) -> (r:
        Self)
        ensures
            r == (MongoEntityStorage { connection_string, database_name, app_name }),
    {
        MongoEntityStorage { connection_string, database_name, app_name }
    }
}

/// The change feed produced an event inconsistent with its documented
/// shape: a full document missing on insert or replace, an update
/// description missing on update, a document key missing or without an
/// identity, or an operation kind that the feed filter should have
/// excluded.
#[derive(Debug)]
pub struct MongoContractViolationError(pub String);

impl MongoContractViolationError {
    /// The description of the violated expectation.
    pub fn message(&self) -> (r: &String)
        ensures
            r == self.0,
    {
        &self.0
    }
}

/// An entity stored in a named collection of the external backend.
pub trait MongoEntity: Entity {
    /// The name of the collection that holds records of this type.
    spec fn collection_name_spec() -> Seq<char>;

    /// Produce the name of the collection that holds records of this
    /// type.
    fn collection_name() -> (r: String)
        ensures
            r@ == Self::collection_name_spec(),
    ;
}

/// The operation kinds a change-feed subscription is restricted to, in
/// the order they are named in the feed's match predicate. Anything
/// outside this list never reaches the translator; if it does, the
/// translator reports a contract violation.
pub fn watched_operations() -> (r: Vec<ChangeOperation>)
    ensures
        r@ == seq![
            ChangeOperation::Update,
            ChangeOperation::Insert,
            ChangeOperation::Delete,
            ChangeOperation::Replace,
        ],
{
    let mut r: Vec<ChangeOperation> = Vec::new();
    r.push(ChangeOperation::Update);
    r.push(ChangeOperation::Insert);
    r.push(ChangeOperation::Delete);
    r.push(ChangeOperation::Replace);
    proof {
        assert(r@ =~= seq![
            ChangeOperation::Update,
            ChangeOperation::Insert,
            ChangeOperation::Delete,
            ChangeOperation::Replace,
        ]);
    }
    r
}

/// Carry each per-field filter predicate into the feed's match predicate
/// under the full-document namespace: entry `(k, v)` becomes
/// `(fullDocument.k, v)`, in order, one for one.
pub fn feed_match_fields(filter: &MongoFilter) -> (r: Vec<(String, String)>)
    ensures
        r@.len() == filter@.len(),
        forall|i: int|
            0 <= i < filter@.len() ==> (#[trigger] r@[i]).0@ == "fullDocument."@ + filter@[i].0@
                && r@[i].1@ == filter@[i].1@,
{
    let mut out: Vec<(String, String)> = Vec::new();
    let mut i: usize = 0;
    while i < filter.len()
        invariant
            0 <= i <= filter@.len(),
            out@.len() == i,
            forall|j: int|
                0 <= j < i ==> (#[trigger] out@[j]).0@ == "fullDocument."@ + filter@[j].0@
                    && out@[j].1@ == filter@[j].1@,
        decreases filter@.len() - i,
    {
        let mut key: String = "fullDocument.".to_owned();
        key.append(filter[i].0.as_str());
        out.push((key, filter[i].1.dup()));
        i = i + 1;
    }
    out
}

/// Parse the changed record's identity out of a native feed notification:
/// the identity under the document key. Fails with a contract violation
/// if the feed supplied no document key, or one without an identity.
pub fn get_id_from_change_event<E: Entity>(event: &ChangeStreamEvent<E>) -> (r: Result<
    E::ID,
    MongoContractViolationError,
>)
    ensures
        event.document_key is None ==> (r matches Err(e) && e.0@
            == "Mongo did not provide document key on change event"@),
        event.document_key matches Some(k) ==> {
            &&& k.id is None ==> (r matches Err(e) && e.0@
                == "Mongo provided no _id on document key"@)
            &&& k.id matches Some(i) ==> r == Result::<E::ID, MongoContractViolationError>::Ok(i)
        },
{
    match &event.document_key {
        Option::None => Result::Err(
            MongoContractViolationError(
                "Mongo did not provide document key on change event".to_owned(),
            ),
        ),
        Option::Some(k) => match &k.id {
            Option::None => Result::Err(
                MongoContractViolationError("Mongo provided no _id on document key".to_owned()),
            ),
            Option::Some(i) => Result::Ok(i.dup()),
        },
    }
}

/// Translate one native feed notification into the domain event model:
///
/// - a native insert becomes `Create` of the full document;
/// - a native update becomes `Update` of the parsed identity and the
///   decoded partial patch;
/// - a native replace becomes `Update` whose patch is the full replacement
///   document converted to "every field set";
/// - a native delete becomes `Delete` of the parsed identity;
/// - anything else is a contract violation, as is any part that the feed
///   owes for the operation kind but did not supply.
pub fn translate_change_event<E: Entity>(event: ChangeStreamEvent<E>) -> (r: Result<
    Event<E>,
    MongoContractViolationError,
>)
    ensures
        event.operation_type is Insert ==> match event.full_document {
            Option::Some(d) => r == Result::<Event<E>, MongoContractViolationError>::Ok(
                Event::Create(d),
            ),
            Option::None => r matches Err(e) && e.0@
                == "Mongo did not provide full document on insert event"@,
        },
        event.operation_type is Update ==> {
            &&& event.document_key is None ==> (r matches Err(e) && e.0@
                == "Mongo did not provide document key on change event"@)
            &&& event.document_key matches Some(k) ==> {
                &&& k.id is None ==> (r matches Err(e) && e.0@
                    == "Mongo provided no _id on document key"@)
                &&& k.id matches Some(i) ==> match event.update_description {
                    Option::Some(ud) => r == Result::<Event<E>, MongoContractViolationError>::Ok(
                        Event::Update { id: i, update: ud.updated_fields },
                    ),
                    Option::None => r matches Err(e) && e.0@
                        == "Mongo did not provide update description on update event"@,
                }
            }
        },
        event.operation_type is Delete ==> {
            &&& event.document_key is None ==> (r matches Err(e) && e.0@
                == "Mongo did not provide document key on change event"@)
            &&& event.document_key matches Some(k) ==> {
                &&& k.id is None ==> (r matches Err(e) && e.0@
                    == "Mongo provided no _id on document key"@)
                &&& k.id matches Some(i) ==> r == Result::<Event<E>, MongoContractViolationError>::Ok(
                    Event::Delete(i),
                )
            }
        },
        event.operation_type is Replace ==> match event.full_document {
            Option::Some(d) => r matches Ok(ev) && ev matches Event::Update { id, update } && id@
                == d.id() && update == d.full_update(),
            Option::None => r matches Err(e) && e.0@
                == "Mongo did not provide full document on insert event"@,
        },
        event.operation_type is Other ==> (r matches Err(e) && e.0@
            == "Mongo returned an event type that was filtered out."@),
{
    match event.operation_type {
        ChangeOperation::Insert => match event.full_document {
            Option::Some(d) => Result::Ok(Event::Create(d)),
            Option::None => Result::Err(
                MongoContractViolationError(
                    "Mongo did not provide full document on insert event".to_owned(),
                ),
            ),
        },
        ChangeOperation::Update => match get_id_from_change_event(&event) {
            Result::Err(e) => Result::Err(e),
            Result::Ok(id) => match event.update_description {
                Option::Some(ud) => Result::Ok(Event::Update { id, update: ud.updated_fields }),
                Option::None => Result::Err(
                    MongoContractViolationError(
                        "Mongo did not provide update description on update event".to_owned(),
                    ),
                ),
            },
        },
        ChangeOperation::Delete => match get_id_from_change_event(&event) {
            Result::Err(e) => Result::Err(e),
            Result::Ok(id) => Result::Ok(Event::Delete(id)),
        },
        ChangeOperation::Replace => match event.full_document {
            Option::Some(d) => {
                let id = d.get_id();
                Result::Ok(Event::Update { id, update: d.into_update() })
            },
            Option::None => Result::Err(
                MongoContractViolationError(
                    "Mongo did not provide full document on insert event".to_owned(),
                ),
            ),
        },
        ChangeOperation::Other => Result::Err(
            MongoContractViolationError(
                "Mongo returned an event type that was filtered out.".to_owned(),
            ),
        ),
    }
}

} // verus!
