use vstd::prelude::*;

use crate::change_stream::{ChangeOperation, ChangeStreamEvent};
use crate::dup::Dup;
use crate::entity::Entity;
use crate::event::Event;

verus! {

/// The external persistent backend, as the storage layer sees it: the
/// opaque connection parameters passed once at construction. Opening the
/// driver connection, the CRUD round trips against the named collection
/// and the long-lived feed loop are I/O and live with the embedding, which
/// hands every native feed notification to [`translate_change_event`].
pub struct MongoDBStore {
    pub connection_string: String,
    pub database_name: String,
    pub app_name: Option<String>,
}

impl MongoDBStore {
    /// Record the connection parameters of the backend.
    pub fn new(connection_string: String, database_name: String, app_name: Option<String>) -> (r:
        Self)
        ensures
            r == (MongoDBStore { connection_string, database_name, app_name }),
    {
        MongoDBStore { connection_string, database_name, app_name }
    }
}

/// The change feed produced an event inconsistent with its documented
/// shape: a full document missing on insert or replace, an update
/// description missing on update, a document key missing or without an
/// identity, or an operation kind that the feed filter should have
/// excluded.
#[derive(Debug)]
pub struct MongoDBContractViolationError(pub String);

impl MongoDBContractViolationError {
    /// The description of the violated expectation.
    pub fn message(&self) -> (r: &String)
        ensures
            r == self.0,
    {
        &self.0
    }
}

/// Parse the changed record's identity out of a native feed notification:
/// the identity under the document key. Fails with a contract violation
/// if the feed supplied no document key, or one without an identity.
pub fn get_id_from_change_event<E: Entity>(event: &ChangeStreamEvent<E>) -> (r: Result<
    E::ID,
    MongoDBContractViolationError,
>)
    ensures
        event.document_key is None ==> (r matches Err(e) && e.0@
            == "MongoDB did not provide document key on change event"@),
        event.document_key matches Some(k) ==> {
            &&& k.id is None ==> (r matches Err(e) && e.0@
                == "MongoDB provided no _id on document key"@)
            &&& k.id matches Some(i) ==> r == Result::<E::ID, MongoDBContractViolationError>::Ok(i)
        },
{
    match &event.document_key {
        Option::None => Result::Err(
            MongoDBContractViolationError(
                "MongoDB did not provide document key on change event".to_owned(),
            ),
        ),
        Option::Some(k) => match &k.id {
            Option::None => Result::Err(
                MongoDBContractViolationError("MongoDB provided no _id on document key".to_owned()),
            ),
            Option::Some(i) => Result::Ok(i.dup()),
        },
    }
}

/// Translate one native feed notification into the domain event model:
///
/// - a native insert becomes `Create` of the full document;
/// - a native update becomes `Update` of the parsed identity and the
///   decoded partial patch;
/// - a native replace becomes `Update` whose patch is the full replacement
///   document converted to "every field set";
/// - a native delete becomes `Delete` of the parsed identity;
/// - anything else is a contract violation, as is any part that the feed
///   owes for the operation kind but did not supply.
pub fn translate_change_event<E: Entity>(event: ChangeStreamEvent<E>) -> (r: Result<
    Event<E>,
    MongoDBContractViolationError,
>)
    ensures
        event.operation_type is Insert ==> match event.full_document {
            Option::Some(d) => r == Result::<Event<E>, MongoDBContractViolationError>::Ok(
                Event::Create(d),
            ),
            Option::None => r matches Err(e) && e.0@
                == "MongoDB did not provide full document on insert event"@,
        },
        event.operation_type is Update ==> {
            &&& event.document_key is None ==> (r matches Err(e) && e.0@
                == "MongoDB did not provide document key on change event"@)
            &&& event.document_key matches Some(k) ==> {
                &&& k.id is None ==> (r matches Err(e) && e.0@
                    == "MongoDB provided no _id on document key"@)
                &&& k.id matches Some(i) ==> match event.update_description {
                    Option::Some(ud) => r == Result::<Event<E>, MongoDBContractViolationError>::Ok(
                        Event::Update { id: i, update: ud.updated_fields },
                    ),
                    Option::None => r matches Err(e) && e.0@
                        == "MongoDB did not provide update description on update event"@,
                }
            }
        },
        event.operation_type is Delete ==> {
            &&& event.document_key is None ==> (r matches Err(e) && e.0@
                == "MongoDB did not provide document key on change event"@)
            &&& event.document_key matches Some(k) ==> {
                &&& k.id is None ==> (r matches Err(e) && e.0@
                    == "MongoDB provided no _id on document key"@)
                &&& k.id matches Some(i) ==> r == Result::<Event<E>, MongoDBContractViolationError>::Ok(
                    Event::Delete(i),
                )
            }
        },
        event.operation_type is Replace ==> match event.full_document {
            Option::Some(d) => r matches Ok(ev) && ev matches Event::Update { id, update } && id@
                == d.id() && update == d.full_update(),
            Option::None => r matches Err(e) && e.0@
                == "MongoDB did not provide full document on insert event"@,
        },
        event.operation_type is Other ==> (r matches Err(e) && e.0@
            == "MongoDB returned an event type that was filtered out."@),
{
    match event.operation_type {
        ChangeOperation::Insert => match event.full_document {
            Option::Some(d) => Result::Ok(Event::Create(d)),
            Option::None => Result::Err(
                MongoDBContractViolationError(
                    "MongoDB did not provide full document on insert event".to_owned(),
                ),
            ),
        },
        ChangeOperation::Update => match get_id_from_change_event(&event) {
            Result::Err(e) => Result::Err(e),
            Result::Ok(id) => match event.update_description {
                Option::Some(ud) => Result::Ok(Event::Update { id, update: ud.updated_fields }),
                Option::None => Result::Err(
                    MongoDBContractViolationError(
                        "MongoDB did not provide update description on update event".to_owned(),
                    ),
                ),
            },
        },
        ChangeOperation::Delete => match get_id_from_change_event(&event) {
            Result::Err(e) => Result::Err(e),
            Result::Ok(id) => Result::Ok(Event::Delete(id)),
        },
        ChangeOperation::Replace => match event.full_document {
            Option::Some(d) => {
                let id = d.get_id();
                Result::Ok(Event::Update { id, update: d.into_update() })
            },
            Option::None => Result::Err(
                MongoDBContractViolationError(
                    "MongoDB did not provide full document on insert event".to_owned(),
                ),
            ),
        },
        ChangeOperation::Other => Result::Err(
            MongoDBContractViolationError(
                "MongoDB returned an event type that was filtered out.".to_owned(),
            ),
        ),
    }
}

} // verus!
