use vstd::prelude::*;

use crate::entity::Entity;

verus! {

/// The operation kind of a native change-feed notification. A feed
/// subscription is filtered to the first four kinds; `Other` stands for
/// any operation kind outside that filter, whose arrival indicates a
/// disagreement between translator and feed.
pub enum ChangeOperation {
    Insert,
    Update,
    Replace,
    Delete,
    Other,
}

/// The document key of a native change-feed notification: the record
/// identity, when the feed supplied one under its key field.
pub struct DocumentKey<I> {
    pub id: Option<I>,
}

/// The update description of a native change-feed notification: the
/// fields that the native update touched, already decoded to the entity's
/// partial-update representation.
pub struct UpdateDescription<U> {
    pub updated_fields: U,
}

/// A native change-feed notification, as plain values: what an external
/// store's change stream reports for one document of the collection
/// associated with the entity type `E`. Whether each optional part is
/// present is exactly what the translation contract turns on.
pub struct ChangeStreamEvent<E: Entity> {
    pub operation_type: ChangeOperation,
    pub full_document: Option<E>,
    pub document_key: Option<DocumentKey<E::ID>>,
    pub update_description: Option<UpdateDescription<E::Update>>,
}

} // verus!
