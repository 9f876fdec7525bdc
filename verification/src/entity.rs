use vstd::prelude::*;

use crate::dup::Dup;
use crate::updatable::Updatable;

verus! {

/// Identity values: the designated field type that uniquely addresses an
/// entity instance. Equality of identities is decided by their abstract
/// views, which is what all store contracts are phrased over.
pub trait IDTrait: View + Dup + Sized {
    /// Decide whether two identities address the same record.
    fn id_eq(&self, other: &Self) -> (r: bool)
        ensures
            r == (self@ == other@),
    ;
}

impl IDTrait for String {
    fn id_eq(&self, other: &Self) -> (r: bool)
        ensures
            r == (self@ == other@),
    {
        *self == *other
    }
}

impl IDTrait for i32 {
    fn id_eq(&self, other: &Self) -> (r: bool)
        ensures
            r == (self@ == other@),
    {
        *self == *other
    }
}

impl IDTrait for u64 {
    fn id_eq(&self, other: &Self) -> (r: bool)
        ensures
            r == (self@ == other@),
    {
        *self == *other
    }
}

/// Partial-update payloads: plain data that can be copied exactly.
pub trait UpdateTrait: Dup + Sized {}

impl<T: Dup + Sized> UpdateTrait for T {}

/// Everything a storable record must provide short of naming its identity:
/// exact copies and in-place patching by its update type.
pub trait ProtoEntity<U: UpdateTrait>: Updatable<U> + Dup + Sized {}

impl<U: UpdateTrait, T: Updatable<U> + Dup + Sized> ProtoEntity<U> for T {}

/// A keyed, patchable record type.
///
/// Exactly one part of the record is its identity; two records of the same
/// type are equal if and only if their identities are equal, whatever the
/// other fields hold. Every entity type has an associated update type in
/// which every non-identity field is optional, and can be converted into an
/// update that has every such field set (a full snapshot as a patch).
pub trait Entity: ProtoEntity<Self::Update> {
    /// The partial-update representation paired with this entity type.
    type Update: UpdateTrait;

    /// The identity field's value type.
    type ID: IDTrait;

    /// The identity of this record, as an abstract value.
    spec fn id(&self) -> <Self::ID as View>::V;

    /// The patch that carries every non-identity field of this record.
    spec fn full_update(self) -> Self::Update;

    /// Read the identity of this record.
    fn get_id(&self) -> (id: Self::ID)
        ensures
            id@ == self.id(),
    ;

    /// Convert this record into the patch that sets every non-identity
    /// field to the record's value.
    fn into_update(self) -> (u: Self::Update)
        ensures
            u == self.full_update(),
    ;

    /// Entity equality is identity equality: two records of the same type
    /// are equal exactly when their identities agree, regardless of what
    /// the other fields hold.
    fn entity_eq(&self, other: &Self) -> (r: bool)
        ensures
            r == (self.id() == other.id()),
    {
        let a = self.get_id();
        let b = other.get_id();
        a.id_eq(&b)
    }

    /// Patching never moves a record to another identity.
    proof fn lemma_applied_preserves_id(e: Self, with: Self::Update)
        ensures
            e.applied(with).id() == e.id(),
    ;

    /// Applying a record's full snapshot patch to any record with the same
    /// identity reproduces the record: the result still carries that
    /// identity, and its non-identity fields — captured exactly by its own
    /// full snapshot patch — are the original's.
    proof fn lemma_full_update_round_trip(base: Self, e: Self)
        requires
            base.id() == e.id(),
        ensures
            base.applied(e.full_update()).id() == e.id(),
            base.applied(e.full_update()).full_update() == e.full_update(),
    ;
}

} // verus!
