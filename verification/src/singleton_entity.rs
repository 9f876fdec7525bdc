use vstd::prelude::*;
use vstd::std_specs::cmp::PartialEqSpec;

use crate::dup::Dup;
use crate::entity::{Entity, IDTrait, UpdateTrait};
use crate::updatable::Updatable;

verus! {

/// A value type with exactly one logical instance, addressed by a fixed,
/// compile-time-known identity value and type name.
pub trait Singleton: Updatable<Self::Update> + Dup + Sized {
    /// The partial-update representation paired with this singleton type.
    type Update: UpdateTrait;

    /// The fixed identity value under which the one instance is stored.
    spec fn entity_id_spec() -> Seq<char>;

    /// The name of this record kind.
    spec fn kind_name_spec() -> Seq<char>;

    /// The patch that carries every field of this value.
    spec fn full_update(self) -> Self::Update;

    /// Produce the fixed identity value.
    fn entity_id() -> (r: String)
        ensures
            r@ == Self::entity_id_spec(),
    ;

    /// Produce the name of this record kind.
    fn kind_name() -> (r: String)
        ensures
            r@ == Self::kind_name_spec(),
    ;

    /// Convert this value into the patch that sets every field.
    fn into_update(self) -> (u: Self::Update)
        ensures
            u == self.full_update(),
    ;

    /// Applying a value's full snapshot patch to any value of the same type
    /// reproduces the original value exactly.
    proof fn lemma_full_update_round_trip(base: Self, e: Self)
        ensures
            base.applied(e.full_update()) == e,
    ;
}

/// Wraps a [`Singleton`] value so that it satisfies the [`Entity`] contract:
/// the identity is the type's declared fixed value, and equality between any
/// two instances of the same singleton type always holds, since there is
/// conceptually one slot.
pub struct SingletonEntity<S: Singleton>(pub S);

/// The update type paired with [`SingletonEntity`], delegating to the
/// wrapped type's own update representation.
pub struct SingletonEntityUpdate<S: Singleton>(pub S::Update);

impl<S: Singleton> SingletonEntity<S> {
    /// Wrap a singleton value.
    pub fn new(singleton: S) -> (r: Self)
        ensures
            r == SingletonEntity(singleton),
    {
        SingletonEntity(singleton)
    }

    /// Unwrap the singleton value.
    pub fn into_inner(self) -> (r: S)
        ensures
            r == self.0,
    {
        self.0
    }
}

impl<S: Singleton> Dup for SingletonEntity<S> {
    fn dup(&self) -> (r: Self)
        ensures
            r == *self,
    {
        SingletonEntity(self.0.dup())
    }
}

impl<S: Singleton> Dup for SingletonEntityUpdate<S> {
    fn dup(&self) -> (r: Self)
        ensures
            r == *self,
    {
        SingletonEntityUpdate(self.0.dup())
    }
}

impl<S: Singleton> PartialEq for SingletonEntity<S> {
    fn eq(&self, other: &Self) -> (r: bool) {
        true
    }
}

impl<S: Singleton> vstd::std_specs::cmp::PartialEqSpecImpl for SingletonEntity<S> {
    open spec fn obeys_eq_spec() -> bool {
        true
    }

    open spec fn eq_spec(&self, _other: &Self) -> bool {
        true
    }
}

impl<S: Singleton> Updatable<SingletonEntityUpdate<S>> for SingletonEntity<S> {
    open spec fn applied(self, with: SingletonEntityUpdate<S>) -> Self {
        SingletonEntity(self.0.applied(with.0))
    }

    fn update(&mut self, with: &SingletonEntityUpdate<S>) {
        self.0.update(&with.0);
    }

    proof fn lemma_applied_twice(s: Self, with: SingletonEntityUpdate<S>) {
        S::lemma_applied_twice(s.0, with.0);
    }
}

impl<S: Singleton> Entity for SingletonEntity<S> {
    type Update = SingletonEntityUpdate<S>;

    type ID = String;

    open spec fn id(&self) -> Seq<char> {
        S::entity_id_spec()
    }

    open spec fn full_update(self) -> SingletonEntityUpdate<S> {
        SingletonEntityUpdate(self.0.full_update())
    }

    fn get_id(&self) -> (id: String) {
        S::entity_id()
    }

    fn into_update(self) -> (u: SingletonEntityUpdate<S>) {
        SingletonEntityUpdate(self.0.into_update())
    }

    proof fn lemma_applied_preserves_id(e: Self, with: SingletonEntityUpdate<S>) {
    }

    proof fn lemma_full_update_round_trip(base: Self, e: Self) {
        S::lemma_full_update_round_trip(base.0, e.0);
    }
}

} // verus!
