use vstd::prelude::*;

use crate::dup::Dup;

verus! {

/// `Updatable` types can be patched in place based on data given by `U`
/// values.
///
/// The mathematical effect of a patch is pinned down by [`Updatable::applied`];
/// the executable [`Updatable::update`] must realize exactly that effect, and
/// every implementation owes a proof that patching is idempotent: applying
/// the same patch twice yields the same value as applying it once.
pub trait Updatable<U>: Sized {
    /// The value that results from applying the patch `with` to `self`.
    spec fn applied(self, with: U) -> Self;

    /// Patch this value in place with the data carried by `with`.
    fn update(&mut self, with: &U)
        ensures
            *final(self) == (*old(self)).applied(*with),
    ;

    /// Applying the same patch twice yields the same value as applying it
    /// once.
    proof fn lemma_applied_twice(s: Self, with: U)
        ensures
            s.applied(with).applied(with) == s.applied(with),
    ;
}

/// A single field patched by an optional replacement: `Some` overwrites the
/// field, `None` leaves it unchanged.
impl<T: Dup> Updatable<Option<T>> for T {
    open spec fn applied(self, with: Option<T>) -> T {
        match with {
            Option::Some(v) => v,
            Option::None => self,
        }
    }

    fn update(&mut self, with: &Option<T>) {
        match with {
            Option::Some(v) => {
                *self = v.dup();
            },
            Option::None => {},
        }
    }

    proof fn lemma_applied_twice(s: T, with: Option<T>) {
    }
}

} // verus!
