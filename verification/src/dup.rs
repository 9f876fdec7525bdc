use vstd::prelude::*;

verus! {

/// A copy whose result is provably equal to the value it was made from.
///
/// The standard `Clone` trait carries no usable specification for most
/// types, so verified code that has to hand out copies of stored records
/// and event payloads goes through this trait instead.
pub trait Dup: Sized {
    /// Return a value equal to `self`.
    fn dup(&self) -> (r: Self)
        ensures
            r == *self,
    ;
}

impl Dup for u8 {
    fn dup(&self) -> (r: u8)
        ensures
            r == *self,
    {
        *self
    }
}

impl Dup for u64 {
    fn dup(&self) -> (r: u64)
        ensures
            r == *self,
    {
        *self
    }
}

impl Dup for i32 {
    fn dup(&self) -> (r: i32)
        ensures
            r == *self,
    {
        *self
    }
}

impl Dup for String {
    fn dup(&self) -> (r: String)
        ensures
            r == *self,
    {
        self.clone()
    }
}

impl<T: Dup> Dup for Option<T> {
    fn dup(&self) -> (r: Option<T>)
        ensures
            r == *self,
    {
        match self {
            Option::Some(v) => Option::Some(v.dup()),
            Option::None => Option::None,
        }
    }
}

} // verus!
