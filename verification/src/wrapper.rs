//! Strategy wrappers. Each wraps another strategy value and marks, in its
//! first type parameter, the borrowed view through which the wrapped
//! strategy is to be applied: `Borrowing` for a type's natural borrowed
//! form, `Referencing` for a reference-conversion view. The lifted
//! behaviour itself lives with the strategy traits that use these wrappers.

use core::marker::PhantomData;
use vstd::prelude::*;

verus! {

/// Wraps a strategy over a borrowed view `Ref`, to be applied through the
/// natural borrowed form of richer types.
pub struct Borrowing<Ref: ?Sized, Wrapped>(Wrapped, PhantomData<Ref>);

impl<Ref: ?Sized, Wrapped> Borrowing<Ref, Wrapped> {
    /// The wrapped strategy value.
    pub closed spec fn spec_wrapped(&self) -> Wrapped {
        self.0
    }

    pub fn new(w: Wrapped) -> (r: Self)
        ensures
            r.spec_wrapped() == w,
    {
        Borrowing(w, PhantomData)
    }

    pub fn get_wrapped(&self) -> (w: &Wrapped)
        ensures
            *w == self.spec_wrapped(),
    {
        &self.0
    }
}

impl<Ref: ?Sized, Wrapped: Default> Default for Borrowing<Ref, Wrapped> {
    fn default() -> Self {
        Borrowing(Wrapped::default(), PhantomData)
    }
}

/// Wraps a strategy over a borrowed view `Ref`, to be applied through a
/// reference conversion of richer types.
pub struct Referencing<Ref: ?Sized, Wrapped>(Wrapped, PhantomData<Ref>);

impl<Ref: ?Sized, Wrapped> Referencing<Ref, Wrapped> {
    /// The wrapped strategy value.
    pub closed spec fn spec_wrapped(&self) -> Wrapped {
        self.0
    }

    pub fn new(w: Wrapped) -> (r: Self)
        ensures
            r.spec_wrapped() == w,
    {
        Referencing(w, PhantomData)
    }

    pub fn get_wrapped(&self) -> (w: &Wrapped)
        ensures
            *w == self.spec_wrapped(),
    {
        &self.0
    }
}

impl<Ref: ?Sized, Wrapped: Default> Default for Referencing<Ref, Wrapped> {
    fn default() -> Self {
        Referencing(Wrapped::default(), PhantomData)
    }
}

} // verus!

