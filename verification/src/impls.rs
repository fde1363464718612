//! Comparison for [`Atom`] handles: equality and ordering go strictly by the
//! storage slot a handle denotes, never by the stored element's value.

use core::cmp::Ordering;
use vstd::prelude::*;

use crate::Atom;

verus! {

impl PartialEq for Atom {
    /// Two handles are equal exactly when they denote the same slot.
    fn eq(&self, other: &Atom) -> bool {
        Atom::as_ref(*self) == Atom::as_ref(*other)
    }
}

impl vstd::std_specs::cmp::PartialEqSpecImpl for Atom {
    open spec fn obeys_eq_spec() -> bool {
        true
    }

    open spec fn eq_spec(&self, other: &Atom) -> bool {
        self.id() == other.id()
    }
}

impl Eq for Atom {

}

impl PartialOrd for Atom {
    /// Handles are totally ordered by their slot.
    fn partial_cmp(&self, other: &Atom) -> Option<Ordering> {
        let a = Atom::as_ref(*self);
        let b = Atom::as_ref(*other);
        if a < b {
            Some(Ordering::Less)
        } else if a == b {
            Some(Ordering::Equal)
        } else {
            Some(Ordering::Greater)
        }
    }
}

impl vstd::std_specs::cmp::PartialOrdSpecImpl for Atom {
    open spec fn obeys_partial_cmp_spec() -> bool {
        true
    }

    open spec fn partial_cmp_spec(&self, other: &Atom) -> Option<Ordering> {
        if self.id() < other.id() {
            Some(Ordering::Less)
        } else if self.id() == other.id() {
            Some(Ordering::Equal)
        } else {
            Some(Ordering::Greater)
        }
    }
}

} // verus!
