//! A second interning store, for element types that bundle their own query
//! type: the element type itself says what may probe the store and how a
//! probe compares against a stored element.

use vstd::prelude::*;

pub use crate::Atom;
use crate::{contains_key, distinct_keys, first_index_of};

verus! {

/// The contract an element type must satisfy to live in an [`AtomMap`]: it
/// names a borrowed query type, `External`, and a comparison-key space,
/// `Comparable`, into which both a stored element and a query project. A
/// fresh element can be materialized from a query when an insertion is
/// actually needed.
pub trait Atomizable: Sized {
    /// The borrowed query type the store is probed with.
    type External: ?Sized;

    /// The comparison-key space deduplication works in.
    type Comparable;

    /// The comparison key of this stored element.
    spec fn key(&self) -> Self::Comparable;

    /// The comparison key a query projects to.
    spec fn external_key(e: &Self::External) -> Self::Comparable;

    /// Does the query's comparison key equal this element's?
    fn external_matches(&self, e: &Self::External) -> (b: bool)
        ensures
            b == (self.key() == Self::external_key(e)),
    ;

    /// Materialize an owned element from a query (the miss path).
    fn from_external(e: &Self::External) -> (t: Self)
        ensures
            t.key() == Self::external_key(e),
    ;
}

impl Atomizable for String {
    type External = str;

    type Comparable = Seq<char>;

    open spec fn key(&self) -> Seq<char> {
        self@
    }

    open spec fn external_key(e: &str) -> Seq<char> {
        e@
    }

    fn external_matches(&self, e: &str) -> (b: bool) {
        let r = crate::bytes_eq(self.as_str().as_bytes(), e.as_bytes());
        proof {
            vstd::utf8::encode_utf8_decode_utf8(self@);
            vstd::utf8::encode_utf8_decode_utf8(e@);
        }
        r
    }

    fn from_external(e: &str) -> String {
        e.to_owned()
    }
}

/// The comparison keys of the stored elements, in slot order.
pub open spec fn comparison_keys<T: Atomizable>(s: Seq<T>) -> Seq<T::Comparable> {
    s.map_values(|t: T| t.key())
}

/// An append-only, deduplicating store probed through the element type's own
/// query abstraction. Same get-or-insert protocol as
/// [`StableSet`](crate::stable_set::StableSet); only the key abstraction
/// differs. Insertion demands exclusive access to the store; a populated
/// store may be read and shared freely.
pub struct AtomMap<T> {
    elems: Vec<T>,
}

impl<T> View for AtomMap<T> {
    type V = Seq<T>;

    closed spec fn view(&self) -> Seq<T> {
        self.elems@
    }
}

impl<T: Atomizable> AtomMap<T> {
    /// The comparison keys of the stored elements, in slot order.
    pub open spec fn keys(&self) -> Seq<T::Comparable> {
        comparison_keys(self@)
    }

    /// Well-formedness: no two slots hold elements with equal comparison
    /// keys.
    pub open spec fn wf(&self) -> bool {
        distinct_keys(self.keys())
    }

    /// An empty store.
    pub fn new() -> (s: Self)
        ensures
            s@ =~= Seq::<T>::empty(),
            s.wf(),
    {
        AtomMap { elems: Vec::new() }
    }

    /// The number of distinct elements stored so far.
    pub fn len(&self) -> (n: usize)
        ensures
            n == self@.len(),
    {
        self.elems.len()
    }

    /// Get-or-insert: return the handle of the one stored element whose
    /// comparison key equals the query's, materializing and appending that
    /// element first if no slot holds the key yet. Stored elements keep
    /// their slots and values, so previously issued handles remain valid
    /// and a repeated query returns the identical handle.
    pub fn add_element(&mut self, element: &T::External) -> (a: Atom)
        requires
            old(self).wf(),
        ensures
            final(self).wf(),
            crate::extends(final(self)@, old(self)@),
            a.id() < final(self)@.len(),
            final(self).keys()[a.id()] == T::external_key(element),
            a.id() == first_index_of(final(self).keys(), T::external_key(element)),
            contains_key(old(self).keys(), T::external_key(element)) ==> final(self)@ == old(
                self,
            )@,
            !contains_key(old(self).keys(), T::external_key(element)) ==> {
                &&& final(self)@.len() == old(self)@.len() + 1
                &&& a.id() == old(self)@.len()
            },
    {
        let ghost k = T::external_key(element);
        let n: usize = self.elems.len();
        let mut i: usize = 0;
        while i < n
            invariant
                n == self.elems.len(),
                i <= n,
                forall|j: int| 0 <= j < i ==> comparison_keys(self.elems@)[j] != k,
                self.elems@ == old(self)@,
                old(self).wf(),
                k == T::external_key(element),
            decreases n - i,
        {
            if self.elems[i].external_matches(element) {
                proof {
                    assert(comparison_keys(self.elems@)[i as int] == self.elems@[i as int].key());
                    crate::lemma_first_index_of_here(comparison_keys(self.elems@), k, i as int);
                    assert(contains_key(comparison_keys(self.elems@), k));
                }
                return Atom::new(i);
            }
            i += 1;
        }
        proof {
            assert(!contains_key(comparison_keys(self.elems@), k));
        }
        let t = T::from_external(element);
        self.elems.push(t);
        proof {
            assert(self.keys() =~= comparison_keys(old(self)@).push(k));
            crate::lemma_first_index_of_here(self.keys(), k, n as int);
            let keys = self.keys();
            assert forall|p: int, q: int| 0 <= p < q < keys.len() implies keys[p] != keys[q] by {
                if q < n {
                    assert(comparison_keys(old(self)@)[p] != comparison_keys(old(self)@)[q]);
                } else {
                    assert(keys[q] == k);
                    assert(keys[p] == comparison_keys(old(self)@)[p]);
                    assert(!contains_key(comparison_keys(old(self)@), k));
                }
            }
        }
        Atom::new(n)
    }

    /// Resolve a handle issued by this store back to the stored element.
    pub fn get(&self, a: Atom) -> (t: &T)
        requires
            0 <= a.id() < self@.len(),
        ensures
            *t == self@[a.id()],
    {
        &self.elems[Atom::as_ref(a)]
    }
}

} // verus!
