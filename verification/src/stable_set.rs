//! The interning store: an append-only, deduplicating collection.

use vstd::prelude::*;

use crate::{
    contains_key, distinct_keys, first_index_of, keys_of, Atom, AtomProxy, StablePointer,
};

verus! {

/// An append-only, deduplicating store. A borrowed query key goes in; an
/// [`Atom`] handle comes out, denoting the one stored element whose
/// comparison key equals the query's. Elements are never removed, never
/// mutated and never change slot, so a handle stays valid for the store's
/// whole life. Insertion demands exclusive access to the store, which makes
/// the single-writer discipline explicit in the types; a populated store
/// may be read and shared freely.
pub struct StableSet<T> {
    elems: Vec<T>,
}

impl<T> View for StableSet<T> {
    type V = Seq<T>;

    closed spec fn view(&self) -> Seq<T> {
        self.elems@
    }
}

/// Search the slots in order for an element whose comparison key equals the
/// query's; when none holds it, materialize the owned element and append it.
/// Either way, hand back the first slot bearing the query's key.
fn add_element_insert<T, U>(elems: &mut Vec<T>, element: &U) -> (i: usize) where
    T: StablePointer,
    U: AtomProxy<T>,

    ensures
        crate::extends(final(elems)@, old(elems)@),
        i < final(elems)@.len(),
        i as int == first_index_of(keys_of(final(elems)@), element.compare_key()),
        keys_of(final(elems)@)[i as int] == element.compare_key(),
        contains_key(keys_of(old(elems)@), element.compare_key()) ==> final(elems)@ == old(
            elems,
        )@,
        !contains_key(keys_of(old(elems)@), element.compare_key()) ==> {
            &&& final(elems)@.len() == old(elems)@.len() + 1
            &&& i as int == old(elems)@.len()
        },
{
    let ghost k = element.compare_key();
    let n: usize = elems.len();
    let mut i: usize = 0;
    while i < n
        invariant
            n == elems.len(),
            i <= n,
            forall|j: int| 0 <= j < i ==> keys_of(elems@)[j] != k,
            elems@ == old(elems)@,
            k == element.compare_key(),
        decreases n - i,
    {
        if element.key_eq(&elems[i]) {
            proof {
                assert(keys_of(elems@)[i as int] == elems@[i as int].target());
                crate::lemma_first_index_of_here(keys_of(elems@), k, i as int);
                assert(contains_key(keys_of(elems@), k));
            }
            return i;
        }
        i += 1;
    }
    proof {
        assert(!contains_key(keys_of(elems@), k));
    }
    let t = element.to_owned();
    elems.push(t);
    proof {
        assert(keys_of(elems@) =~= keys_of(old(elems)@).push(k));
        crate::lemma_first_index_of_here(keys_of(elems@), k, n as int);
    }
    n
}

impl<T: StablePointer> StableSet<T> {
    /// The comparison keys of the stored elements, in slot order.
    pub open spec fn keys(&self) -> Seq<T::Target> {
        keys_of(self@)
    }

    /// Well-formedness: no two slots hold elements with equal comparison
    /// keys. `new` establishes it; `add_element` preserves it.
    pub open spec fn wf(&self) -> bool {
        distinct_keys(self.keys())
    }

    /// An empty store.
    pub fn new() -> (s: Self)
        ensures
            s@ =~= Seq::<T>::empty(),
            s.wf(),
    {
        StableSet { elems: Vec::new() }
    }

    /// The number of distinct elements stored so far.
    pub fn len(&self) -> (n: usize)
        ensures
            n == self@.len(),
    {
        self.elems.len()
    }

    /// Get-or-insert: return the handle of the one stored element whose
    /// comparison key equals the query key's, materializing and appending
    /// that element first if no slot holds the key yet. Elements already
    /// stored keep their slots and values, so previously issued handles
    /// remain valid and a repeated query returns the identical handle.
    pub fn add_element<U: AtomProxy<T>>(&mut self, element: &U) -> (a: Atom)
        requires
            old(self).wf(),
        ensures
            final(self).wf(),
            crate::extends(final(self)@, old(self)@),
            a.id() < final(self)@.len(),
            final(self).keys()[a.id()] == element.compare_key(),
            a.id() == first_index_of(final(self).keys(), element.compare_key()),
            contains_key(old(self).keys(), element.compare_key()) ==> final(self)@ == old(
                self,
            )@,
            !contains_key(old(self).keys(), element.compare_key()) ==> {
                &&& final(self)@.len() == old(self)@.len() + 1
                &&& a.id() == old(self)@.len()
            },
    {
        let ghost k = element.compare_key();
        let i = add_element_insert(&mut self.elems, element);
        proof {
            if !contains_key(keys_of(old(self)@), k) {
                assert(distinct_keys(self.keys())) by {
                    assert(self.keys() =~= keys_of(old(self)@).push(k));
                    let keys = self.keys();
                    let n = old(self)@.len() as int;
                    assert forall|p: int, q: int|
                        0 <= p < q < keys.len() implies keys[p] != keys[q] by {
                        if q < n {
                            assert(keys_of(old(self)@)[p] != keys_of(old(self)@)[q]);
                        } else {
                            assert(keys[q] == k);
                            assert(keys[p] == keys_of(old(self)@)[p]);
                            assert(!contains_key(keys_of(old(self)@), k));
                        }
                    }
                }
            }
        }
        Atom::new(i)
    }

    /// Resolve a handle issued by this store back to the stored element.
    pub fn get(&self, a: Atom) -> (t: &T)
        requires
            0 <= a.id() < self@.len(),
        ensures
            *t == self@[a.id()],
    {
        &self.elems[Atom::as_ref(a)]
    }
}

} // verus!
