//! A value-deduplicating store (an interner).
//!
//! A [`StableSet`](stable_set::StableSet) (and its sibling
//! [`AtomMap`](stable_map::AtomMap), whose element type bundles its own
//! query abstraction) stores exactly one owned copy per distinct value and
//! hands back a lightweight, copyable [`Atom`] handle. Two handles compare
//! equal exactly when they denote the same storage slot, so equal logical
//! values always collapse to the identical handle.

use vstd::prelude::*;

pub mod compare;
mod impls;
pub mod normalize;
pub mod stable_map;
pub mod stable_set;
pub mod wrapper;

verus! {

/// An `Atom` is a cheap, copyable handle to one element of an interning
/// store. It records the storage slot the element occupies; equality,
/// ordering and hashing go by that slot identity, never by the element's
/// value. The store that issued the handle resolves it back to the element.
#[derive(Clone, Copy, Debug, Hash, Ord)]
pub struct Atom {
    index: usize,
}

impl Atom {
    /// The storage slot this handle denotes.
    pub closed spec fn id(self) -> int {
        self.index as int
    }

    /// Handles are only ever created by a store, for a slot it owns.
    fn new(index: usize) -> (a: Atom)
        ensures
            a.id() == index,
    {
        Atom { index }
    }

    /// The slot of the handle, as a plain number: the handle's whole content.
    pub fn as_ref(p: Self) -> (i: usize)
        ensures
            i == p.id(),
    {
        p.index
    }
}

/// The contract an owned element type must satisfy to live in a store: the
/// element determines a pointee value, `Target`, that does not change when
/// the element itself is moved around inside the store's growing collection.
/// Deduplication compares elements by this pointee value.
pub trait StablePointer {
    /// The mathematical value of the pointee.
    type Target;

    /// The pointee value this element holds.
    spec fn target(&self) -> Self::Target;
}

/// A lookup key for a store of elements `T`: anything that projects to the
/// store's comparison-key space and can materialize an owned element when an
/// insertion is actually needed.
pub trait AtomProxy<T: StablePointer> {
    /// The comparison-key view of this query key.
    spec fn compare_key(&self) -> T::Target;

    /// Does this query key's comparison key equal the stored element's?
    fn key_eq(&self, t: &T) -> (b: bool)
        ensures
            b == (self.compare_key() == t.target()),
    ;

    /// Materialize an owned element from this query key (the miss path).
    fn to_owned(&self) -> (t: T)
        ensures
            t.target() == self.compare_key(),
    ;
}

impl<T> StablePointer for Vec<T> {
    type Target = Seq<T>;

    open spec fn target(&self) -> Seq<T> {
        self@
    }
}

impl StablePointer for String {
    type Target = Seq<char>;

    open spec fn target(&self) -> Seq<char> {
        self@
    }
}

impl<A: View + ?Sized> StablePointer for Box<A> {
    type Target = A::V;

    open spec fn target(&self) -> A::V {
        self@
    }
}

impl<A: View> StablePointer for std::rc::Rc<A> {
    type Target = A::V;

    open spec fn target(&self) -> A::V {
        self@
    }
}

impl<A: View> StablePointer for std::sync::Arc<A> {
    type Target = A::V;

    open spec fn target(&self) -> A::V {
        self@
    }
}

/// Byte-slice equality, pinned to the sequence views of the two slices.
pub fn bytes_eq(a: &[u8], b: &[u8]) -> (r: bool)
    ensures
        r == (a@ == b@),
{
    if a.len() != b.len() {
        return false;
    }
    let n: usize = a.len();
    let mut i: usize = 0;
    while i < n
        invariant
            n == a@.len(),
            a@.len() == b@.len(),
            i <= n,
            forall|j: int| 0 <= j < i ==> a@[j] == b@[j],
        decreases n - i,
    {
        if a[i] != b[i] {
            proof {
                assert(a@[i as int] != b@[i as int]);
            }
            return false;
        }
        i += 1;
    }
    proof {
        assert(a@ =~= b@);
    }
    true
}

impl AtomProxy<Vec<u8>> for Vec<u8> {
    open spec fn compare_key(&self) -> Seq<u8> {
        self@
    }

    fn key_eq(&self, t: &Vec<u8>) -> bool {
        bytes_eq(self.as_slice(), t.as_slice())
    }

    fn to_owned(&self) -> Vec<u8> {
        vstd::slice::slice_to_vec(self.as_slice())
    }
}

impl<'a> AtomProxy<Vec<u8>> for &'a [u8] {
    open spec fn compare_key(&self) -> Seq<u8> {
        self@
    }

    fn key_eq(&self, t: &Vec<u8>) -> bool {
        bytes_eq(self, t.as_slice())
    }

    fn to_owned(&self) -> Vec<u8> {
        vstd::slice::slice_to_vec(self)
    }
}

impl AtomProxy<Vec<u8>> for String {
    /// A string queries a byte store through its UTF-8 encoding.
    open spec fn compare_key(&self) -> Seq<u8> {
        vstd::utf8::encode_utf8(self@)
    }

    fn key_eq(&self, t: &Vec<u8>) -> bool {
        bytes_eq(self.as_str().as_bytes(), t.as_slice())
    }

    fn to_owned(&self) -> Vec<u8> {
        vstd::slice::slice_to_vec(self.as_str().as_bytes())
    }
}

impl AtomProxy<String> for String {
    open spec fn compare_key(&self) -> Seq<char> {
        self@
    }

    fn key_eq(&self, t: &String) -> bool {
        <String as PartialEq>::eq(self, t)
    }

    fn to_owned(&self) -> String {
        self.clone()
    }
}

impl<'a> AtomProxy<String> for &'a str {
    open spec fn compare_key(&self) -> Seq<char> {
        (*self)@
    }

    fn key_eq(&self, t: &String) -> (b: bool) {
        let r = bytes_eq(self.as_bytes(), t.as_str().as_bytes());
        proof {
            vstd::utf8::encode_utf8_decode_utf8((*self)@);
            vstd::utf8::encode_utf8_decode_utf8(t@);
        }
        r
    }

    fn to_owned(&self) -> String {
        (*self).to_owned()
    }
}

/// The comparison keys of the stored elements, in slot order.
pub open spec fn keys_of<T: StablePointer>(s: Seq<T>) -> Seq<T::Target> {
    s.map_values(|t: T| t.target())
}

/// Whether some slot holds the comparison key `k`.
pub open spec fn contains_key<K>(keys: Seq<K>, k: K) -> bool {
    exists|i: int| 0 <= i < keys.len() && keys[i] == k
}

/// The first slot holding the comparison key `k`, or `-1` when none does.
pub open spec fn first_index_of<K>(keys: Seq<K>, k: K) -> int
    decreases keys.len(),
{
    if keys.len() == 0 {
        -1
    } else if keys[0] == k {
        0
    } else if first_index_of(keys.drop_first(), k) == -1 {
        -1
    } else {
        first_index_of(keys.drop_first(), k) + 1
    }
}

/// How many slots hold the comparison key `k`.
pub open spec fn count_key<K>(keys: Seq<K>, k: K) -> int
    decreases keys.len(),
{
    if keys.len() == 0 {
        0
    } else {
        (if keys[0] == k {
            1int
        } else {
            0int
        }) + count_key(keys.drop_first(), k)
    }
}

/// The store's at-most-one-per-key invariant: no two slots hold equal
/// comparison keys.
pub open spec fn distinct_keys<K>(keys: Seq<K>) -> bool {
    forall|i: int, j: int| 0 <= i < j < keys.len() ==> keys[i] != keys[j]
}

/// `first_index_of` finds the first slot with key `k` exactly when some slot
/// holds `k`.
pub proof fn lemma_first_index_of<K>(keys: Seq<K>, k: K)
    ensures
        contains_key(keys, k) ==> {
            let f = first_index_of(keys, k);
            &&& 0 <= f < keys.len()
            &&& keys[f] == k
            &&& forall|j: int| 0 <= j < f ==> keys[j] != k
        },
        !contains_key(keys, k) ==> first_index_of(keys, k) == -1,
    decreases keys.len(),
{
    if keys.len() == 0 {
        assert(!contains_key(keys, k));
    } else if keys[0] == k {
        assert(contains_key(keys, k));
    } else {
        let rest = keys.drop_first();
        lemma_first_index_of(rest, k);
        assert(forall|i: int| 0 <= i < rest.len() ==> rest[i] == keys[i + 1]);
        if contains_key(keys, k) {
            let w = choose|i: int| 0 <= i < keys.len() && keys[i] == k;
            assert(rest[w - 1] == k);
            assert(contains_key(rest, k));
            let f = first_index_of(rest, k);
            assert(first_index_of(keys, k) == f + 1);
            assert(keys[f + 1] == rest[f]);
            assert forall|j: int| 0 <= j < f + 1 implies keys[j] != k by {
                if j > 0 {
                    assert(keys[j] == rest[j - 1]);
                }
            }
        }
        if contains_key(rest, k) {
            let w = choose|i: int| 0 <= i < rest.len() && rest[i] == k;
            assert(keys[w + 1] == k);
            assert(contains_key(keys, k));
        }
    }
}

/// A sequence of keys without duplicates mentions `k` in no slot at all or
/// in exactly one.
pub proof fn lemma_count_key_of_distinct<K>(keys: Seq<K>, k: K)
    requires
        distinct_keys(keys),
    ensures
        0 <= count_key(keys, k) <= 1,
    decreases keys.len(),
{
    if keys.len() == 0 {
    } else {
        let rest = keys.drop_first();
        assert(forall|i: int| 0 <= i < rest.len() ==> rest[i] == keys[i + 1]);
        assert(distinct_keys(rest)) by {
            assert forall|i: int, j: int| 0 <= i < j < rest.len() implies rest[i] != rest[j] by {
                assert(keys[i + 1] != keys[j + 1]);
            }
        }
        lemma_count_key_of_distinct(rest, k);
        if keys[0] == k {
            assert(!contains_key(rest, k)) by {
                if contains_key(rest, k) {
                    let w = choose|i: int| 0 <= i < rest.len() && rest[i] == k;
                    assert(keys[0] != keys[w + 1]);
                }
            }
            lemma_count_key_of_missing(rest, k);
        }
    }
}

/// A key held by no slot is counted zero times.
pub proof fn lemma_count_key_of_missing<K>(keys: Seq<K>, k: K)
    requires
        !contains_key(keys, k),
    ensures
        count_key(keys, k) == 0,
    decreases keys.len(),
{
    if keys.len() == 0 {
    } else {
        let rest = keys.drop_first();
        assert(forall|i: int| 0 <= i < rest.len() ==> rest[i] == keys[i + 1]);
        assert(keys[0] != k);
        assert(!contains_key(rest, k)) by {
            if contains_key(rest, k) {
                let w = choose|i: int| 0 <= i < rest.len() && rest[i] == k;
                assert(keys[w + 1] == k);
            }
        }
        lemma_count_key_of_missing(rest, k);
    }
}

/// A slot whose predecessors all miss `k` and which itself holds `k` is the
/// first slot with key `k`.
pub proof fn lemma_first_index_of_here<K>(keys: Seq<K>, k: K, i: int)
    requires
        0 <= i < keys.len(),
        keys[i] == k,
        forall|j: int| 0 <= j < i ==> keys[j] != k,
    ensures
        first_index_of(keys, k) == i,
{
    assert(contains_key(keys, k));
    lemma_first_index_of(keys, k);
    let f = first_index_of(keys, k);
    if f < i {
        assert(keys[f] != k);
    }
    if f > i {
        assert(keys[i] != k);
    }
}

/// One store state extends another when every element the first state held
/// still sits, untouched, in the same slot: exactly what a store's
/// append-only discipline guarantees across later insertions.
pub open spec fn extends<T>(s2: Seq<T>, s1: Seq<T>) -> bool {
    &&& s1.len() <= s2.len()
    &&& forall|i: int| 0 <= i < s1.len() ==> s2[i] == s1[i]
}

/// Deduplication: handles issued for equal comparison keys coincide. If a
/// handle denotes a slot holding key `k` in some store state, and another
/// handle denotes a slot holding `k` in a later state of the same store,
/// then, the store never keeping two elements with one key, both handles
/// denote the same slot.
pub proof fn lemma_deduplication<K>(keys1: Seq<K>, keys2: Seq<K>, k: K, a1: int, a2: int)
    requires
        extends(keys2, keys1),
        distinct_keys(keys2),
        0 <= a1 < keys1.len(),
        keys1[a1] == k,
        0 <= a2 < keys2.len(),
        keys2[a2] == k,
    ensures
        a1 == a2,
{
    assert(keys2[a1] == k);
}

/// Distinctness: handles issued for unequal comparison keys differ, since
/// each handle's slot holds an element bearing the handle's key.
pub proof fn lemma_distinctness<K>(keys: Seq<K>, a1: int, a2: int)
    requires
        0 <= a1 < keys.len(),
        0 <= a2 < keys.len(),
        keys[a1] != keys[a2],
    ensures
        a1 != a2,
{
}

/// Stability: however many insertions later, a handle issued earlier still
/// resolves to the very element it was issued for.
pub proof fn lemma_stability<T>(s1: Seq<T>, s2: Seq<T>, a: int)
    requires
        extends(s2, s1),
        0 <= a < s1.len(),
    ensures
        0 <= a < s2.len(),
        s2[a] == s1[a],
{
}

/// Idempotence: a store whose keys are pairwise distinct holds at most one
/// element of any key's equivalence class, so re-interning an already
/// interned key can never add a second copy.
pub proof fn lemma_idempotence<K>(keys: Seq<K>, k: K)
    requires
        distinct_keys(keys),
    ensures
        count_key(keys, k) <= 1,
{
    lemma_count_key_of_distinct(keys, k);
}

} // verus!
