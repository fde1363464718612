//! Comparison strategies: pluggable equality and hashing between a query
//! key and a candidate, each strategy carrying the spec-level relation or
//! function its executable counterpart decides. `Natural` compares two
//! values of one type by their natural equality; `Borrowing` and
//! `Referencing` compare richer types through a common borrowed view, so
//! that, say, an owned byte buffer and a string can be held equal as byte
//! sequences.

use core::marker::PhantomData;
use vstd::prelude::*;
use vstd::utf8::encode_utf8;

use crate::bytes_eq;

verus! {

/// A hashing strategy over values of `L`: the executable `hash` computes,
/// over the value's view, exactly the spec-level function `hash_spec`. A
/// strategy that also compares must hash equal values equally; the
/// strategies here guarantee that by hashing the very view their equality
/// compares.
pub trait Hash<L: View + ?Sized> {
    /// The hash this strategy computes, over views.
    spec fn hash_spec(&self, l: L::V) -> u64;

    /// Hash one value.
    fn hash(&self, val: &L) -> (h: u64)
        ensures
            h == self.hash_spec(val@),
    ;
}

/// The 64-bit FNV-1a hash of a byte sequence.
pub open spec fn fnv1a(bytes: Seq<u8>) -> u64
    decreases bytes.len(),
{
    if bytes.len() == 0 {
        0xcbf29ce484222325u64
    } else {
        (fnv1a(bytes.drop_last()) ^ (bytes.last() as u64)).wrapping_mul(0x100000001b3u64)
    }
}

/// Compute the 64-bit FNV-1a hash of a byte slice.
fn fnv1a_of(bytes: &[u8]) -> (h: u64)
    ensures
        h == fnv1a(bytes@),
{
    let n: usize = bytes.len();
    let mut h: u64 = 0xcbf29ce484222325;
    let mut i: usize = 0;
    proof {
        assert(bytes@.take(0) =~= Seq::<u8>::empty());
    }
    while i < n
        invariant
            i <= n,
            n == bytes@.len(),
            h == fnv1a(bytes@.take(i as int)),
        decreases n - i,
    {
        h = (h ^ (bytes[i] as u64)).wrapping_mul(0x100000001b3);
        proof {
            assert(bytes@.take(i + 1).drop_last() =~= bytes@.take(i as int));
            assert(bytes@.take(i + 1).last() == bytes@[i as int]);
        }
        i += 1;
    }
    proof {
        assert(bytes@.take(n as int) =~= bytes@);
    }
    h
}

/// A comparison strategy between values of `L` and values of `R`: the
/// executable test `eq` decides exactly the spec-level relation `eq_spec`
/// over the two values' views.
pub trait Eq<L: View + ?Sized, R: View + ?Sized> {
    /// The relation this strategy decides.
    spec fn eq_spec(&self, l: L::V, r: R::V) -> bool;

    /// Does the strategy hold these two values equal?
    fn eq(&self, l: &L, r: &R) -> (b: bool)
        ensures
            b == self.eq_spec(l@, r@),
    ;
}

/// The natural equality of a single type.
pub struct Natural<T: ?Sized>(PhantomData<T>);

impl<T: ?Sized> Natural<T> {
    pub fn new() -> Self {
        Natural(PhantomData)
    }
}

impl<T: ?Sized> Default for Natural<T> {
    fn default() -> Self {
        Natural(PhantomData)
    }
}

impl Eq<[u8], [u8]> for Natural<[u8]> {
    open spec fn eq_spec(&self, l: Seq<u8>, r: Seq<u8>) -> bool {
        l == r
    }

    fn eq(&self, l: &[u8], r: &[u8]) -> bool {
        bytes_eq(l, r)
    }
}

impl Eq<Vec<u8>, Vec<u8>> for Natural<Vec<u8>> {
    open spec fn eq_spec(&self, l: Seq<u8>, r: Seq<u8>) -> bool {
        l == r
    }

    fn eq(&self, l: &Vec<u8>, r: &Vec<u8>) -> bool {
        bytes_eq(l.as_slice(), r.as_slice())
    }
}

impl Eq<str, str> for Natural<str> {
    open spec fn eq_spec(&self, l: Seq<char>, r: Seq<char>) -> bool {
        l == r
    }

    fn eq(&self, l: &str, r: &str) -> (b: bool) {
        let b = bytes_eq(l.as_bytes(), r.as_bytes());
        proof {
            vstd::utf8::encode_utf8_decode_utf8(l@);
            vstd::utf8::encode_utf8_decode_utf8(r@);
        }
        b
    }
}

impl Eq<String, String> for Natural<String> {
    open spec fn eq_spec(&self, l: Seq<char>, r: Seq<char>) -> bool {
        l == r
    }

    fn eq(&self, l: &String, r: &String) -> bool {
        <String as PartialEq>::eq(l, r)
    }
}

/// Applies a wrapped strategy through the natural borrowed view `B` of the
/// compared types.
pub struct Borrowing<B: ?Sized, C>(C, PhantomData<B>);

impl<B: ?Sized, C> Borrowing<B, C> {
    /// The wrapped strategy value.
    pub closed spec fn spec_wrapped(&self) -> C {
        self.0
    }

    pub fn new(c: C) -> (r: Self)
        ensures
            r.spec_wrapped() == c,
    {
        Borrowing(c, PhantomData)
    }
}

impl<B: ?Sized> Default for Borrowing<B, Natural<B>> {
    fn default() -> Self {
        Borrowing(Natural(PhantomData), PhantomData)
    }
}

impl<C: Eq<str, str>> Eq<String, String> for Borrowing<str, C> {
    open spec fn eq_spec(&self, l: Seq<char>, r: Seq<char>) -> bool {
        self.spec_wrapped().eq_spec(l, r)
    }

    fn eq(&self, l: &String, r: &String) -> bool {
        self.0.eq(l.as_str(), r.as_str())
    }
}

impl<C: Eq<[u8], [u8]>> Eq<Vec<u8>, Vec<u8>> for Borrowing<[u8], C> {
    open spec fn eq_spec(&self, l: Seq<u8>, r: Seq<u8>) -> bool {
        self.spec_wrapped().eq_spec(l, r)
    }

    fn eq(&self, l: &Vec<u8>, r: &Vec<u8>) -> bool {
        self.0.eq(l.as_slice(), r.as_slice())
    }
}

/// Applies a wrapped strategy through a reference-conversion view `B` of
/// the compared types: with `B = [u8]`, owned byte buffers and strings are
/// all compared as the byte sequences they refer to.
pub struct Referencing<B: ?Sized, C = Natural<B>>(C, PhantomData<B>);

impl<B: ?Sized, C> Referencing<B, C> {
    /// The wrapped strategy value.
    pub closed spec fn spec_wrapped(&self) -> C {
        self.0
    }

    pub fn new(c: C) -> (r: Self)
        ensures
            r.spec_wrapped() == c,
    {
        Referencing(c, PhantomData)
    }
}

impl<B: ?Sized> Default for Referencing<B, Natural<B>> {
    fn default() -> Self {
        Referencing(Natural(PhantomData), PhantomData)
    }
}

impl<C: Eq<[u8], [u8]>> Eq<Vec<u8>, Vec<u8>> for Referencing<[u8], C> {
    open spec fn eq_spec(&self, l: Seq<u8>, r: Seq<u8>) -> bool {
        self.spec_wrapped().eq_spec(l, r)
    }

    fn eq(&self, l: &Vec<u8>, r: &Vec<u8>) -> bool {
        self.0.eq(l.as_slice(), r.as_slice())
    }
}

impl<C: Eq<[u8], [u8]>> Eq<Vec<u8>, String> for Referencing<[u8], C> {
    open spec fn eq_spec(&self, l: Seq<u8>, r: Seq<char>) -> bool {
        self.spec_wrapped().eq_spec(l, encode_utf8(r))
    }

    fn eq(&self, l: &Vec<u8>, r: &String) -> bool {
        self.0.eq(l.as_slice(), r.as_str().as_bytes())
    }
}

impl<C: Eq<[u8], [u8]>> Eq<String, Vec<u8>> for Referencing<[u8], C> {
    open spec fn eq_spec(&self, l: Seq<char>, r: Seq<u8>) -> bool {
        self.spec_wrapped().eq_spec(encode_utf8(l), r)
    }

    fn eq(&self, l: &String, r: &Vec<u8>) -> bool {
        self.0.eq(l.as_str().as_bytes(), r.as_slice())
    }
}

impl<C: Eq<[u8], [u8]>> Eq<String, String> for Referencing<[u8], C> {
    open spec fn eq_spec(&self, l: Seq<char>, r: Seq<char>) -> bool {
        self.spec_wrapped().eq_spec(encode_utf8(l), encode_utf8(r))
    }

    fn eq(&self, l: &String, r: &String) -> bool {
        self.0.eq(l.as_str().as_bytes(), r.as_str().as_bytes())
    }
}

impl Hash<[u8]> for Natural<[u8]> {
    open spec fn hash_spec(&self, l: Seq<u8>) -> u64 {
        fnv1a(l)
    }

    fn hash(&self, val: &[u8]) -> u64 {
        fnv1a_of(val)
    }
}

impl Hash<Vec<u8>> for Natural<Vec<u8>> {
    open spec fn hash_spec(&self, l: Seq<u8>) -> u64 {
        fnv1a(l)
    }

    fn hash(&self, val: &Vec<u8>) -> u64 {
        fnv1a_of(val.as_slice())
    }
}

impl Hash<str> for Natural<str> {
    open spec fn hash_spec(&self, l: Seq<char>) -> u64 {
        fnv1a(encode_utf8(l))
    }

    fn hash(&self, val: &str) -> u64 {
        fnv1a_of(val.as_bytes())
    }
}

impl Hash<String> for Natural<String> {
    open spec fn hash_spec(&self, l: Seq<char>) -> u64 {
        fnv1a(encode_utf8(l))
    }

    fn hash(&self, val: &String) -> u64 {
        fnv1a_of(val.as_str().as_bytes())
    }
}

impl<C: Hash<str>> Hash<String> for Borrowing<str, C> {
    open spec fn hash_spec(&self, l: Seq<char>) -> u64 {
        self.spec_wrapped().hash_spec(l)
    }

    fn hash(&self, val: &String) -> u64 {
        self.0.hash(val.as_str())
    }
}

impl<C: Hash<[u8]>> Hash<Vec<u8>> for Borrowing<[u8], C> {
    open spec fn hash_spec(&self, l: Seq<u8>) -> u64 {
        self.spec_wrapped().hash_spec(l)
    }

    fn hash(&self, val: &Vec<u8>) -> u64 {
        self.0.hash(val.as_slice())
    }
}

impl<C: Hash<[u8]>> Hash<Vec<u8>> for Referencing<[u8], C> {
    open spec fn hash_spec(&self, l: Seq<u8>) -> u64 {
        self.spec_wrapped().hash_spec(l)
    }

    fn hash(&self, val: &Vec<u8>) -> u64 {
        self.0.hash(val.as_slice())
    }
}

impl<C: Hash<[u8]>> Hash<String> for Referencing<[u8], C> {
    open spec fn hash_spec(&self, l: Seq<char>) -> u64 {
        self.spec_wrapped().hash_spec(encode_utf8(l))
    }

    fn hash(&self, val: &String) -> u64 {
        self.0.hash(val.as_str().as_bytes())
    }
}

} // verus!
