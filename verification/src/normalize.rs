//! Normalization strategies: pluggable conversions from a borrowed query
//! form to an owned target form, each strategy carrying the spec-level
//! function its executable conversion computes. This is the materialization
//! half of the lookup-key abstraction: a store defers it to the insert
//! path, where an owned element is actually needed.

use core::marker::PhantomData;
use vstd::prelude::*;

use crate::wrapper::{Borrowing, Referencing};

verus! {

/// A conversion strategy from `Src` to `Dst`: the executable `normalize`
/// computes, over the values' views, exactly the spec-level function
/// `norm_spec`.
pub trait Normalize<Src: View, Dst: View> {
    /// The conversion this strategy computes, over views.
    spec fn norm_spec(&self, from: Src::V) -> Dst::V;

    /// Convert a query value into the target form.
    fn normalize(&self, from: Src) -> (to: Dst)
        ensures
            to@ == self.norm_spec(from@),
    ;
}

/// The plain conversion into an owned copy of the same logical value.
pub struct Into<To>(PhantomData<To>);

impl<To> Into<To> {
    pub fn new() -> Self {
        Into(PhantomData)
    }
}

impl<To> Default for Into<To> {
    fn default() -> Self {
        Into(PhantomData)
    }
}

impl<'a> Normalize<&'a str, String> for Into<String> {
    open spec fn norm_spec(&self, from: Seq<char>) -> Seq<char> {
        from
    }

    fn normalize(&self, from: &'a str) -> String {
        from.to_owned()
    }
}

impl<'a> Normalize<&'a [u8], Vec<u8>> for Into<Vec<u8>> {
    open spec fn norm_spec(&self, from: Seq<u8>) -> Seq<u8> {
        from
    }

    fn normalize(&self, from: &'a [u8]) -> Vec<u8> {
        vstd::slice::slice_to_vec(from)
    }
}

impl<'a, Dst: View, W: Normalize<&'a str, Dst>> Normalize<&'a String, Dst> for Borrowing<str, W> {
    open spec fn norm_spec(&self, from: Seq<char>) -> Dst::V {
        self.spec_wrapped().norm_spec(from)
    }

    fn normalize(&self, from: &'a String) -> Dst {
        self.get_wrapped().normalize(from.as_str())
    }
}

impl<'a, Dst: View, W: Normalize<&'a [u8], Dst>> Normalize<&'a Vec<u8>, Dst> for Referencing<
    [u8],
    W,
> {
    open spec fn norm_spec(&self, from: Seq<u8>) -> Dst::V {
        self.spec_wrapped().norm_spec(from)
    }

    fn normalize(&self, from: &'a Vec<u8>) -> Dst {
        self.get_wrapped().normalize(from.as_slice())
    }
}

impl<'a, Dst: View, W: Normalize<&'a str, Dst>> Normalize<&'a String, Dst> for Referencing<
    str,
    W,
> {
    open spec fn norm_spec(&self, from: Seq<char>) -> Dst::V {
        self.spec_wrapped().norm_spec(from)
    }

    fn normalize(&self, from: &'a String) -> Dst {
        self.get_wrapped().normalize(from.as_str())
    }
}

} // verus!
