//! Owned dispatch: `o.f(value)` selects the candidate of the value's type
//! registered for the owner type `O`.
use vstd::prelude::*;
use std::collections::HashMap;
use crate::info::{Info, pretty_text};
use crate::outcome::{tagged, tag_text, single_entry};

verus! {

/// Zero-state owner whose type takes part in the selection key.
pub struct O;

impl O {
    /// Dispatches to the candidate of `P` registered for `O`.
    pub fn f<P: F<Self>>(&self, p: P) -> (r: P::Output)
        ensures
            r.deep_view() == p.outcome(self),
    {
        p.f(self)
    }

    /// Dispatches to the suspendable candidate of `P` registered for `O`.
    pub fn f_async<P: FAsync<Self>>(&self, p: P) -> (r: P::Output)
        ensures
            r.deep_view() == p.outcome_async(self),
    {
        p.f_async(self)
    }
}

/// A candidate behaviour keyed by its input type and an owner type.
pub trait F<Owner: ?Sized> {
    type Output: DeepView;

    spec fn outcome(&self, o: &Owner) -> <Self::Output as DeepView>::V;

    fn f(&self, o: &Owner) -> (r: Self::Output)
        ensures
            r.deep_view() == self.outcome(o),
    ;
}

/// The suspendable family of owner-keyed candidates.
pub trait FAsync<Owner: ?Sized> {
    type Output: DeepView;

    spec fn outcome_async(&self, o: &Owner) -> <Self::Output as DeepView>::V;

    fn f_async(&self, o: &Owner) -> (r: Self::Output)
        ensures
            r.deep_view() == self.outcome_async(o),
    ;
}

impl F<O> for () {
    type Output = i32;

    open spec fn outcome(&self, o: &O) -> i32 {
        2
    }

    fn f(&self, _o: &O) -> (r: i32) {
        2
    }
}

impl<'s> F<O> for (&'s str, i32) {
    type Output = HashMap<i32, String>;

    open spec fn outcome(&self, o: &O) -> Map<i32, Seq<char>> {
        map![self.1 => self.0@]
    }

    fn f(&self, _o: &O) -> (r: HashMap<i32, String>) {
        single_entry(self.1, self.0)
    }
}

impl<'r, 'a> F<O> for &'r Info<'a> {
    type Output = Vec<String>;

    open spec fn outcome(&self, o: &O) -> Seq<Seq<char>> {
        tagged(pretty_text((**self)@))
    }

    fn f(&self, _o: &O) -> (r: Vec<String>) {
        tag_text(self.pretty())
    }
}

impl<'r, 'a> FAsync<O> for &'r Info<'a> {
    type Output = Vec<String>;

    open spec fn outcome_async(&self, o: &O) -> Seq<Seq<char>> {
        tagged(pretty_text((**self)@))
    }

    fn f_async(&self, _o: &O) -> (r: Vec<String>) {
        tag_text(self.pretty())
    }
}

} // verus!
