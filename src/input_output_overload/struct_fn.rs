//! Owned dispatch: `o.f(value)` selects the candidate of the value's type,
//! of the owner type `O` and of the requested output type.
use vstd::prelude::*;
use crate::info::{Info, pretty_text};
use crate::outcome::{tagged, tag_text, tag_unit, unit_text};

verus! {

/// Zero-state owner whose type takes part in the selection key.
pub struct O;

impl O {
    /// Dispatches to the candidate of `P` for `O` that produces `R`.
    pub fn f<P: F<Self, R>, R: DeepView>(&self, p: P) -> (r: R)
        ensures
            r.deep_view() == p.outcome(self),
    {
        p.f(self)
    }

    /// Dispatches to the suspendable candidate of `P` for `O` that produces `R`.
    pub fn f_async<P: FAsync<Self, R>, R: DeepView>(&self, p: P) -> (r: R)
        ensures
            r.deep_view() == p.outcome_async(self),
    {
        p.f_async(self)
    }
}

/// A candidate behaviour keyed by its input type, an owner type and the output
/// type `R` that the caller requests.
pub trait F<Owner: ?Sized, R: DeepView> {
    spec fn outcome(&self, o: &Owner) -> R::V;

    fn f(&self, o: &Owner) -> (r: R)
        ensures
            r.deep_view() == self.outcome(o),
    ;
}

/// The suspendable family of candidates keyed by input and output type, an owner type.
pub trait FAsync<Owner: ?Sized, R: DeepView> {
    spec fn outcome_async(&self, o: &Owner) -> R::V;

    fn f_async(&self, o: &Owner) -> (r: R)
        ensures
            r.deep_view() == self.outcome_async(o),
    ;
}

impl F<O, i32> for () {
    open spec fn outcome(&self, o: &O) -> i32 {
        3
    }

    fn f(&self, _o: &O) -> (r: i32) {
        3
    }
}

impl F<O, Vec<String>> for () {
    open spec fn outcome(&self, o: &O) -> Seq<Seq<char>> {
        tagged(unit_text())
    }

    fn f(&self, _o: &O) -> (r: Vec<String>) {
        tag_unit()
    }
}

impl<'r, 'a> F<O, i32> for &'r Info<'a> {
    open spec fn outcome(&self, o: &O) -> i32 {
        3
    }

    fn f(&self, _o: &O) -> (r: i32) {
        3
    }
}

impl<'r, 'a> F<O, Vec<String>> for &'r Info<'a> {
    open spec fn outcome(&self, o: &O) -> Seq<Seq<char>> {
        tagged(pretty_text((**self)@))
    }

    fn f(&self, _o: &O) -> (r: Vec<String>) {
        tag_text(self.pretty())
    }
}

impl FAsync<O, i32> for () {
    open spec fn outcome_async(&self, o: &O) -> i32 {
        4
    }

    fn f_async(&self, _o: &O) -> (r: i32) {
        4
    }
}

impl FAsync<O, Vec<String>> for () {
    open spec fn outcome_async(&self, o: &O) -> Seq<Seq<char>> {
        tagged(unit_text())
    }

    fn f_async(&self, _o: &O) -> (r: Vec<String>) {
        tag_unit()
    }
}

impl<'r, 'a> FAsync<O, i32> for &'r Info<'a> {
    open spec fn outcome_async(&self, o: &O) -> i32 {
        4
    }

    fn f_async(&self, _o: &O) -> (r: i32) {
        4
    }
}

impl<'r, 'a> FAsync<O, Vec<String>> for &'r Info<'a> {
    open spec fn outcome_async(&self, o: &O) -> Seq<Seq<char>> {
        tagged(pretty_text((**self)@))
    }

    fn f_async(&self, _o: &O) -> (r: Vec<String>) {
        tag_text(self.pretty())
    }
}

} // verus!
