//! Capability dispatch: any type declaring `T` forwards `f` and `f_async`
//! to the value's candidate for that type and the requested output type.
use vstd::prelude::*;
use crate::info::{Info, pretty_text};
use crate::outcome::{tagged, tag_text, tag_unit, unit_text};
use crate::input_output_overload::independent_fn as free;

verus! {

/// The shared capability. Its methods carry the forwarding body, so a
/// declaring type only has to state that it takes part.
pub trait T {
    /// Forwards to the candidate of `P` for the declaring type that produces `R`.
    fn f<P: F<Self, R>, R: DeepView>(&self, p: P) -> (r: R)
        ensures
            r.deep_view() == p.outcome(self),
    {
        p.f(self)
    }

    /// Forwards to the suspendable candidate of `P` that produces `R`; the
    /// value must be safe to share and to move between execution contexts.
    fn f_async<P: FAsync<Self, R> + Send + Sync, R: DeepView>(&self, p: P) -> (r: R)
        ensures
            r.deep_view() == p.outcome_async(self),
    {
        p.f_async(self)
    }
}

/// A candidate behaviour keyed by its input type, a capability owner and the output
/// type `R` that the caller requests.
pub trait F<Owner: ?Sized, R: DeepView> {
    spec fn outcome(&self, o: &Owner) -> R::V;

    fn f(&self, o: &Owner) -> (r: R)
        ensures
            r.deep_view() == self.outcome(o),
    ;
}

/// The suspendable family of candidates keyed by input and output type, a capability owner.
pub trait FAsync<Owner: ?Sized, R: DeepView> {
    spec fn outcome_async(&self, o: &Owner) -> R::V;

    fn f_async(&self, o: &Owner) -> (r: R)
        ensures
            r.deep_view() == self.outcome_async(o),
    ;
}

/// A zero-state type that declares the capability and keeps its default
/// forwarding.
pub struct I;

impl T for I {}

/// Capability dispatch through `I` and free dispatch select agreeing
/// candidates: for every input that both serve and every output type that
/// both offer, sync and suspendable, the outcome is the same.
pub proof fn lemma_capability_agrees_with_free_dispatch<'r, 'a>(c: &I, info: &'r Info<'a>)
    ensures
        <() as F<I, i32>>::outcome(&(), c) == <() as free::F<i32>>::outcome(&()),
        <() as FAsync<I, i32>>::outcome_async(&(), c) == <() as free::FAsync<i32>>::outcome_async(&()),
        <() as F<I, Vec<String>>>::outcome(&(), c) == <() as free::F<Vec<String>>>::outcome(&()),
        <() as FAsync<I, Vec<String>>>::outcome_async(&(), c) == <() as free::FAsync<Vec<String>>>::outcome_async(&()),
        <&'r Info<'a> as F<I, i32>>::outcome(&info, c) == <&'r Info<'a> as free::F<i32>>::outcome(&info),
        <&'r Info<'a> as FAsync<I, i32>>::outcome_async(&info, c) == <&'r Info<'a> as free::FAsync<i32>>::outcome_async(&info),
        <&'r Info<'a> as F<I, Vec<String>>>::outcome(&info, c) == <&'r Info<'a> as free::F<Vec<String>>>::outcome(&info),
        <&'r Info<'a> as FAsync<I, Vec<String>>>::outcome_async(&info, c) == <&'r Info<'a> as free::FAsync<Vec<String>>>::outcome_async(&info),
{
}

impl F<I, i32> for () {
    open spec fn outcome(&self, o: &I) -> i32 {
        5
    }

    fn f(&self, _o: &I) -> (r: i32) {
        5
    }
}

impl F<I, Vec<String>> for () {
    open spec fn outcome(&self, o: &I) -> Seq<Seq<char>> {
        tagged(unit_text())
    }

    fn f(&self, _o: &I) -> (r: Vec<String>) {
        tag_unit()
    }
}

impl<'r, 'a> F<I, i32> for &'r Info<'a> {
    open spec fn outcome(&self, o: &I) -> i32 {
        1
    }

    fn f(&self, _o: &I) -> (r: i32) {
        1
    }
}

impl<'r, 'a> F<I, Vec<String>> for &'r Info<'a> {
    open spec fn outcome(&self, o: &I) -> Seq<Seq<char>> {
        tagged(pretty_text((**self)@))
    }

    fn f(&self, _o: &I) -> (r: Vec<String>) {
        tag_text(self.pretty())
    }
}

impl FAsync<I, i32> for () {
    open spec fn outcome_async(&self, o: &I) -> i32 {
        6
    }

    fn f_async(&self, _o: &I) -> (r: i32) {
        6
    }
}

impl FAsync<I, Vec<String>> for () {
    open spec fn outcome_async(&self, o: &I) -> Seq<Seq<char>> {
        tagged(unit_text())
    }

    fn f_async(&self, _o: &I) -> (r: Vec<String>) {
        tag_unit()
    }
}

impl<'r, 'a> FAsync<I, i32> for &'r Info<'a> {
    open spec fn outcome_async(&self, o: &I) -> i32 {
        2
    }

    fn f_async(&self, _o: &I) -> (r: i32) {
        2
    }
}

impl<'r, 'a> FAsync<I, Vec<String>> for &'r Info<'a> {
    open spec fn outcome_async(&self, o: &I) -> Seq<Seq<char>> {
        tagged(pretty_text((**self)@))
    }

    fn f_async(&self, _o: &I) -> (r: Vec<String>) {
        tag_text(self.pretty())
    }
}

} // verus!
