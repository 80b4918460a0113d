//! Capability dispatch: any type declaring `T` gets `f` and `f_async`,
//! which forward to the value's candidate for that type.
use vstd::prelude::*;
use std::collections::HashMap;
use crate::info::{Info, pretty_text};
use crate::outcome::{tagged, tag_text, single_entry};
use crate::input_overload::independent_fn as free;

verus! {

/// The shared capability. Its methods carry the forwarding body, so a
/// declaring type only has to state that it takes part.
pub trait T {
    /// Forwards to the candidate of `P` for the declaring type.
    fn f<P: F<Self>>(&self, p: P) -> (r: P::Output)
        ensures
            r.deep_view() == p.outcome(self),
    {
        p.f(self)
    }

    /// Forwards to the suspendable candidate of `P`; the value must be safe
    /// to share and to move between execution contexts.
    fn f_async<P: FAsync<Self> + Send + Sync>(&self, p: P) -> (r: P::Output)
        ensures
            r.deep_view() == p.outcome_async(self),
    {
        p.f_async(self)
    }
}

/// A candidate behaviour keyed by its input type and a capability owner.
pub trait F<Owner: ?Sized> {
    type Output: DeepView;

    spec fn outcome(&self, o: &Owner) -> <Self::Output as DeepView>::V;

    fn f(&self, o: &Owner) -> (r: Self::Output)
        ensures
            r.deep_view() == self.outcome(o),
    ;
}

/// The suspendable family of capability-keyed candidates.
pub trait FAsync<Owner: ?Sized> {
    type Output: DeepView;

    spec fn outcome_async(&self, o: &Owner) -> <Self::Output as DeepView>::V;

    fn f_async(&self, o: &Owner) -> (r: Self::Output)
        ensures
            r.deep_view() == self.outcome_async(o),
    ;
}

/// A zero-state type that declares the capability and keeps its default
/// forwarding.
pub struct I;

impl T for I {}

/// Capability dispatch through `I` and free dispatch select agreeing
/// candidates: on every input that both serve, sync and suspendable, the
/// outcome is the same.
pub proof fn lemma_capability_agrees_with_free_dispatch<'s, 'r, 'a>(
    c: &I,
    pair: (&'s str, i32),
    info: &'r Info<'a>,
)
    ensures
        <() as F<I>>::outcome(&(), c) == <() as free::F>::outcome(&()),
        <(&'s str, i32) as F<I>>::outcome(&pair, c) == <(&'s str, i32) as free::F>::outcome(
            &pair,
        ),
        <&'r Info<'a> as F<I>>::outcome(&info, c) == <&'r Info<'a> as free::F>::outcome(&info),
        <&'r Info<'a> as FAsync<I>>::outcome_async(&info, c) == <&'r Info<
            'a,
        > as free::FAsync>::outcome_async(&info),
{
}

impl F<I> for () {
    type Output = i32;

    open spec fn outcome(&self, o: &I) -> i32 {
        1
    }

    fn f(&self, _o: &I) -> (r: i32) {
        1
    }
}

impl<'s> F<I> for (&'s str, i32) {
    type Output = HashMap<i32, String>;

    open spec fn outcome(&self, o: &I) -> Map<i32, Seq<char>> {
        map![self.1 => self.0@]
    }

    fn f(&self, _o: &I) -> (r: HashMap<i32, String>) {
        single_entry(self.1, self.0)
    }
}

impl<'r, 'a> F<I> for &'r Info<'a> {
    type Output = Vec<String>;

    open spec fn outcome(&self, o: &I) -> Seq<Seq<char>> {
        tagged(pretty_text((**self)@))
    }

    fn f(&self, _o: &I) -> (r: Vec<String>) {
        tag_text(self.pretty())
    }
}

impl<'r, 'a> FAsync<I> for &'r Info<'a> {
    type Output = Vec<String>;

    open spec fn outcome_async(&self, o: &I) -> Seq<Seq<char>> {
        tagged(pretty_text((**self)@))
    }

    fn f_async(&self, _o: &I) -> (r: Vec<String>) {
        tag_text(self.pretty())
    }
}

} // verus!
