//! Free dispatch: `f(value)` selects the candidate of the value's type and
//! of the output type the call site asks for.
use vstd::prelude::*;
use crate::info::{Info, pretty_text};
use crate::outcome::{tagged, tag_text, tag_unit, unit_text};

verus! {

/// A candidate behaviour keyed by its input type and the output
/// type `R` that the caller requests.
pub trait F<R: DeepView> {
    spec fn outcome(&self) -> R::V;

    fn f(&self) -> (r: R)
        ensures
            r.deep_view() == self.outcome(),
    ;
}

/// The suspendable family of candidates keyed by input and output type.
pub trait FAsync<R: DeepView> {
    spec fn outcome_async(&self) -> R::V;

    fn f_async(&self) -> (r: R)
        ensures
            r.deep_view() == self.outcome_async(),
    ;
}

/// Dispatches to the candidate of `P` that produces `R`.
pub fn f<P: F<R>, R: DeepView>(p: P) -> (r: R)
    ensures
        r.deep_view() == p.outcome(),
{
    p.f()
}

/// Dispatches to the suspendable candidate of `P` that produces `R`.
pub fn f_async<P: FAsync<R>, R: DeepView>(p: P) -> (r: R)
    ensures
        r.deep_view() == p.outcome_async(),
{
    p.f_async()
}

/// Two dispatches on equal inputs that request the same output type produce
/// equal outcomes.
pub proof fn lemma_dispatch_deterministic<P: F<R>, R: DeepView>(p1: P, p2: P, r1: R, r2: R)
    requires
        p1 == p2,
        r1.deep_view() == p1.outcome(),
        r2.deep_view() == p2.outcome(),
    ensures
        r1.deep_view() == r2.deep_view(),
{
}

/// One input type resolves to different candidates when the caller asks for
/// different output types: on the unit value, a fixed integer, or the tagged
/// text sequence.
pub proof fn lemma_output_type_selects_candidate()
    ensures
        <() as F<i32>>::outcome(&()) == 5,
        <() as F<Vec<String>>>::outcome(&()) == tagged(unit_text()),
        <() as F<Vec<String>>>::outcome(&()).len() == 2,
{
}

impl F<i32> for () {
    open spec fn outcome(&self) -> i32 {
        5
    }

    fn f(&self) -> (r: i32) {
        5
    }
}

impl F<Vec<String>> for () {
    open spec fn outcome(&self) -> Seq<Seq<char>> {
        tagged(unit_text())
    }

    fn f(&self) -> (r: Vec<String>) {
        tag_unit()
    }
}

impl<'r, 'a> F<i32> for &'r Info<'a> {
    open spec fn outcome(&self) -> i32 {
        1
    }

    fn f(&self) -> (r: i32) {
        1
    }
}

impl<'r, 'a> F<Vec<String>> for &'r Info<'a> {
    open spec fn outcome(&self) -> Seq<Seq<char>> {
        tagged(pretty_text((**self)@))
    }

    fn f(&self) -> (r: Vec<String>) {
        tag_text(self.pretty())
    }
}

impl FAsync<i32> for () {
    open spec fn outcome_async(&self) -> i32 {
        6
    }

    fn f_async(&self) -> (r: i32) {
        6
    }
}

impl FAsync<Vec<String>> for () {
    open spec fn outcome_async(&self) -> Seq<Seq<char>> {
        tagged(unit_text())
    }

    fn f_async(&self) -> (r: Vec<String>) {
        tag_unit()
    }
}

impl<'r, 'a> FAsync<i32> for &'r Info<'a> {
    open spec fn outcome_async(&self) -> i32 {
        2
    }

    fn f_async(&self) -> (r: i32) {
        2
    }
}

impl<'r, 'a> FAsync<Vec<String>> for &'r Info<'a> {
    open spec fn outcome_async(&self) -> Seq<Seq<char>> {
        tagged(pretty_text((**self)@))
    }

    fn f_async(&self) -> (r: Vec<String>) {
        tag_text(self.pretty())
    }
}

} // verus!
