//! Free dispatch: `f(value)` selects the candidate of the value's type.
use vstd::prelude::*;
use std::collections::HashMap;
use crate::info::{Info, pretty_text};
use crate::outcome::{tagged, tag_text, single_entry};

verus! {

/// A candidate behaviour selected by its input type, which also fixes the
/// output type.
pub trait F {
    type Output: DeepView;

    /// What the candidate produces for this input.
    spec fn outcome(&self) -> <Self::Output as DeepView>::V;

    fn f(&self) -> (r: Self::Output)
        ensures
            r.deep_view() == self.outcome(),
    ;
}

/// The suspendable family of candidates; the body here is what the
/// suspension resolves to once resumed.
pub trait FAsync {
    type Output: DeepView;

    spec fn outcome_async(&self) -> <Self::Output as DeepView>::V;

    fn f_async(&self) -> (r: Self::Output)
        ensures
            r.deep_view() == self.outcome_async(),
    ;
}

/// Dispatches to the candidate of `P`; its outcome is that candidate's,
/// and its output type is the one that `P` fixes.
pub fn f<P: F>(p: P) -> (r: P::Output)
    ensures
        r.deep_view() == p.outcome(),
{
    p.f()
}

/// Dispatches to the suspendable candidate of `P`.
pub fn f_async<P: FAsync>(p: P) -> (r: P::Output)
    ensures
        r.deep_view() == p.outcome_async(),
{
    p.f_async()
}

/// Two dispatches on equal inputs produce equal outcomes.
pub proof fn lemma_dispatch_deterministic<P: F>(p1: P, p2: P, r1: P::Output, r2: P::Output)
    requires
        p1 == p2,
        r1.deep_view() == p1.outcome(),
        r2.deep_view() == p2.outcome(),
    ensures
        r1.deep_view() == r2.deep_view(),
{
}

impl F for () {
    type Output = i32;

    open spec fn outcome(&self) -> i32 {
        1
    }

    fn f(&self) -> (r: i32) {
        1
    }
}

impl<'s> F for (&'s str, i32) {
    type Output = HashMap<i32, String>;

    open spec fn outcome(&self) -> Map<i32, Seq<char>> {
        map![self.1 => self.0@]
    }

    fn f(&self) -> (r: HashMap<i32, String>) {
        single_entry(self.1, self.0)
    }
}

impl<'r, 'a> F for &'r Info<'a> {
    type Output = Vec<String>;

    open spec fn outcome(&self) -> Seq<Seq<char>> {
        tagged(pretty_text((**self)@))
    }

    fn f(&self) -> (r: Vec<String>) {
        tag_text(self.pretty())
    }
}

impl<'r, 'a> FAsync for &'r Info<'a> {
    type Output = Vec<String>;

    open spec fn outcome_async(&self) -> Seq<Seq<char>> {
        tagged(pretty_text((**self)@))
    }

    fn f_async(&self) -> (r: Vec<String>) {
        tag_text(self.pretty())
    }
}

} // verus!
