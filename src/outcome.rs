use vstd::prelude::*;
use std::collections::HashMap;

verus! {

/// The tag that leads every text-sequence outcome.
pub open spec fn tag() -> Seq<char> {
    "trait_fn"@
}

/// A text-sequence outcome: the tag, then the rendering of the input.
pub open spec fn tagged(text: Seq<char>) -> Seq<Seq<char>> {
    seq![tag(), text]
}

/// The debug rendering of the unit value.
pub open spec fn unit_text() -> Seq<char> {
    "()"@
}

/// Pairs the tag with an already rendered input.
pub fn tag_text(text: String) -> (r: Vec<String>)
    ensures
        r.deep_view() == tagged(text@),
{
    let mut r: Vec<String> = Vec::new();
    r.push("trait_fn".to_owned());
    r.push(text);
    assert(r.deep_view() =~= tagged(text@));
    r
}

/// The text-sequence outcome for the unit value.
pub fn tag_unit() -> (r: Vec<String>)
    ensures
        r.deep_view() == tagged(unit_text()),
{
    tag_text("()".to_owned())
}

/// A map holding exactly one entry, from `key` to `value`.
pub fn single_entry(key: i32, value: &str) -> (r: HashMap<i32, String>)
    ensures
        r.deep_view() == map![key => value@],
{
    broadcast use vstd::std_specs::hash::group_hash_axioms;
    let mut r: HashMap<i32, String> = HashMap::new();
    r.insert(key, value.to_owned());
    proof {
        let ghost dv = |k: i32| k.deep_view();
        assert(vstd::relations::injective(dv));
        vstd::std_specs::hash::lemma_hashmap_deepview_dom(r);
        vstd::std_specs::hash::lemma_hashmap_deepview_properties(r);
        assert(r.deep_view().dom() =~= map![key => value@].dom());
        assert(r@.contains_key(key));
    }
    assert(r.deep_view() =~= map![key => value@]);
    r
}

} // verus!
