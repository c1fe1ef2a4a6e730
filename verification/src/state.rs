//! The state bag of an operator instance and its carry-over on reload.

use vstd::prelude::*;

verus! {

/// One attribute of an instance: its name and the caller's handle of its
/// value.
#[derive(Debug, Clone, PartialEq, Eq)]
pub struct Attribute {
    pub name: String,
    pub value: u64,
}

/// The value that a state bag holds under `name`: that of the first
/// attribute of that name.
pub open spec fn value_of(bag: Seq<Attribute>, name: Seq<char>) -> Option<u64>
    decreases bag.len(),
{
    if bag.len() == 0 {
        None
    } else if bag[0].name@ == name {
        Some(bag[0].value)
    } else {
        value_of(bag.drop_first(), name)
    }
}

/// Looking a name up in two bags laid end to end finds it in the first
/// bag, or else in the second.
pub proof fn lemma_value_of_concat(first: Seq<Attribute>, second: Seq<Attribute>, name: Seq<char>)
    ensures
        value_of(first + second, name) == match value_of(first, name) {
            Some(value) => Some(value),
            None => value_of(second, name),
        },
    decreases first.len(),
{
    if first.len() == 0 {
        assert(first + second == second);
    } else {
        assert((first + second)[0] == first[0]);
        assert((first + second).drop_first() == first.drop_first() + second);
        lemma_value_of_concat(first.drop_first(), second, name);
    }
}

/// The state bag of a reloaded instance: every name that the previous
/// instance held keeps the previous value, and a name that only the new
/// instance's initialization set keeps its new value.
pub fn merge_state(fresh: Vec<Attribute>, previous: Vec<Attribute>) -> (merged: Vec<Attribute>)
    ensures
        merged@ == previous@ + fresh@,
        forall|name: Seq<char>| #[trigger]
            value_of(merged@, name) == match value_of(previous@, name) {
                Some(value) => Some(value),
                None => value_of(fresh@, name),
            },
{
    let mut merged = previous;
    let mut fresh = fresh;
    let ghost before = merged@;
    let ghost added = fresh@;
    merged.append(&mut fresh);
    assert forall|name: Seq<char>| #[trigger]
        value_of(merged@, name) == match value_of(before, name) {
            Some(value) => Some(value),
            None => value_of(added, name),
        } by {
        lemma_value_of_concat(before, added, name);
    }
    merged
}

/// Looks a name up in a state bag.
pub fn lookup(bag: &Vec<Attribute>, name: &String) -> (value: Option<u64>)
    ensures
        value == value_of(bag@, name@),
{
    let mut i: usize = 0;
    assert(bag@.skip(0) == bag@);
    while i < bag.len()
        invariant
            i <= bag@.len(),
            value_of(bag@, name@) == value_of(bag@.skip(i as int), name@),
        decreases bag@.len() - i,
    {
        proof {
            assert(bag@.skip(i as int)[0] == bag@[i as int]);
            assert(bag@.skip(i as int).drop_first() == bag@.skip(i + 1));
        }
        if bag[i].name == *name {
            return Some(bag[i].value);
        }
        i += 1;
    }
    None
}

} // verus!
