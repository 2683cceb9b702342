//! Operation decoder: which of an adapter's schemas a payload falls under.
//!
//! An adapter tries its schemas in a fixed order and takes the first that accepts the payload.
//! Schemas overlap, so the order is part of what an adapter means.

use vstd::prelude::*;

verus! {

/// The position of the first schema that accepted the payload, where `accepted[i]` says whether
/// the schema at position `i` of the adapter's order did.
pub open spec fn first_accepting_view(accepted: Seq<bool>) -> Option<int>
    decreases accepted.len(),
{
    if accepted.len() == 0 {
        None
    } else if accepted[0] {
        Some(0)
    } else {
        match first_accepting_view(accepted.drop_first()) {
            Some(i) => Some(i + 1),
            None => None,
        }
    }
}

/// The first accepting schema accepts, none before it does, and where there is none, no schema
/// accepts.
pub proof fn lemma_first_accepting(accepted: Seq<bool>)
    ensures
        match first_accepting_view(accepted) {
            Some(i) => 0 <= i < accepted.len() && accepted[i] && forall|j: int|
                0 <= j < i ==> !accepted[j],
            None => forall|j: int| 0 <= j < accepted.len() ==> !accepted[j],
        },
    decreases accepted.len(),
{
    if accepted.len() > 0 && !accepted[0] {
        let rest = accepted.drop_first();
        lemma_first_accepting(rest);
        match first_accepting_view(rest) {
            Some(i) => {
                assert forall|j: int| 0 <= j < i + 1 implies !accepted[j] by {
                    if j > 0 {
                        assert(accepted[j] == rest[j - 1]);
                    }
                }
            },
            None => {
                assert forall|j: int| 0 <= j < accepted.len() implies !accepted[j] by {
                    if j > 0 {
                        assert(accepted[j] == rest[j - 1]);
                    }
                }
            },
        }
    }
}

/// A payload that two schemas accept goes to the earlier one: whatever accepts at position
/// `i`, the schema taken stands at `i` or before it.
pub proof fn lemma_decoder_priority(accepted: Seq<bool>, i: int)
    requires
        0 <= i < accepted.len(),
        accepted[i],
    ensures
        first_accepting_view(accepted) is Some,
        first_accepting_view(accepted)->0 <= i,
{
    lemma_first_accepting(accepted);
}

/// Tries the schemas in their order and stops at the first that accepted the payload.
pub fn first_accepting(accepted: &Vec<bool>) -> (r: Option<usize>)
    ensures
        match r {
            Some(i) => first_accepting_view(accepted@) == Some(i as int),
            None => first_accepting_view(accepted@) is None,
        },
        match r {
            Some(i) => i < accepted.len() && accepted[i as int] && forall|j: int|
                0 <= j < i ==> !accepted[j],
            None => forall|j: int| 0 <= j < accepted.len() ==> !accepted[j],
        },
{
    let mut i: usize = 0;
    while i < accepted.len()
        invariant
            i <= accepted.len(),
            forall|j: int| 0 <= j < i ==> !accepted@[j],
        decreases accepted.len() - i,
    {
        if accepted[i] {
            proof {
                lemma_first_accepting(accepted@);
            }
            return Some(i);
        }
        i += 1;
    }
    proof {
        lemma_first_accepting(accepted@);
    }
    None
}

} // verus!
