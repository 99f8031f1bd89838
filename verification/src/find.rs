//! First-match search over a sequence.
//!
//! Several handlers look an item up by its handle in a list the engine
//! reports: a secret variable by its id, a result record by its round id, an
//! attestation by its id. The lookup is specified as the index of the first
//! element satisfying a predicate, and the lemmas here connect a linear scan
//! to that specification.

use vstd::prelude::*;

verus! {

/// Index of the first element of `s` satisfying `p`, if any.
pub open spec fn first_match_index<T>(s: Seq<T>, p: spec_fn(T) -> bool) -> Option<int>
    decreases s.len(),
{
    if s.len() == 0 {
        None
    } else if p(s[0]) {
        Some(0int)
    } else {
        match first_match_index(s.drop_first(), p) {
            Some(i) => Some(i + 1),
            None => None,
        }
    }
}

/// A position satisfying `p` with no earlier one is the first match.
pub proof fn lemma_first_match_found<T>(s: Seq<T>, p: spec_fn(T) -> bool, i: int)
    requires
        0 <= i < s.len(),
        p(s[i]),
        forall|j: int| 0 <= j < i ==> !p(#[trigger] s[j]),
    ensures
        first_match_index(s, p) == Some(i),
    decreases s.len(),
{
    if i > 0 {
        assert(!p(s[0]));
        lemma_first_match_found(s.drop_first(), p, i - 1);
    }
}

/// If no element satisfies `p`, there is no first match.
pub proof fn lemma_first_match_none<T>(s: Seq<T>, p: spec_fn(T) -> bool)
    requires
        forall|j: int| 0 <= j < s.len() ==> !p(#[trigger] s[j]),
    ensures
        first_match_index(s, p) is None,
    decreases s.len(),
{
    if s.len() > 0 {
        lemma_first_match_none(s.drop_first(), p);
    }
}

/// A first match lies in bounds, satisfies `p`, and nothing before it does.
pub proof fn lemma_first_match_index_properties<T>(s: Seq<T>, p: spec_fn(T) -> bool, i: int)
    requires
        first_match_index(s, p) == Some(i),
    ensures
        0 <= i < s.len(),
        p(s[i]),
        forall|j: int| 0 <= j < i ==> !p(#[trigger] s[j]),
    decreases s.len(),
{
    if s.len() > 0 && !p(s[0]) {
        lemma_first_match_index_properties(s.drop_first(), p, i - 1);
        assert forall|j: int| 0 <= j < i implies !p(s[j]) by {
            if j > 0 {
                assert(s[j] == s.drop_first()[j - 1]);
            }
        }
    }
}

} // verus!
