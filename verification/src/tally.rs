//! The counting computation's contract.
//!
//! The opaque engine evaluates the tally over secret-shared vote bits without
//! revealing them; what it must compute is specified here as a plain function
//! over the vote bits: the count of those that are set. Input order is
//! irrelevant to the count, and the count never exceeds the number of votes,
//! so a conforming engine can never report more yes votes than voters.

use vstd::prelude::*;

verus! {

/// How many of the given vote bits are set.
pub open spec fn count_true(bits: Seq<bool>) -> nat
    decreases bits.len(),
{
    if bits.len() == 0 {
        0
    } else {
        count_true(bits.drop_last()) + if bits.last() {
            1nat
        } else {
            0nat
        }
    }
}

/// The count of set bits never exceeds the number of bits: a conforming
/// engine never yields a tally above the number of admitted votes.
pub proof fn lemma_count_true_le_len(bits: Seq<bool>)
    ensures
        count_true(bits) <= bits.len(),
    decreases bits.len(),
{
    if bits.len() > 0 {
        lemma_count_true_le_len(bits.drop_last());
    }
}

/// The count of set bits is the multiplicity of `true` among the bits.
pub proof fn lemma_count_true_is_multiset_count(bits: Seq<bool>)
    ensures
        count_true(bits) == bits.to_multiset().count(true),
    decreases bits.len(),
{
    broadcast use vstd::seq_lib::group_to_multiset_ensures;
    broadcast use vstd::multiset::group_multiset_axioms;
    broadcast use vstd::multiset::group_multiset_properties;

    if bits.len() == 0 {
        vstd::multiset::lemma_multiset_empty_len(bits.to_multiset());
    } else {
        lemma_count_true_is_multiset_count(bits.drop_last());
        assert(bits.drop_last().push(bits.last()) =~= bits);
        assert(bits.to_multiset() =~= bits.drop_last().to_multiset().insert(bits.last()));
    }
}

/// The count of set bits does not depend on the order in which the votes are
/// handed to the counting computation: sequences holding the same bits with
/// the same multiplicities count the same.
pub proof fn lemma_count_true_order_irrelevant(a: Seq<bool>, b: Seq<bool>)
    requires
        a.to_multiset() == b.to_multiset(),
    ensures
        count_true(a) == count_true(b),
{
    lemma_count_true_is_multiset_count(a);
    lemma_count_true_is_multiset_count(b);
}

/// The tally the engine must produce over the round's votes: a 32-bit
/// unsigned count of the vote bits that are set ("for").
pub fn zk_compute(votes: &Vec<bool>) -> (votes_for: u32)
    requires
        votes@.len() <= u32::MAX,
    ensures
        votes_for == count_true(votes@),
{
    let mut votes_for: u32 = 0;
    for i in 0..votes.len()
        invariant
            votes@.len() <= u32::MAX,
            votes_for == count_true(votes@.take(i as int)),
    {
        proof {
            assert(votes@.take(i + 1).drop_last() =~= votes@.take(i as int));
            lemma_count_true_le_len(votes@.take(i + 1));
        }
        if votes[i] {
            votes_for = votes_for + 1;
        }
        assert(votes_for == count_true(votes@.take(i + 1)));
    }
    proof {
        assert(votes@.take(votes@.len() as int) =~= votes@);
    }
    votes_for
}

} // verus!
