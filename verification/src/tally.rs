//! Counting the votes of a cast-vote map.

use vstd::prelude::*;

verus! {

/// The voters whose recorded vote is `choice`.
pub open spec fn supporters<K>(votes: Map<K, bool>, choice: bool) -> Set<K> {
    Set::new(|k: K| votes.contains_key(k) && votes[k] == choice)
}

/// How many recorded votes are `choice`.
pub open spec fn tally<K>(votes: Map<K, bool>, choice: bool) -> nat {
    supporters(votes, choice).len()
}

pub proof fn lemma_supporters_finite<K>(votes: Map<K, bool>, choice: bool)
    requires
        votes.dom().finite(),
    ensures
        supporters(votes, choice).finite(),
        tally(votes, choice) <= votes.dom().len(),
{
    vstd::set_lib::lemma_len_subset(supporters(votes, choice), votes.dom());
}

/// Nobody has voted in an empty map.
pub proof fn lemma_tally_empty<K>(choice: bool)
    ensures
        tally(Map::<K, bool>::empty(), choice) == 0,
{
    assert(supporters(Map::<K, bool>::empty(), choice) =~= Set::<K>::empty());
}

/// A first vote adds one to the tally of its choice and leaves the other.
pub proof fn lemma_tally_insert_fresh<K>(votes: Map<K, bool>, voter: K, choice: bool)
    requires
        votes.dom().finite(),
        !votes.contains_key(voter),
    ensures
        tally(votes.insert(voter, choice), choice) == tally(votes, choice) + 1,
        tally(votes.insert(voter, choice), !choice) == tally(votes, !choice),
{
    lemma_supporters_finite(votes, choice);
    assert(supporters(votes.insert(voter, choice), choice) =~= supporters(votes, choice).insert(
        voter,
    ));
    assert(supporters(votes.insert(voter, choice), !choice) =~= supporters(votes, !choice));
}

/// Taking a vote back subtracts one from the tally of its choice and leaves
/// the other.
pub proof fn lemma_tally_remove<K>(votes: Map<K, bool>, voter: K)
    requires
        votes.dom().finite(),
        votes.contains_key(voter),
    ensures
        tally(votes, votes[voter]) >= 1,
        tally(votes.remove(voter), votes[voter]) == tally(votes, votes[voter]) - 1,
        tally(votes.remove(voter), !votes[voter]) == tally(votes, !votes[voter]),
{
    let choice = votes[voter];
    lemma_supporters_finite(votes, choice);
    assert(supporters(votes, choice).contains(voter));
    assert(supporters(votes.remove(voter), choice) =~= supporters(votes, choice).remove(voter));
    assert(supporters(votes.remove(voter), !choice) =~= supporters(votes, !choice));
}

/// Every recorded vote is counted once: the two tallies add up to the
/// number of voters who have voted.
pub proof fn lemma_tally_total<K>(votes: Map<K, bool>)
    requires
        votes.dom().finite(),
    ensures
        tally(votes, true) + tally(votes, false) == votes.dom().len(),
{
    let yes = supporters(votes, true);
    let no = supporters(votes, false);
    lemma_supporters_finite(votes, true);
    lemma_supporters_finite(votes, false);
    assert(yes.disjoint(no));
    assert(yes + no =~= votes.dom());
    vstd::set_lib::lemma_set_disjoint_lens(yes, no);
}

} // verus!
