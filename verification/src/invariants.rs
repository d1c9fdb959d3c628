//! Every operation of the engine keeps the ballot state well formed.

use vstd::prelude::*;
use crate::state::BallotState;
use crate::tally::{lemma_tally_empty, lemma_tally_insert_fresh, lemma_tally_remove, lemma_tally_total};

verus! {

/// The two tallies never count more votes than there are voters who have
/// voted: they add up to exactly that number.
pub proof fn lemma_tallies_count_votes(s: BallotState)
    requires
        s.wf(),
    ensures
        s.yays >= 0,
        s.nays >= 0,
        s.yays + s.nays == s.votes.dom().len(),
{
    lemma_tally_total(s.votes);
}

/// Seeing a voter, arming a voter's timer and forgetting it keep the state
/// well formed.
pub proof fn lemma_timers_keep_wf(s: BallotState, id: Seq<char>, now: u128)
    requires
        s.wf(),
    ensures
        s.seen(id).wf(),
        s.barred(id, now).wf(),
        s.pardoned(id).wf(),
{
}

/// A proposal, accepted or refused, keeps the state well formed.
pub proof fn lemma_start_keeps_wf(
    s: BallotState,
    id: Seq<char>,
    category: Seq<char>,
    value: Seq<char>,
    now: u128,
)
    requires
        s.wf(),
    ensures
        s.start(id, category, value, now).wf(),
{
    lemma_timers_keep_wf(s, id, now);
}

/// Closing the session keeps the state well formed.
pub proof fn lemma_stop_keeps_wf(s: BallotState)
    requires
        s.wf(),
    ensures
        s.stopped().wf(),
{
    lemma_tally_empty::<Seq<char>>(true);
    lemma_tally_empty::<Seq<char>>(false);
}

/// Taking a vote back keeps the state well formed, and no tally falls
/// below zero.
pub proof fn lemma_unvote_keeps_wf(s: BallotState, id: Seq<char>)
    requires
        s.wf(),
        s.voting,
    ensures
        s.unvoted(id).wf(),
        s.unvoted(id).yays >= 0,
        s.unvoted(id).nays >= 0,
        !s.unvoted(id).votes.contains_key(id),
{
    if s.votes.contains_key(id) {
        lemma_tally_remove(s.votes, id);
    }
    lemma_tallies_count_votes(s.unvoted(id));
}

/// Voting keeps the state well formed.
pub proof fn lemma_vote_keeps_wf(s: BallotState, id: Seq<char>, vote: bool)
    requires
        s.wf(),
        s.voting,
    ensures
        s.voted(id, vote).wf(),
{
    lemma_unvote_keeps_wf(s, id);
    lemma_tally_insert_fresh(s.unvoted(id).votes, id, vote);
}

/// Setting a voter count that is not negative keeps the state well formed.
pub proof fn lemma_voters_keep_wf(s: BallotState, voters: int)
    requires
        s.wf(),
        voters >= 0,
    ensures
        s.with_voters(voters).wf(),
{
}

} // verus!
