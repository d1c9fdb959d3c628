//! What holds of the engine across its operations, stated over the ballot
//! state and proved.

use vstd::prelude::*;
use crate::ratio::lemma_ceil_is_least;
use crate::state::{weight, BallotState, Outcome, VoteError};

verus! {

/// With at least one voter, the yay votes needed are the voters times the
/// target, rounded up: the least whole number that is not below the
/// product. The nay votes needed are the voters that are left, and at
/// least one.
pub proof fn lemma_requirements(s: BallotState)
    requires
        s.target.wf(),
        s.voters >= 1,
    ensures
        s.yay_needed() * s.target.den >= s.voters * s.target.num,
        (s.yay_needed() - 1) * s.target.den < s.voters * s.target.num,
        1 <= s.yay_needed() <= s.voters,
        s.nay_needed() == if s.voters - s.yay_needed() >= 1 {
            s.voters - s.yay_needed()
        } else {
            1
        },
{
    lemma_ceil_is_least(s.target, s.voters);
}

/// A second vote of the same voter replaces the first: the state is the one
/// that the second vote alone gives, and against the state after the first
/// vote the tallies move by that voter's own vote and nobody else's.
pub proof fn lemma_revote(s: BallotState, id: Seq<char>, first: bool, second: bool)
    ensures
        s.voted(id, first).voted(id, second) == s.voted(id, second),
        s.voted(id, first).voted(id, second).yays == s.voted(id, first).yays - weight(first, true)
            + weight(second, true),
        s.voted(id, first).voted(id, second).nays == s.voted(id, first).nays - weight(
            first,
            false,
        ) + weight(second, false),
        s.voted(id, first).voted(id, second).votes == s.voted(id, first).votes.insert(id, second),
{
    let once = s.voted(id, first);
    let twice = once.voted(id, second);
    assert(once.unvoted(id).votes =~= s.unvoted(id).votes);
    assert(twice.votes =~= s.voted(id, second).votes);
    assert(twice.votes =~= once.votes.insert(id, second));
}

/// Taking back the vote of a voter who has not voted changes nothing,
/// however often it is done: the session stays open, so that the next
/// attempt succeeds as the first did.
pub proof fn lemma_unvote_absent(s: BallotState, id: Seq<char>)
    requires
        !s.votes.contains_key(id),
    ensures
        s.unvoted(id) == s,
        s.unvoted(id).unvoted(id) == s,
        s.unvoted(id).voting == s.voting,
{
}

/// While a session is open, a proposal by a voter who is not barred is
/// refused as in progress. The proposal, the tallies, the votes and the
/// window stay; the voter is seen, and nothing else changes.
pub proof fn lemma_start_while_active(
    s: BallotState,
    id: Seq<char>,
    category: Seq<char>,
    value: Seq<char>,
    now: u128,
)
    requires
        s.voting,
        !s.user_in_cooldown(id, now),
    ensures
        s.start_error(id, category, value, now) == Some(VoteError::Progress),
        s.start(id, category, value, now) == s.seen(id),
        s.start(id, category, value, now).voting,
        s.start(id, category, value, now).category == s.category,
        s.start(id, category, value, now).proposed == s.proposed,
        s.start(id, category, value, now).yays == s.yays,
        s.start(id, category, value, now).nays == s.nays,
        s.start(id, category, value, now).votes == s.votes,
        s.start(id, category, value, now).window == s.window,
{
}

/// With no session open, a proposal by a voter who is not barred is refused
/// for its category where the catalog does not know it, and for its value
/// where the category does not allow it. No session opens.
pub proof fn lemma_start_unknown(
    s: BallotState,
    id: Seq<char>,
    category: Seq<char>,
    value: Seq<char>,
    now: u128,
)
    requires
        !s.voting,
        !s.user_in_cooldown(id, now),
    ensures
        !s.nominations.contains_key(category) ==> s.start_error(id, category, value, now) == Some(
            VoteError::Type,
        ),
        s.nominations.contains_key(category) && !s.nominations[category].contains(value)
            ==> s.start_error(id, category, value, now) == Some(VoteError::Nomination),
        !s.permits(category, value) ==> !s.start(id, category, value, now).voting,
        s.permits(category, value) <==> s.start_error(id, category, value, now) is None,
{
}

/// A voter whose proposal was accepted at `now` is barred from proposing
/// until the proposal timer has run out: a proposal at `later`, before
/// that, is refused with the time that is left, which is above zero.
pub proof fn lemma_restart_is_barred(
    s: BallotState,
    id: Seq<char>,
    category: Seq<char>,
    value: Seq<char>,
    now: u128,
    again_category: Seq<char>,
    again_value: Seq<char>,
    later: u128,
)
    requires
        s.wf(),
        s.cooldown_duration > 0,
        s.start_error(id, category, value, now) is None,
        now <= later,
        later - now < s.cooldown_duration,
    ensures
        s.start(id, category, value, now).start_error(id, again_category, again_value, later)
            == Some(VoteError::Cooldown((s.cooldown_duration - (later - now)) as u128)),
        s.cooldown_duration - (later - now) > 0,
{
    let opened = s.start(id, category, value, now);
    assert(opened.cooldowns.contains_key(id));
    assert(opened.cooldowns[id] == s.timer_of(id).armed(now));
    assert(s.timer_of(id).duration == s.cooldown_duration);
}

/// With no voter registered, an open session resolves to the error for
/// that, whatever the tallies, the window and the kind of decision.
pub proof fn lemma_resolve_without_voters(
    s: BallotState,
    now: u128,
    ignore_window: bool,
    majority: bool,
)
    requires
        s.voting,
        s.voters == 0,
    ensures
        s.resolution(now, ignore_window, majority) == Err::<Outcome, VoteError>(VoteError::Voters),
{
}

/// Once the window lets a resolution through, a majority decision on equal
/// tallies is refused as in progress, while a quorum decision in which
/// neither tally exceeds what is needed succeeds and is undecided.
pub proof fn lemma_tie_and_deadlock(s: BallotState, now: u128, ignore_window: bool)
    requires
        s.voting,
        s.voters != 0,
        ignore_window || !s.window.active_at(now as nat),
    ensures
        s.yays == s.nays ==> s.resolution(now, ignore_window, true) == Err::<Outcome, VoteError>(
            VoteError::Progress,
        ),
        s.yays <= s.yay_needed() && s.nays <= s.nay_needed() ==> s.resolution(
            now,
            ignore_window,
            false,
        ) == Ok::<Outcome, VoteError>(Outcome::Undecided),
{
}

/// A resolution that succeeds by majority carries the side with strictly
/// more votes; one that succeeds by quorum and decides carries a side whose
/// tally exceeds what is needed.
pub proof fn lemma_resolution_sides(s: BallotState, now: u128, ignore_window: bool, majority: bool)
    ensures
        s.resolution(now, ignore_window, majority) == Ok::<Outcome, VoteError>(s.carried()) ==> {
            &&& s.voting
            &&& s.voters != 0
            &&& if majority {
                s.yays > s.nays
            } else {
                s.yays > s.yay_needed()
            }
        },
        s.resolution(now, ignore_window, majority) == Ok::<Outcome, VoteError>(Outcome::Nay) ==> {
            &&& s.voting
            &&& s.voters != 0
            &&& if majority {
                s.nays > s.yays
            } else {
                s.nays > s.nay_needed() && s.yays <= s.yay_needed()
            }
        },
{
}

/// Closing a session empties the tallies and the votes and keeps every
/// voter's proposal timer, the catalog, the target and the voter count.
pub proof fn lemma_stop_round_trip(s: BallotState)
    ensures
        !s.stopped().voting,
        s.stopped().yays == 0,
        s.stopped().nays == 0,
        s.stopped().votes == Map::<Seq<char>, bool>::empty(),
        s.stopped().cooldowns == s.cooldowns,
        s.stopped().nominations == s.nominations,
        s.stopped().cooldown_duration == s.cooldown_duration,
        s.stopped().target == s.target,
        s.stopped().voters == s.voters,
        s.stopped().window.duration == s.window.duration,
{
}

} // verus!
