//! The ballot engine: one voting session at a time, a proposal timer for
//! each voter, and the resolution of a session by quorum or by majority.
//!
//! Each operation that depends on the time comes twice: once with the
//! instant as an argument, in nanoseconds since the Unix epoch, and once
//! reading the wall clock itself.

use vstd::prelude::*;
use crate::catalog::Catalog;
use crate::clock::now_nanos;
use crate::cooldown::Cooldown;
use crate::invariants::{
    lemma_start_keeps_wf,
    lemma_stop_keeps_wf,
    lemma_timers_keep_wf,
    lemma_unvote_keeps_wf,
    lemma_vote_keeps_wf,
    lemma_voters_keep_wf,
};
use crate::ratio::Ratio;
use crate::registry::Registry;
use crate::state::{BallotState, Outcome};
pub use crate::state::VoteError;

verus! {

/// What a resolution decides.
#[derive(Debug, PartialEq, Eq)]
pub enum VoteResult {
    /// Neither tally exceeds what a quorum decision asks for.
    Undecided,
    /// The proposal is accepted; it holds the category and the value.
    Yay(String, String),
    /// The proposal is turned down.
    Nay,
}

impl View for VoteResult {
    type V = Outcome;

    open spec fn view(&self) -> Outcome {
        match self {
            VoteResult::Undecided => Outcome::Undecided,
            VoteResult::Yay(category, value) => Outcome::Yay(category@, value@),
            VoteResult::Nay => Outcome::Nay,
        }
    }
}

/// The outcome of a call is the one expected, seen through the view.
pub open spec fn agrees(
    got: Result<VoteResult, VoteError>,
    expected: Result<Outcome, VoteError>,
) -> bool {
    match got {
        Ok(result) => expected == Ok::<Outcome, VoteError>(result@),
        Err(error) => expected == Err::<Outcome, VoteError>(error),
    }
}

/// A proposal is refused with `error`, or accepted where there is none.
pub open spec fn refusal(error: Option<VoteError>) -> Result<(), VoteError> {
    match error {
        Some(e) => Err(e),
        None => Ok(()),
    }
}

pub struct Ballot {
    voting: bool,
    voting_duration: Cooldown,
    voters: i8,
    yays: i8,
    nays: i8,
    player_vote: Registry<bool>,
    player_cooldown: Registry<Cooldown>,
    cooldown_duration: u128,
    target: Ratio,
    nominations: Catalog,
    proposed: String,
    category: String,
}

impl View for Ballot {
    type V = BallotState;

    closed spec fn view(&self) -> BallotState {
        BallotState {
            voting: self.voting,
            window: self.voting_duration,
            voters: self.voters as int,
            yays: self.yays as int,
            nays: self.nays as int,
            votes: self.player_vote@,
            cooldowns: self.player_cooldown@,
            cooldown_duration: self.cooldown_duration,
            target: self.target,
            nominations: self.nominations@,
            proposed: self.proposed@,
            category: self.category@,
        }
    }
}

impl Ballot {
    /// The containers of the engine are well formed.
    pub closed spec fn inv(&self) -> bool {
        &&& self.player_vote.wf()
        &&& self.player_cooldown.wf()
        &&& self.nominations.wf()
    }

    /// The engine is well formed: its containers are, its state is, and
    /// its counters fit.
    pub open spec fn wf(&self) -> bool {
        &&& self.inv()
        &&& self@.wf()
        &&& self@.voters <= i8::MAX
        &&& self@.yays <= i8::MAX
        &&& self@.nays <= i8::MAX
    }

    /// An engine with no session open and no voter seen. A voter's proposal
    /// timer runs for the voting window and then for `cooldown_duration`.
    pub fn new(
        voting_duration: u128,
        cooldown_duration: u128,
        target: Ratio,
        nominations: Catalog,
    ) -> (ballot: Ballot)
        requires
            voting_duration + cooldown_duration <= u128::MAX,
            target.wf(),
            nominations.wf(),
        ensures
            ballot.wf(),
            ballot@ == (BallotState {
                voting: false,
                window: Cooldown::idle(voting_duration),
                voters: 0,
                yays: 0,
                nays: 0,
                votes: Map::<Seq<char>, bool>::empty(),
                cooldowns: Map::<Seq<char>, Cooldown>::empty(),
                cooldown_duration: (voting_duration + cooldown_duration) as u128,
                target: target,
                nominations: nominations@,
                proposed: Seq::<char>::empty(),
                category: Seq::<char>::empty(),
            }),
    {
        let ballot = Ballot {
            voting: false,
            voting_duration: Cooldown::new(voting_duration),
            voters: 0,
            yays: 0,
            nays: 0,
            player_vote: Registry::new(),
            player_cooldown: Registry::new(),
            cooldown_duration: cooldown_duration + voting_duration,
            target: target,
            nominations: nominations,
            proposed: String::new(),
            category: String::new(),
        };
        proof {
            crate::tally::lemma_tally_empty::<Seq<char>>(true);
            crate::tally::lemma_tally_empty::<Seq<char>>(false);
        }
        ballot
    }

    fn reset(&mut self)
        requires
            old(self).wf(),
        ensures
            final(self).wf(),
            final(self)@ == old(self)@.stopped(),
    {
        proof {
            lemma_stop_keeps_wf(self@);
        }
        self.voting = false;
        self.yays = 0;
        self.nays = 0;
        self.voting_duration.clear_cooldown();
        self.player_vote.clear();
    }

    /// What a resolution at the instant `now` gives. The session stays as
    /// it is: closing it is the caller's part.
    pub fn get_result_at(&self, ignore_cooldown: bool, majority_result: bool, now: u128) -> (result:
        Result<VoteResult, VoteError>)
        requires
            self.wf(),
        ensures
            agrees(result, self@.resolution(now, ignore_cooldown, majority_result)),
    {
        if !self.voting {
            return Err(VoteError::Progress);
        }
        if self.voters == 0 {
            return Err(VoteError::Voters);
        }
        if self.voting_duration.is_in_cooldown_at(now) && !ignore_cooldown {
            return Err(VoteError::Cooldown(self.voting_duration.get_remaining_time_at(now)));
        }
        let (yay, nay) = self.get_requirements();
        if majority_result {
            if self.yays > self.nays {
                Ok(VoteResult::Yay(self.category.clone(), self.proposed.clone()))
            } else if self.nays > self.yays {
                Ok(VoteResult::Nay)
            } else {
                Err(VoteError::Progress)
            }
        } else {
            if self.yays > yay {
                Ok(VoteResult::Yay(self.category.clone(), self.proposed.clone()))
            } else if self.nays > nay {
                Ok(VoteResult::Nay)
            } else {
                Ok(VoteResult::Undecided)
            }
        }
    }

    /// What a resolution gives by the wall clock: the value of
    /// `get_result_at` at whatever instant the clock gave.
    pub fn get_result(&self, ignore_cooldown: bool, majority_result: bool) -> (result: Result<
        VoteResult,
        VoteError,
    >)
        requires
            self.wf(),
        ensures
            exists|now: u128|
                agrees(result, #[trigger] self@.resolution(now, ignore_cooldown, majority_result)),
    {
        let now: u128 = now_nanos();
        let result = self.get_result_at(ignore_cooldown, majority_result, now);
        assert(agrees(result, self@.resolution(now, ignore_cooldown, majority_result)));
        result
    }

    /// Proposes `proposal` under `category` at the instant `now`.
    pub fn start_voting_at(
        &mut self,
        id: &String,
        category: &String,
        proposal: &String,
        now: u128,
    ) -> (result: Result<(), VoteError>)
        requires
            old(self).wf(),
        ensures
            final(self).wf(),
            result == refusal(old(self)@.start_error(id@, category@, proposal@, now)),
            final(self)@ == old(self)@.start(id@, category@, proposal@, now),
    {
        proof {
            lemma_start_keeps_wf(self@, id@, category@, proposal@, now);
            lemma_timers_keep_wf(self@, id@, now);
        }
        if self.is_user_in_cooldown_at(id, now) {
            return Err(VoteError::Cooldown(self.get_user_cooldown_at(id, now)));
        }
        if self.voting {
            return Err(VoteError::Progress);
        }
        if !self.nominations.contains_key(category) {
            return Err(VoteError::Type);
        }
        if !self.nominations.contains(category, proposal) {
            return Err(VoteError::Nomination);
        }
        self.put_user_in_cooldown_at(id, now);
        self.voting_duration.put_in_cooldown_at(now);
        self.voting = true;
        self.proposed = proposal.clone();
        self.category = category.clone();
        proof {
            assert(final(self)@.cooldowns =~= old(self)@.start(
                id@,
                category@,
                proposal@,
                now,
            ).cooldowns);
        }
        Ok(())
    }

    /// Proposes `proposal` under `category` by the wall clock: what
    /// `start_voting_at` does at whatever instant the clock gave.
    pub fn start_voting(&mut self, id: &String, category: &String, proposal: &String) -> (result:
        Result<(), VoteError>)
        requires
            old(self).wf(),
        ensures
            final(self).wf(),
            exists|now: u128|
                {
                    &&& result == refusal(
                        #[trigger] old(self)@.start_error(id@, category@, proposal@, now),
                    )
                    &&& final(self)@ == old(self)@.start(id@, category@, proposal@, now)
                },
    {
        let now: u128 = now_nanos();
        let result = self.start_voting_at(id, category, proposal, now);
        assert(result == refusal(old(self)@.start_error(id@, category@, proposal@, now)));
        result
    }

    /// Closes the session.
    pub fn stop_voting(&mut self) -> (result: Result<(), VoteError>)
        requires
            old(self).wf(),
        ensures
            final(self).wf(),
            result is Ok <==> old(self)@.voting,
            result is Err ==> result == Err::<(), VoteError>(VoteError::Progress) && final(self)@
                == old(self)@,
            result is Ok ==> final(self)@ == old(self)@.stopped(),
    {
        if !self.voting {
            return Err(VoteError::Progress);
        }
        self.reset();
        Ok(())
    }

    /// Whether the new tallies fit the counters once `id` has voted `vote`.
    pub open spec fn can_count(&self, id: Seq<char>, vote: bool) -> bool {
        self@.voting ==> self@.voted(id, vote).yays <= i8::MAX && self@.voted(id, vote).nays
            <= i8::MAX
    }

    /// Whether the counters have room for the vote `vote` of `id`.
    pub fn has_room(&self, id: &String, vote: bool) -> (room: bool)
        requires
            self.wf(),
        ensures
            room == self.can_count(id@, vote),
    {
        if !self.voting {
            return true;
        }
        proof {
            lemma_unvote_keeps_wf(self@, id@);
        }
        let tally: i8 = if vote {
            self.yays
        } else {
            self.nays
        };
        match self.player_vote.get(id) {
            Some(previous) => previous == vote || tally < i8::MAX,
            None => tally < i8::MAX,
        }
    }

    /// Records the vote of `id`, in place of an earlier one.
    pub fn vote(&mut self, id: &String, vote: bool) -> (result: Result<(), VoteError>)
        requires
            old(self).wf(),
            old(self).can_count(id@, vote),
        ensures
            final(self).wf(),
            result is Ok <==> old(self)@.voting,
            result is Err ==> result == Err::<(), VoteError>(VoteError::Progress) && final(self)@
                == old(self)@,
            result is Ok ==> final(self)@ == old(self)@.voted(id@, vote),
    {
        proof {
            if self@.voting {
                lemma_unvote_keeps_wf(self@, id@);
                lemma_vote_keeps_wf(self@, id@, vote);
            }
        }
        match self.unvote(id) {
            Err(error) => {
                return Err(error);
            },
            Ok(_) => {},
        }
        let _ = self.player_vote.insert(id, vote);
        if vote {
            self.yays += 1;
        } else {
            self.nays += 1;
        }
        Ok(())
    }

    /// Takes the vote of `id` back, if there is one.
    pub fn unvote(&mut self, id: &String) -> (result: Result<(), VoteError>)
        requires
            old(self).wf(),
        ensures
            final(self).wf(),
            result is Ok <==> old(self)@.voting,
            result is Err ==> result == Err::<(), VoteError>(VoteError::Progress) && final(self)@
                == old(self)@,
            result is Ok ==> final(self)@ == old(self)@.unvoted(id@),
    {
        if !self.voting {
            return Err(VoteError::Progress);
        }
        proof {
            lemma_unvote_keeps_wf(self@, id@);
        }
        match self.player_vote.remove(id) {
            Some(value) => {
                if value {
                    self.yays -= 1;
                } else {
                    self.nays -= 1;
                }
            },
            None => {
                assert(final(self)@.votes =~= old(self)@.votes);
            },
        }
        Ok(())
    }

    /// Sets the number of registered voters.
    pub fn set_voters(&mut self, voters: i8) -> (result: Result<(), VoteError>)
        requires
            old(self).wf(),
            voters >= 0,
        ensures
            final(self).wf(),
            result is Ok <==> old(self)@.voting,
            result is Err ==> result == Err::<(), VoteError>(VoteError::Progress) && final(self)@
                == old(self)@,
            result is Ok ==> final(self)@ == old(self)@.with_voters(voters as int),
    {
        if !self.voting {
            return Err(VoteError::Progress);
        }
        proof {
            lemma_voters_keep_wf(self@, voters as int);
        }
        self.voters = voters;
        Ok(())
    }

    /// Registers one voter more.
    pub fn increment_voters(&mut self) -> (result: Result<(), VoteError>)
        requires
            old(self).wf(),
            old(self)@.voting ==> old(self)@.voters < i8::MAX,
        ensures
            final(self).wf(),
            result is Ok <==> old(self)@.voting,
            result is Err ==> result == Err::<(), VoteError>(VoteError::Progress) && final(self)@
                == old(self)@,
            result is Ok ==> final(self)@ == old(self)@.with_voters(old(self)@.voters + 1),
    {
        if !self.voting {
            return Err(VoteError::Progress);
        }
        self.set_voters(self.voters + 1)
    }

    /// Registers one voter less.
    pub fn decrement_voters(&mut self) -> (result: Result<(), VoteError>)
        requires
            old(self).wf(),
            old(self)@.voting ==> old(self)@.voters > 0,
        ensures
            final(self).wf(),
            result is Ok <==> old(self)@.voting,
            result is Err ==> result == Err::<(), VoteError>(VoteError::Progress) && final(self)@
                == old(self)@,
            result is Ok ==> final(self)@ == old(self)@.with_voters(old(self)@.voters - 1),
    {
        if !self.voting {
            return Err(VoteError::Progress);
        }
        self.set_voters(self.voters - 1)
    }

    /// The yay and the nay votes that a quorum decision asks for.
    pub fn get_requirements(&self) -> (needed: (i8, i8))
        requires
            self.wf(),
        ensures
            needed.0 == self@.yay_needed(),
            needed.1 == self@.nay_needed(),
            0 <= needed.0 <= self@.voters,
            needed.0 * self@.target.den >= self@.voters * self@.target.num,
            (needed.0 - 1) * self@.target.den < self@.voters * self@.target.num,
            1 <= needed.1,
            needed.1 == if self@.voters - needed.0 >= 1 {
                self@.voters - needed.0
            } else {
                1
            },
    {
        let voters_yay: i8 = self.target.scale(self.voters);
        let voters_nay: i8 = self.voters - voters_yay;
        (
            voters_yay,
            if voters_nay == 0 {
                1
            } else {
                voters_nay
            },
        )
    }

    /// The yay and the nay tally.
    pub fn get_votes(&self) -> (tallies: (i8, i8))
        ensures
            tallies.0 == self@.yays,
            tallies.1 == self@.nays,
    {
        (self.yays, self.nays)
    }

    /// Whether the voting window is still running at the instant `now`.
    pub fn is_voting_finished_at(&self, now: u128) -> (running: bool)
        ensures
            running == self@.window.active_at(now as nat),
    {
        self.voting_duration.is_in_cooldown_at(now)
    }

    /// Whether the voting window is still running by the wall clock.
    pub fn is_voting_finished(&self) -> (running: bool)
        ensures
            exists|now: nat| running == #[trigger] self@.window.active_at(now),
    {
        let now: u128 = now_nanos();
        let running: bool = self.is_voting_finished_at(now);
        assert(running == self@.window.active_at(now as nat));
        running
    }

    /// Whether `id` is barred from proposing at the instant `now`. A voter
    /// who was never seen gets an idle timer and is not barred.
    pub fn is_user_in_cooldown_at(&mut self, id: &String, now: u128) -> (barred: bool)
        requires
            old(self).wf(),
        ensures
            final(self).wf(),
            barred == old(self)@.user_in_cooldown(id@, now),
            final(self)@ == old(self)@.seen(id@),
    {
        proof {
            lemma_timers_keep_wf(self@, id@, now);
        }
        match self.player_cooldown.get(id) {
            Some(value) => value.is_in_cooldown_at(now),
            None => {
                let _ = self.player_cooldown.insert(id, Cooldown::new(self.cooldown_duration));
                false
            },
        }
    }

    /// Whether `id` is barred from proposing by the wall clock.
    pub fn is_user_in_cooldown(&mut self, id: &String) -> (barred: bool)
        requires
            old(self).wf(),
        ensures
            final(self).wf(),
            final(self)@ == old(self)@.seen(id@),
            exists|now: u128| barred == #[trigger] old(self)@.user_in_cooldown(id@, now),
    {
        let now: u128 = now_nanos();
        let barred: bool = self.is_user_in_cooldown_at(id, now);
        assert(barred == old(self)@.user_in_cooldown(id@, now));
        barred
    }

    /// Nanoseconds until `id` may propose again, at the instant `now`.
    pub fn get_user_cooldown_at(&mut self, id: &String, now: u128) -> (left: u128)
        requires
            old(self).wf(),
        ensures
            *final(self) == *old(self),
            left == old(self)@.user_remaining(id@, now),
    {
        match self.player_cooldown.get(id) {
            Some(value) => value.get_remaining_time_at(now),
            None => 0,
        }
    }

    /// Nanoseconds until `id` may propose again, by the wall clock.
    pub fn get_user_cooldown(&mut self, id: &String) -> (left: u128)
        requires
            old(self).wf(),
        ensures
            *final(self) == *old(self),
            exists|now: u128| left == #[trigger] old(self)@.user_remaining(id@, now),
    {
        let now: u128 = now_nanos();
        let left: u128 = self.get_user_cooldown_at(id, now);
        assert(left == old(self)@.user_remaining(id@, now));
        left
    }

    /// Arms the proposal timer of `id` at the instant `now`.
    pub fn put_user_in_cooldown_at(&mut self, id: &String, now: u128)
        requires
            old(self).wf(),
        ensures
            final(self).wf(),
            final(self)@ == old(self)@.barred(id@, now),
    {
        proof {
            lemma_timers_keep_wf(self@, id@, now);
        }
        let mut timer: Cooldown = match self.player_cooldown.get(id) {
            Some(value) => value,
            None => Cooldown::new(self.cooldown_duration),
        };
        timer.put_in_cooldown_at(now);
        let _ = self.player_cooldown.insert(id, timer);
    }

    /// Arms the proposal timer of `id` by the wall clock.
    pub fn put_user_in_cooldown(&mut self, id: &String)
        requires
            old(self).wf(),
        ensures
            final(self).wf(),
            exists|now: u128| final(self)@ == #[trigger] old(self)@.barred(id@, now),
    {
        let now: u128 = now_nanos();
        self.put_user_in_cooldown_at(id, now);
        assert(final(self)@ == old(self)@.barred(id@, now));
    }

    /// Forgets the proposal timer of `id`.
    pub fn remove_user_cooldown(&mut self, id: &String)
        requires
            old(self).wf(),
        ensures
            final(self).wf(),
            final(self)@ == old(self)@.pardoned(id@),
    {
        proof {
            lemma_timers_keep_wf(self@, id@, 0);
        }
        let _ = self.player_cooldown.remove(id);
    }

    /// The category of the proposal.
    pub fn get_type(&self) -> (category: String)
        ensures
            category@ == self@.category,
    {
        self.category.clone()
    }

    /// Whether a session is open.
    pub fn is_voting(&self) -> (voting: bool)
        ensures
            voting == self@.voting,
    {
        self.voting
    }

    /// The number of registered voters.
    pub fn get_voters(&self) -> (voters: i8)
        ensures
            voters == self@.voters,
    {
        self.voters
    }
}

} // verus!
