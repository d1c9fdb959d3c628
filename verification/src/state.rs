//! The ballot as a mathematical state, and each operation of the engine as
//! a function from state to state. The engine's contracts and the laws of
//! this crate are stated over these.

use vstd::prelude::*;
use crate::cooldown::Cooldown;
use crate::ratio::Ratio;
use crate::tally::tally;

verus! {

/// Why an operation of the engine was refused.
#[derive(Clone, Copy, Debug, PartialEq, Eq, Structural)]
pub enum VoteError {
    /// The category is not in the nomination catalog.
    Type,
    /// The session is not in the state that the operation needs: already
    /// active, not active, or not yet decided.
    Progress,
    /// The value is not allowed under its category.
    Nomination,
    /// No voter is registered.
    Voters,
    /// A timer is still running; it holds the nanoseconds left on it.
    Cooldown(u128),
}

/// What a resolution decides, with the proposal as sequences of characters.
pub enum Outcome {
    Undecided,
    Yay(Seq<char>, Seq<char>),
    Nay,
}

pub struct BallotState {
    /// A session is open.
    pub voting: bool,
    /// The voting window: while it runs, the session accepts votes.
    pub window: Cooldown,
    /// How many voters are registered.
    pub voters: int,
    pub yays: int,
    pub nays: int,
    /// The vote each voter has cast in this session.
    pub votes: Map<Seq<char>, bool>,
    /// The proposal timer of each voter seen so far.
    pub cooldowns: Map<Seq<char>, Cooldown>,
    /// The span of every voter's proposal timer.
    pub cooldown_duration: u128,
    pub target: Ratio,
    pub nominations: Map<Seq<char>, Set<Seq<char>>>,
    pub proposed: Seq<char>,
    pub category: Seq<char>,
}

/// One for a vote of the given choice, zero for the other.
pub open spec fn weight(vote: bool, choice: bool) -> int {
    if vote == choice {
        1
    } else {
        0
    }
}

impl BallotState {
    /// What holds of the state between any two operations.
    pub open spec fn wf(self) -> bool {
        &&& self.target.wf()
        &&& self.voters >= 0
        &&& self.votes.dom().finite()
        &&& self.yays == tally(self.votes, true)
        &&& self.nays == tally(self.votes, false)
        &&& self.voting ==> self.permits(self.category, self.proposed)
        &&& !self.voting ==> self.votes == Map::<Seq<char>, bool>::empty()
        &&& !self.voting ==> self.window.start == 0
        &&& self.window.duration <= self.cooldown_duration
        &&& forall|id: Seq<char>| #[trigger]
            self.cooldowns.contains_key(id) ==> self.cooldowns[id].duration
                == self.cooldown_duration
    }

    /// Whether `value` may be proposed under `category`.
    pub open spec fn permits(self, category: Seq<char>, value: Seq<char>) -> bool {
        self.nominations.contains_key(category) && self.nominations[category].contains(value)
    }

    /// The voter's proposal timer; one who was never seen has an idle one.
    pub open spec fn timer_of(self, id: Seq<char>) -> Cooldown {
        if self.cooldowns.contains_key(id) {
            self.cooldowns[id]
        } else {
            Cooldown::idle(self.cooldown_duration)
        }
    }

    /// Whether the voter is barred from proposing at `now`. A voter who was
    /// never seen is not.
    pub open spec fn user_in_cooldown(self, id: Seq<char>, now: u128) -> bool {
        self.cooldowns.contains_key(id) && self.cooldowns[id].active_at(now as nat)
    }

    /// Time until the voter may propose again.
    pub open spec fn user_remaining(self, id: Seq<char>, now: u128) -> nat {
        if self.cooldowns.contains_key(id) {
            self.cooldowns[id].remaining_at(now as nat)
        } else {
            0
        }
    }

    /// The state once the voter has been seen: one who had no timer has an
    /// idle one.
    pub open spec fn seen(self, id: Seq<char>) -> BallotState {
        if self.cooldowns.contains_key(id) {
            self
        } else {
            BallotState {
                cooldowns: self.cooldowns.insert(id, Cooldown::idle(self.cooldown_duration)),
                ..self
            }
        }
    }

    /// The state once the voter's timer has been armed at `now`.
    pub open spec fn barred(self, id: Seq<char>, now: u128) -> BallotState {
        BallotState { cooldowns: self.cooldowns.insert(id, self.timer_of(id).armed(now)), ..self }
    }

    /// The state once the voter's timer has been forgotten.
    pub open spec fn pardoned(self, id: Seq<char>) -> BallotState {
        BallotState { cooldowns: self.cooldowns.remove(id), ..self }
    }

    /// Why a proposal made at `now` is refused, if it is. The checks come in
    /// this order: the voter's timer, an open session, the category, the
    /// value.
    pub open spec fn start_error(
        self,
        id: Seq<char>,
        category: Seq<char>,
        value: Seq<char>,
        now: u128,
    ) -> Option<VoteError> {
        if self.user_in_cooldown(id, now) {
            Some(VoteError::Cooldown(self.user_remaining(id, now) as u128))
        } else if self.voting {
            Some(VoteError::Progress)
        } else if !self.nominations.contains_key(category) {
            Some(VoteError::Type)
        } else if !self.nominations[category].contains(value) {
            Some(VoteError::Nomination)
        } else {
            None
        }
    }

    /// The state after a proposal made at `now`. A refused proposal leaves
    /// the voter seen and nothing else changed. An accepted one opens the
    /// session, arms the window and the voter's timer, and casts no vote.
    pub open spec fn start(
        self,
        id: Seq<char>,
        category: Seq<char>,
        value: Seq<char>,
        now: u128,
    ) -> BallotState {
        if self.start_error(id, category, value, now) is Some {
            self.seen(id)
        } else {
            BallotState {
                voting: true,
                window: self.window.armed(now),
                proposed: value,
                category: category,
                ..self.barred(id, now)
            }
        }
    }

    /// The state after the session was closed: no votes, no tallies, the
    /// window cleared. Timers, catalog and voter count stay.
    pub open spec fn stopped(self) -> BallotState {
        BallotState {
            voting: false,
            window: self.window.cleared(),
            yays: 0,
            nays: 0,
            votes: Map::<Seq<char>, bool>::empty(),
            ..self
        }
    }

    /// The state once the voter's vote, if there was one, is taken back.
    pub open spec fn unvoted(self, id: Seq<char>) -> BallotState {
        if self.votes.contains_key(id) {
            BallotState {
                votes: self.votes.remove(id),
                yays: self.yays - weight(self.votes[id], true),
                nays: self.nays - weight(self.votes[id], false),
                ..self
            }
        } else {
            self
        }
    }

    /// The state once the voter has voted: an earlier vote is taken back,
    /// then the new one is recorded and counted.
    pub open spec fn voted(self, id: Seq<char>, vote: bool) -> BallotState {
        BallotState {
            votes: self.unvoted(id).votes.insert(id, vote),
            yays: self.unvoted(id).yays + weight(vote, true),
            nays: self.unvoted(id).nays + weight(vote, false),
            ..self
        }
    }

    /// The state with `voters` registered voters.
    pub open spec fn with_voters(self, voters: int) -> BallotState {
        BallotState { voters: voters, ..self }
    }

    /// The state once a session that `id` has just opened is seeded: the
    /// players are registered as voters and the proposer's yay is cast.
    /// Without an open session nothing changes.
    pub open spec fn seeded(self, id: Seq<char>, players: int) -> BallotState {
        if self.voting {
            self.with_voters(players).voted(id, true)
        } else {
            self
        }
    }

    /// The state after an attempt to resolve at `now` with the window
    /// respected: a session that is decided, undecided by quorum, or left
    /// without voters is closed; any other stays as it is.
    pub open spec fn concluded(self, now: u128, majority: bool) -> BallotState {
        if self.resolution(now, false, majority) is Ok || self.resolution(now, false, majority)
            == Err::<Outcome, VoteError>(VoteError::Voters) {
            self.stopped()
        } else {
            self
        }
    }

    /// Yay votes that a quorum decision asks for: the voters times the
    /// target, rounded up.
    pub open spec fn yay_needed(self) -> int {
        self.target.ceil_of(self.voters)
    }

    /// Nay votes that a quorum decision asks for: the voters that are left,
    /// and one where none is left.
    pub open spec fn nay_needed(self) -> int {
        if self.voters - self.yay_needed() == 0 {
            1
        } else {
            self.voters - self.yay_needed()
        }
    }

    /// The accepted proposal.
    pub open spec fn carried(self) -> Outcome {
        Outcome::Yay(self.category, self.proposed)
    }

    /// What a resolution at `now` gives. The checks come in this order: a
    /// session is open, a voter is registered, the window has closed or is
    /// ignored. Then a majority decision compares the tallies with each
    /// other, and a tie is refused; a quorum decision compares each tally
    /// with what is needed, and is undecided where neither exceeds it.
    pub open spec fn resolution(self, now: u128, ignore_window: bool, majority: bool) -> Result<
        Outcome,
        VoteError,
    > {
        if !self.voting {
            Err(VoteError::Progress)
        } else if self.voters == 0 {
            Err(VoteError::Voters)
        } else if self.window.active_at(now as nat) && !ignore_window {
            Err(VoteError::Cooldown(self.window.remaining_at(now as nat) as u128))
        } else if majority {
            if self.yays > self.nays {
                Ok(self.carried())
            } else if self.nays > self.yays {
                Ok(Outcome::Nay)
            } else {
                Err(VoteError::Progress)
            }
        } else {
            if self.yays > self.yay_needed() {
                Ok(self.carried())
            } else if self.nays > self.nay_needed() {
                Ok(Outcome::Nay)
            } else {
                Ok(Outcome::Undecided)
            }
        }
    }
}

} // verus!
