//! What the events of the server mean for the ballot: who joins and leaves
//! the electorate, which chat messages propose and which vote, and when a
//! session is closed. The caller talks to the server: it supplies the
//! player count where a session has opened, and announces what these
//! functions return.

use vstd::prelude::*;
use crate::ballot::{refusal, Ballot, VoteResult};
use crate::chat::{choice_of, parse_choice, parse_proposal, proposal_of, PROPOSE_PATTERN, VOTE_PATTERN};
use crate::pattern::{fields_of, regex_captures};
use crate::scanner::Event;
use crate::state::{BallotState, Outcome, VoteError};

verus! {

pub struct System {
    pub ballot: Ballot,
}

/// The tallies of a session beside what a quorum decision asks for: yay
/// votes, yay votes needed, nay votes, nay votes needed.
#[derive(Clone, Copy, Debug, PartialEq, Eq, Structural)]
pub struct Standing {
    pub yays: i8,
    pub yay_needed: i8,
    pub nays: i8,
    pub nay_needed: i8,
}

/// The standing of a ballot state.
pub open spec fn standing_of(s: BallotState) -> (int, int, int, int) {
    (s.yays, s.yay_needed(), s.nays, s.nay_needed())
}

impl Standing {
    pub open spec fn view(&self) -> (int, int, int, int) {
        (self.yays as int, self.yay_needed as int, self.nays as int, self.nay_needed as int)
    }
}

/// What an attempt to resolve hands to the caller: the decision, where
/// there is one.
pub open spec fn verdict(resolution: Result<Outcome, VoteError>) -> Option<Outcome> {
    match resolution {
        Ok(outcome) => Some(outcome),
        Err(_) => None,
    }
}

/// The decision handed out is the one expected, seen through the view.
pub open spec fn announces(got: Option<VoteResult>, expected: Option<Outcome>) -> bool {
    match got {
        Some(result) => expected == Some(result@),
        None => expected is None,
    }
}

impl System {
    pub fn new(ballot: Ballot) -> (system: System)
        ensures
            system.ballot == ballot,
    {
        System { ballot }
    }

    /// Applies an event that changes the electorate: a player who connects
    /// is one voter more, a player who disconnects takes the vote back and
    /// is one voter less. Tells whether the event is a chat message, which
    /// is left to `handle_proposal` and `handle_vote`.
    pub fn handle_event(&mut self, event: &Event) -> (chat: bool)
        requires
            old(self).ballot.wf(),
            old(self).ballot@.voting && event is Connect ==> old(self).ballot@.voters < i8::MAX,
            old(self).ballot@.voting && event is Disconnect ==> old(self).ballot@.voters > 0,
        ensures
            final(self).ballot.wf(),
            chat == (event is Chat),
            final(self).ballot@ == match *event {
                Event::Connect(_, _, _) => if old(self).ballot@.voting {
                    old(self).ballot@.with_voters(old(self).ballot@.voters + 1)
                } else {
                    old(self).ballot@
                },
                Event::Disconnect(_, _, id) => if old(self).ballot@.voting {
                    old(self).ballot@.unvoted(id@).with_voters(old(self).ballot@.voters - 1)
                } else {
                    old(self).ballot@
                },
                _ => old(self).ballot@,
            },
    {
        match event {
            Event::Init(_, _) => false,
            Event::Shutdown(_, _) => false,
            Event::Connect(_, _, _) => {
                let _ = self.ballot.increment_voters();
                false
            },
            Event::Disconnect(_, _, id) => {
                let _ = self.ballot.unvote(id);
                let _ = self.ballot.decrement_voters();
                false
            },
            Event::Chat(_, _, _, _, _) => true,
        }
    }

    /// Tries to resolve the session at the instant `now`, with the window
    /// respected, and closes it where it is resolved or has no voters.
    /// Hands back the decision, where there is one.
    pub fn check_vote_result(&mut self, majority_result: bool, now: u128) -> (resolved: Option<
        VoteResult,
    >)
        requires
            old(self).ballot.wf(),
        ensures
            final(self).ballot.wf(),
            announces(resolved, verdict(old(self).ballot@.resolution(now, false, majority_result))),
            final(self).ballot@ == old(self).ballot@.concluded(now, majority_result),
    {
        match self.ballot.get_result_at(false, majority_result, now) {
            Ok(result) => {
                let _ = self.ballot.stop_voting();
                Some(result)
            },
            Err(error) => {
                match error {
                    VoteError::Voters => {
                        let _ = self.ballot.stop_voting();
                    },
                    _ => {},
                }
                None
            },
        }
    }

    /// Makes the proposal that a chat message was read as, at the instant
    /// `now`. Where the message is no proposal, nothing happens.
    pub fn propose(&mut self, id: &String, proposal: Option<(String, String)>, now: u128) -> (step:
        Option<Result<(), VoteError>>)
        requires
            old(self).ballot.wf(),
        ensures
            final(self).ballot.wf(),
            match proposal {
                Some((category, value)) => {
                    &&& step == Some(
                        refusal(old(self).ballot@.start_error(id@, category@, value@, now)),
                    )
                    &&& final(self).ballot@ == old(self).ballot@.start(
                        id@,
                        category@,
                        value@,
                        now,
                    )
                },
                None => step is None && final(self).ballot@ == old(self).ballot@,
            },
    {
        match proposal {
            Some((category, value)) => Some(self.ballot.start_voting_at(id, &category, &value, now)),
            None => None,
        }
    }

    /// Reads `message` as a proposal and makes it at the instant `now`.
    pub fn handle_proposal(&mut self, id: &String, message: &str, now: u128) -> (step: Option<
        Result<(), VoteError>,
    >)
        requires
            old(self).ballot.wf(),
        ensures
            final(self).ballot.wf(),
            match proposal_of(fields_of(regex_captures(PROPOSE_PATTERN@, message@), 2)) {
                Some((category, value)) => {
                    &&& step == Some(
                        refusal(old(self).ballot@.start_error(id@, category, value, now)),
                    )
                    &&& final(self).ballot@ == old(self).ballot@.start(id@, category, value, now)
                },
                None => step is None && final(self).ballot@ == old(self).ballot@,
            },
    {
        let proposal = parse_proposal(message);
        self.propose(id, proposal, now)
    }

    /// Seeds a session that `id` has just opened: registers `players`
    /// voters, casts the proposer's yay, and tries to resolve by quorum.
    /// Hands back what the quorum asks for, and the decision if there is
    /// one.
    pub fn seed(&mut self, id: &String, players: i8, now: u128) -> (seeded: (
        (i8, i8),
        Option<VoteResult>,
    ))
        requires
            old(self).ballot.wf(),
            old(self).ballot.can_count(id@, true),
            players >= 0,
        ensures
            final(self).ballot.wf(),
            seeded.0.0 == old(self).ballot@.seeded(id@, players as int).yay_needed(),
            seeded.0.1 == old(self).ballot@.seeded(id@, players as int).nay_needed(),
            announces(
                seeded.1,
                verdict(old(self).ballot@.seeded(id@, players as int).resolution(now, false, false)),
            ),
            final(self).ballot@ == old(self).ballot@.seeded(id@, players as int).concluded(
                now,
                false,
            ),
    {
        let _ = self.ballot.set_voters(players);
        let needed = self.ballot.get_requirements();
        let _ = self.ballot.vote(id, true);
        let resolved = self.check_vote_result(false, now);
        (needed, resolved)
    }

    /// Casts the vote that a chat message was read as, then tries to
    /// resolve by quorum at the instant `now`. Hands back the standing
    /// after the vote and the decision if there is one; nothing where the
    /// message is no vote or no session is open.
    pub fn cast(&mut self, id: &String, choice: Option<bool>, now: u128) -> (cast: Option<
        (Standing, Option<VoteResult>),
    >)
        requires
            old(self).ballot.wf(),
            old(self).ballot.can_count(id@, true),
            old(self).ballot.can_count(id@, false),
        ensures
            final(self).ballot.wf(),
            cast is Some <==> choice is Some && old(self).ballot@.voting,
            cast is None ==> final(self).ballot@ == old(self).ballot@,
            cast is Some ==> {
                let voted = old(self).ballot@.voted(id@, choice->Some_0);
                &&& cast->Some_0.0@ == standing_of(voted)
                &&& announces(cast->Some_0.1, verdict(voted.resolution(now, false, false)))
                &&& final(self).ballot@ == voted.concluded(now, false)
            },
    {
        let vote = match choice {
            Some(vote) => vote,
            None => {
                return None;
            },
        };
        match self.ballot.vote(id, vote) {
            Ok(_) => {
                let (yays, nays) = self.ballot.get_votes();
                let (yay_needed, nay_needed) = self.ballot.get_requirements();
                let resolved = self.check_vote_result(false, now);
                Some((Standing { yays, yay_needed, nays, nay_needed }, resolved))
            },
            Err(_) => None,
        }
    }

    /// Reads `message` as a vote and casts it at the instant `now`.
    pub fn handle_vote(&mut self, id: &String, message: &str, now: u128) -> (cast: Option<
        (Standing, Option<VoteResult>),
    >)
        requires
            old(self).ballot.wf(),
            old(self).ballot.can_count(id@, true),
            old(self).ballot.can_count(id@, false),
        ensures
            final(self).ballot.wf(),
            cast is Some <==> choice_of(fields_of(regex_captures(VOTE_PATTERN@, message@), 1))
                is Some && old(self).ballot@.voting,
            cast is None ==> final(self).ballot@ == old(self).ballot@,
            cast is Some ==> {
                let voted = old(self).ballot@.voted(
                    id@,
                    choice_of(fields_of(regex_captures(VOTE_PATTERN@, message@), 1))->Some_0,
                );
                &&& cast->Some_0.0@ == standing_of(voted)
                &&& announces(cast->Some_0.1, verdict(voted.resolution(now, false, false)))
                &&& final(self).ballot@ == voted.concluded(now, false)
            },
    {
        let choice = parse_choice(message);
        self.cast(id, choice, now)
    }
}

} // verus!
