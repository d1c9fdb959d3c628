use democracy::ballot::{Ballot, VoteError, VoteResult};
use democracy::catalog::Catalog;
use democracy::ratio::Ratio;

const SECOND: u128 = 1_000_000_000;
const T0: u128 = 1_700_000_000 * SECOND;

fn s(text: &str) -> String {
    text.to_string()
}

fn catalog() -> Catalog {
    let mut catalog = Catalog::new();
    catalog.insert(&s("map"), &s("mb2_dotf"));
    catalog.insert(&s("map"), &s("mb2_smuggler"));
    for mode in ["0", "1", "2", "3", "4"] {
        catalog.insert(&s("mode"), &s(mode));
    }
    catalog
}

fn engine() -> Ballot {
    Ballot::new(30 * SECOND, 60 * SECOND, Ratio::new(6, 10).unwrap(), catalog())
}

fn open_session(voters: i8) -> Ballot {
    let mut ballot = engine();
    assert_eq!(ballot.start_voting_at(&s("1"), &s("map"), &s("mb2_dotf"), T0), Ok(()));
    assert_eq!(ballot.set_voters(voters), Ok(()));
    ballot
}

#[test]
fn new_engine_is_idle() {
    let mut ballot = engine();
    assert!(!ballot.is_voting());
    assert_eq!(ballot.get_voters(), 0);
    assert_eq!(ballot.get_votes(), (0, 0));
    assert_eq!(ballot.get_type(), "");
    assert!(!ballot.is_voting_finished_at(T0));
    assert_eq!(ballot.get_user_cooldown_at(&s("1"), T0), 0);
}

#[test]
fn requirements_for_five_voters() {
    let ballot = open_session(5);
    assert_eq!(ballot.get_requirements(), (3, 2));
}

#[test]
fn requirements_for_one_voter_force_one_nay() {
    let ballot = open_session(1);
    assert_eq!(ballot.get_requirements(), (1, 1));
}

#[test]
fn requirements_for_other_counts() {
    assert_eq!(open_session(0).get_requirements(), (0, 1));
    assert_eq!(open_session(2).get_requirements(), (2, 1));
    assert_eq!(open_session(10).get_requirements(), (6, 4));
    assert_eq!(open_session(127).get_requirements(), (77, 50));
    let mut unanimous = Ballot::new(SECOND, SECOND, Ratio::new(1, 1).unwrap(), catalog());
    assert_eq!(unanimous.start_voting_at(&s("1"), &s("mode"), &s("2"), T0), Ok(()));
    assert_eq!(unanimous.set_voters(8), Ok(()));
    assert_eq!(unanimous.get_requirements(), (8, 1));
}

#[test]
fn start_opens_a_session_without_a_vote() {
    let mut ballot = engine();
    assert_eq!(ballot.start_voting_at(&s("4"), &s("mode"), &s("3"), T0), Ok(()));
    assert!(ballot.is_voting());
    assert_eq!(ballot.get_type(), "mode");
    assert_eq!(ballot.get_votes(), (0, 0));
    assert!(ballot.is_voting_finished_at(T0));
    assert!(ballot.is_voting_finished_at(T0 + 30 * SECOND - 1));
    assert!(!ballot.is_voting_finished_at(T0 + 30 * SECOND));
}

#[test]
fn revote_moves_one_vote_only() {
    let mut ballot = open_session(5);
    assert_eq!(ballot.vote(&s("2"), true), Ok(()));
    assert_eq!(ballot.vote(&s("3"), true), Ok(()));
    assert_eq!(ballot.get_votes(), (2, 0));
    assert_eq!(ballot.vote(&s("3"), false), Ok(()));
    assert_eq!(ballot.get_votes(), (1, 1));
    assert_eq!(ballot.vote(&s("3"), false), Ok(()));
    assert_eq!(ballot.get_votes(), (1, 1));
    assert_eq!(ballot.vote(&s("3"), true), Ok(()));
    assert_eq!(ballot.get_votes(), (2, 0));
}

#[test]
fn unvote_takes_the_vote_back() {
    let mut ballot = open_session(5);
    assert_eq!(ballot.vote(&s("2"), true), Ok(()));
    assert_eq!(ballot.vote(&s("3"), false), Ok(()));
    assert_eq!(ballot.unvote(&s("2")), Ok(()));
    assert_eq!(ballot.get_votes(), (0, 1));
    assert_eq!(ballot.unvote(&s("3")), Ok(()));
    assert_eq!(ballot.get_votes(), (0, 0));
}

#[test]
fn unvote_of_a_voter_who_never_voted_succeeds_twice() {
    let mut ballot = open_session(5);
    assert_eq!(ballot.vote(&s("2"), true), Ok(()));
    assert_eq!(ballot.unvote(&s("9")), Ok(()));
    assert_eq!(ballot.get_votes(), (1, 0));
    assert_eq!(ballot.unvote(&s("9")), Ok(()));
    assert_eq!(ballot.get_votes(), (1, 0));
}

#[test]
fn operations_on_an_idle_engine_are_refused() {
    let mut ballot = engine();
    assert_eq!(ballot.stop_voting(), Err(VoteError::Progress));
    assert_eq!(ballot.vote(&s("1"), true), Err(VoteError::Progress));
    assert_eq!(ballot.unvote(&s("1")), Err(VoteError::Progress));
    assert_eq!(ballot.set_voters(3), Err(VoteError::Progress));
    assert_eq!(ballot.increment_voters(), Err(VoteError::Progress));
    assert_eq!(ballot.decrement_voters(), Err(VoteError::Progress));
    assert_eq!(ballot.get_result_at(true, true, T0), Err(VoteError::Progress));
    assert_eq!(ballot.get_result_at(false, false, T0), Err(VoteError::Progress));
    assert_eq!(ballot.get_votes(), (0, 0));
    assert_eq!(ballot.get_voters(), 0);
}

#[test]
fn voter_count_follows_connects_and_disconnects() {
    let mut ballot = open_session(3);
    assert_eq!(ballot.increment_voters(), Ok(()));
    assert_eq!(ballot.get_voters(), 4);
    assert_eq!(ballot.decrement_voters(), Ok(()));
    assert_eq!(ballot.decrement_voters(), Ok(()));
    assert_eq!(ballot.get_voters(), 2);
    assert_eq!(ballot.set_voters(0), Ok(()));
    assert_eq!(ballot.get_voters(), 0);
}

#[test]
fn start_while_active_is_in_progress_and_changes_nothing() {
    let mut ballot = open_session(5);
    assert_eq!(ballot.vote(&s("2"), true), Ok(()));
    assert_eq!(
        ballot.start_voting_at(&s("2"), &s("mode"), &s("3"), T0 + SECOND),
        Err(VoteError::Progress)
    );
    assert!(ballot.is_voting());
    assert_eq!(ballot.get_type(), "map");
    assert_eq!(ballot.get_votes(), (1, 0));
    assert_eq!(ballot.get_voters(), 5);
    assert_eq!(
        ballot.get_result_at(true, true, T0),
        Ok(VoteResult::Yay(s("map"), s("mb2_dotf")))
    );
    assert_eq!(ballot.get_user_cooldown_at(&s("2"), T0 + SECOND), 0);
}

#[test]
fn start_with_unknown_category_is_a_type_error() {
    let mut ballot = engine();
    assert_eq!(
        ballot.start_voting_at(&s("1"), &s("kick"), &s("mb2_dotf"), T0),
        Err(VoteError::Type)
    );
    assert!(!ballot.is_voting());
    assert_eq!(ballot.get_user_cooldown_at(&s("1"), T0), 0);
}

#[test]
fn start_with_unknown_value_is_a_nomination_error() {
    let mut ballot = engine();
    assert_eq!(
        ballot.start_voting_at(&s("1"), &s("map"), &s("3"), T0),
        Err(VoteError::Nomination)
    );
    assert_eq!(
        ballot.start_voting_at(&s("1"), &s("mode"), &s("5"), T0),
        Err(VoteError::Nomination)
    );
    assert!(!ballot.is_voting());
    assert_eq!(ballot.start_voting_at(&s("1"), &s("mode"), &s("4"), T0), Ok(()));
}

#[test]
fn proposer_is_barred_right_after_proposing() {
    let mut ballot = engine();
    assert_eq!(ballot.start_voting_at(&s("1"), &s("map"), &s("mb2_dotf"), T0), Ok(()));
    assert_eq!(
        ballot.start_voting_at(&s("1"), &s("map"), &s("mb2_smuggler"), T0),
        Err(VoteError::Cooldown(90 * SECOND))
    );
    assert_eq!(
        ballot.start_voting_at(&s("1"), &s("kick"), &s("x"), T0 + 20 * SECOND),
        Err(VoteError::Cooldown(70 * SECOND))
    );
    assert!(ballot.is_user_in_cooldown_at(&s("1"), T0 + 90 * SECOND - 1));
    assert!(!ballot.is_user_in_cooldown_at(&s("1"), T0 + 90 * SECOND));
    assert_eq!(ballot.get_user_cooldown_at(&s("1"), T0 + 89 * SECOND), SECOND);
}

#[test]
fn proposer_stays_barred_after_the_session_closed() {
    let mut ballot = engine();
    assert_eq!(ballot.start_voting_at(&s("1"), &s("map"), &s("mb2_dotf"), T0), Ok(()));
    assert_eq!(ballot.stop_voting(), Ok(()));
    assert_eq!(
        ballot.start_voting_at(&s("1"), &s("map"), &s("mb2_dotf"), T0 + 40 * SECOND),
        Err(VoteError::Cooldown(50 * SECOND))
    );
    assert_eq!(
        ballot.start_voting_at(&s("2"), &s("map"), &s("mb2_dotf"), T0 + 40 * SECOND),
        Ok(())
    );
    assert_eq!(ballot.stop_voting(), Ok(()));
    assert_eq!(
        ballot.start_voting_at(&s("1"), &s("mode"), &s("1"), T0 + 90 * SECOND),
        Ok(())
    );
}

#[test]
fn removed_cooldown_lets_the_proposer_propose_again() {
    let mut ballot = engine();
    assert_eq!(ballot.start_voting_at(&s("1"), &s("map"), &s("mb2_dotf"), T0), Ok(()));
    assert_eq!(ballot.stop_voting(), Ok(()));
    ballot.remove_user_cooldown(&s("1"));
    assert!(!ballot.is_user_in_cooldown_at(&s("1"), T0));
    assert_eq!(ballot.start_voting_at(&s("1"), &s("map"), &s("mb2_dotf"), T0 + 1), Ok(()));
}

#[test]
fn put_user_in_cooldown_bars_a_voter() {
    let mut ballot = engine();
    ballot.put_user_in_cooldown_at(&s("6"), T0);
    assert!(ballot.is_user_in_cooldown_at(&s("6"), T0 + SECOND));
    assert_eq!(ballot.get_user_cooldown_at(&s("6"), T0 + SECOND), 89 * SECOND);
    assert_eq!(
        ballot.start_voting_at(&s("6"), &s("map"), &s("mb2_dotf"), T0 + SECOND),
        Err(VoteError::Cooldown(89 * SECOND))
    );
    assert!(!ballot.is_user_in_cooldown_at(&s("7"), T0 + SECOND));
}

#[test]
fn resolve_without_voters_is_a_voters_error() {
    let mut ballot = open_session(0);
    assert_eq!(ballot.get_result_at(false, false, T0), Err(VoteError::Voters));
    assert_eq!(ballot.get_result_at(true, true, T0 + 60 * SECOND), Err(VoteError::Voters));
    assert_eq!(ballot.vote(&s("2"), true), Ok(()));
    assert_eq!(ballot.vote(&s("3"), true), Ok(()));
    assert_eq!(ballot.get_result_at(true, false, T0 + 60 * SECOND), Err(VoteError::Voters));
    assert_eq!(ballot.get_result_at(true, true, T0 + 60 * SECOND), Err(VoteError::Voters));
}

#[test]
fn resolve_while_the_window_runs_is_a_cooldown_error() {
    let mut ballot = open_session(5);
    assert_eq!(ballot.vote(&s("2"), true), Ok(()));
    assert_eq!(
        ballot.get_result_at(false, true, T0 + 10 * SECOND),
        Err(VoteError::Cooldown(20 * SECOND))
    );
    assert_eq!(
        ballot.get_result_at(false, false, T0),
        Err(VoteError::Cooldown(30 * SECOND))
    );
    assert_eq!(
        ballot.get_result_at(true, true, T0 + 10 * SECOND),
        Ok(VoteResult::Yay(s("map"), s("mb2_dotf")))
    );
    assert_eq!(
        ballot.get_result_at(false, true, T0 + 30 * SECOND),
        Ok(VoteResult::Yay(s("map"), s("mb2_dotf")))
    );
}

#[test]
fn majority_tie_is_in_progress_but_quorum_deadlock_is_undecided() {
    let mut ballot = open_session(5);
    assert_eq!(ballot.get_result_at(true, true, T0), Err(VoteError::Progress));
    assert_eq!(ballot.get_result_at(true, false, T0), Ok(VoteResult::Undecided));
    assert_eq!(ballot.vote(&s("2"), true), Ok(()));
    assert_eq!(ballot.vote(&s("3"), false), Ok(()));
    assert_eq!(ballot.get_result_at(true, true, T0), Err(VoteError::Progress));
    assert_eq!(ballot.get_result_at(true, false, T0), Ok(VoteResult::Undecided));
}

#[test]
fn majority_takes_the_larger_side() {
    let mut ballot = open_session(5);
    assert_eq!(ballot.vote(&s("2"), false), Ok(()));
    assert_eq!(ballot.get_result_at(true, true, T0), Ok(VoteResult::Nay));
    assert_eq!(ballot.vote(&s("3"), true), Ok(()));
    assert_eq!(ballot.vote(&s("4"), true), Ok(()));
    assert_eq!(
        ballot.get_result_at(true, true, T0),
        Ok(VoteResult::Yay(s("map"), s("mb2_dotf")))
    );
}

#[test]
fn quorum_needs_a_tally_above_the_requirement() {
    let mut ballot = open_session(5);
    for id in ["1", "2", "3"] {
        assert_eq!(ballot.vote(&s(id), true), Ok(()));
    }
    assert_eq!(ballot.get_votes(), (3, 0));
    assert_eq!(ballot.get_result_at(true, false, T0), Ok(VoteResult::Undecided));
    assert_eq!(ballot.vote(&s("4"), true), Ok(()));
    assert_eq!(
        ballot.get_result_at(true, false, T0),
        Ok(VoteResult::Yay(s("map"), s("mb2_dotf")))
    );
    for id in ["1", "2", "3"] {
        assert_eq!(ballot.vote(&s(id), false), Ok(()));
    }
    assert_eq!(ballot.get_votes(), (1, 3));
    assert_eq!(ballot.get_result_at(true, false, T0), Ok(VoteResult::Nay));
    assert_eq!(ballot.unvote(&s("1")), Ok(()));
    assert_eq!(ballot.get_result_at(true, false, T0), Ok(VoteResult::Undecided));
}

#[test]
fn resolution_leaves_the_session_open() {
    let mut ballot = open_session(1);
    assert_eq!(ballot.vote(&s("1"), true), Ok(()));
    assert_eq!(
        ballot.get_result_at(true, true, T0),
        Ok(VoteResult::Yay(s("map"), s("mb2_dotf")))
    );
    assert!(ballot.is_voting());
    assert_eq!(ballot.get_votes(), (1, 0));
}

#[test]
fn stop_clears_the_session_and_keeps_timers_and_catalog() {
    let mut ballot = open_session(5);
    assert_eq!(ballot.vote(&s("1"), true), Ok(()));
    assert_eq!(ballot.vote(&s("2"), false), Ok(()));
    assert_eq!(ballot.get_result_at(true, false, T0), Ok(VoteResult::Undecided));
    assert_eq!(ballot.stop_voting(), Ok(()));
    assert!(!ballot.is_voting());
    assert_eq!(ballot.get_votes(), (0, 0));
    assert!(!ballot.is_voting_finished_at(T0));
    assert_eq!(ballot.get_user_cooldown_at(&s("1"), T0 + SECOND), 89 * SECOND);
    assert_eq!(ballot.stop_voting(), Err(VoteError::Progress));
    assert_eq!(
        ballot.start_voting_at(&s("2"), &s("kick"), &s("x"), T0 + SECOND),
        Err(VoteError::Type)
    );
    assert_eq!(
        ballot.start_voting_at(&s("2"), &s("map"), &s("mb2_smuggler"), T0 + SECOND),
        Ok(())
    );
    assert_eq!(ballot.get_votes(), (0, 0));
    assert_eq!(ballot.vote(&s("2"), false), Ok(()));
    assert_eq!(ballot.get_votes(), (0, 1));
}

#[test]
fn wall_clock_session() {
    let mut ballot = engine();
    assert!(!ballot.is_user_in_cooldown(&s("1")));
    assert_eq!(ballot.get_user_cooldown(&s("1")), 0);
    assert_eq!(ballot.start_voting(&s("1"), &s("map"), &s("mb2_dotf")), Ok(()));
    assert!(ballot.is_voting_finished());
    assert!(ballot.is_user_in_cooldown(&s("1")));
    let left = ballot.get_user_cooldown(&s("1"));
    assert!(left > 0 && left <= 90 * SECOND);
    assert!(matches!(
        ballot.start_voting(&s("1"), &s("map"), &s("mb2_dotf")),
        Err(VoteError::Cooldown(left)) if left > 0
    ));
    assert_eq!(ballot.start_voting(&s("2"), &s("map"), &s("mb2_dotf")), Err(VoteError::Progress));
    assert_eq!(ballot.set_voters(2), Ok(()));
    assert_eq!(ballot.vote(&s("1"), true), Ok(()));
    assert!(matches!(ballot.get_result(false, true), Err(VoteError::Cooldown(left)) if left > 0));
    assert_eq!(ballot.get_result(true, true), Ok(VoteResult::Yay(s("map"), s("mb2_dotf"))));
    ballot.put_user_in_cooldown(&s("5"));
    assert!(ballot.is_user_in_cooldown(&s("5")));
}

#[test]
fn counters_have_room_below_their_limit() {
    let mut ballot = open_session(5);
    assert!(engine().has_room(&s("1"), true));
    for voter in 0..127 {
        let id = format!("{}", voter);
        assert!(ballot.has_room(&id, true));
        assert_eq!(ballot.vote(&id, true), Ok(()));
    }
    assert_eq!(ballot.get_votes(), (127, 0));
    assert!(!ballot.has_room(&s("new"), true));
    assert!(ballot.has_room(&s("new"), false));
    assert!(ballot.has_room(&s("5"), true));
    assert!(ballot.has_room(&s("5"), false));
    assert_eq!(ballot.vote(&s("5"), false), Ok(()));
    assert_eq!(ballot.get_votes(), (126, 1));
}
