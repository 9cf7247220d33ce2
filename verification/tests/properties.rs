//! Exercises of the library's stated properties on concrete values.

use community_voting::{Error, Event, Pallet, VoteChoice, VoteResult, VoteTally, VotingPeriod};

// A round opened at height 1 with duration 5 spans heights 1 through 6.
#[test]
fn open_stores_the_window() {
    let mut pallet = Pallet::new();
    assert!(pallet.start_voting(Some(1), 1, 5, 1).is_ok());
    assert_eq!(
        pallet.voting_period(1),
        Some(VotingPeriod { start_block: 1, end_block: 6 })
    );
}

// A proposal that was never opened has no window, an all-zero tally, and
// refuses both voting and resolving with the missing-window error.
#[test]
fn unopened_proposal_reads_empty_and_rejects() {
    let mut pallet = Pallet::new();
    assert_eq!(pallet.voting_period(7), None);
    assert_eq!(
        pallet.vote_counts(7),
        VoteTally { yes_votes: 0, no_votes: 0, abstain_votes: 0 }
    );
    assert!(!pallet.has_voted(7, 1));
    assert_eq!(pallet.cast_vote(Some(1), 7, 0, 1), Err(Error::ProposalDoesNotExist));
    assert_eq!(pallet.end_voting(Some(1), 7, 1), Err(Error::ProposalDoesNotExist));
}

// A vote before the window's start height is refused as outside the window.
#[test]
fn vote_before_window_start_rejected() {
    let mut pallet = Pallet::new();
    assert!(pallet.start_voting(Some(1), 1, 5, 4).is_ok());
    assert_eq!(pallet.cast_vote(Some(2), 1, 0, 3), Err(Error::VotingPeriodEnded));
}

// The one-block grace gap: at the end height itself votes still land and
// resolution is refused; one block later it is the other way around.
#[test]
fn grace_gap_between_last_vote_and_resolution() {
    let mut pallet = Pallet::new();
    assert!(pallet.start_voting(Some(1), 1, 5, 1).is_ok()); // window 1..=6
    assert!(pallet.cast_vote(Some(2), 1, 0, 6).is_ok());
    assert_eq!(pallet.end_voting(Some(3), 1, 6), Err(Error::VotingPeriodNotStarted));
    assert_eq!(pallet.cast_vote(Some(4), 1, 0, 7), Err(Error::VotingPeriodEnded));
    assert_eq!(
        pallet.end_voting(Some(3), 1, 7),
        Ok(Event::VotingPeriodEnded { proposal_id: 1, result: 0 })
    );
}

// Each accepted vote raises exactly its own counter: the counters hold the
// exact number of accepted votes, option by option.
#[test]
fn tally_counts_each_accepted_vote_once() {
    let mut pallet = Pallet::new();
    assert!(pallet.start_voting(Some(1), 1, 10, 1).is_ok());
    assert!(pallet.cast_vote(Some(2), 1, 0, 1).is_ok());
    assert!(pallet.cast_vote(Some(3), 1, 1, 2).is_ok());
    assert!(pallet.cast_vote(Some(4), 1, 2, 3).is_ok());
    assert!(pallet.cast_vote(Some(5), 1, 0, 4).is_ok());
    assert_eq!(
        pallet.vote_counts(1),
        VoteTally { yes_votes: 2, no_votes: 1, abstain_votes: 1 }
    );
    // A rejected vote changes no counter
    assert_eq!(pallet.cast_vote(Some(2), 1, 1, 5), Err(Error::AlreadyVoted));
    assert_eq!(
        pallet.vote_counts(1),
        VoteTally { yes_votes: 2, no_votes: 1, abstain_votes: 1 }
    );
}

// A second attempt by the same pair fails whatever the new choice.
#[test]
fn second_vote_rejected_for_every_choice() {
    let mut pallet = Pallet::new();
    assert!(pallet.start_voting(Some(1), 1, 10, 1).is_ok());
    assert!(pallet.cast_vote(Some(2), 1, 2, 1).is_ok());
    assert_eq!(pallet.cast_vote(Some(2), 1, 0, 2), Err(Error::AlreadyVoted));
    assert_eq!(pallet.cast_vote(Some(2), 1, 1, 2), Err(Error::AlreadyVoted));
    assert_eq!(pallet.cast_vote(Some(2), 1, 2, 2), Err(Error::AlreadyVoted));
}

// Re-opening an already-open proposal id replaces its window and zeroes its
// tally; the old vote records remain stored, no longer affect the reset
// tally, and still block their voters from voting again.
#[test]
fn reopen_resets_tally_and_keeps_records() {
    let mut pallet = Pallet::new();
    assert!(pallet.start_voting(Some(1), 1, 5, 1).is_ok());
    assert!(pallet.cast_vote(Some(2), 1, 0, 2).is_ok());
    assert!(pallet.cast_vote(Some(3), 1, 1, 2).is_ok());

    // Re-open the same proposal id with a new window
    assert!(pallet.start_voting(Some(9), 1, 20, 10).is_ok());
    assert_eq!(
        pallet.voting_period(1),
        Some(VotingPeriod { start_block: 10, end_block: 30 })
    );
    assert_eq!(
        pallet.vote_counts(1),
        VoteTally { yes_votes: 0, no_votes: 0, abstain_votes: 0 }
    );

    // The stale records are still stored and still block their voters
    assert!(pallet.has_voted(1, 2));
    assert!(pallet.has_voted(1, 3));
    assert_eq!(pallet.cast_vote(Some(2), 1, 1, 11), Err(Error::AlreadyVoted));

    // A fresh voter participates in the new round alone
    assert!(pallet.cast_vote(Some(4), 1, 1, 11).is_ok());
    assert_eq!(
        pallet.vote_counts(1),
        VoteTally { yes_votes: 0, no_votes: 1, abstain_votes: 0 }
    );
    assert_eq!(
        pallet.end_voting(Some(9), 1, 31),
        Ok(Event::VotingPeriodEnded { proposal_id: 1, result: 1 })
    );
}

// A window opened near the clock's ceiling saturates instead of wrapping.
#[test]
fn window_end_saturates_at_clock_ceiling() {
    let mut pallet = Pallet::new();
    let start = u64::MAX - 1;
    assert!(pallet.start_voting(Some(1), 1, 5, start).is_ok());
    assert_eq!(
        pallet.voting_period(1),
        Some(VotingPeriod { start_block: start, end_block: u64::MAX })
    );
    // Such a window never closes, so resolution is never permitted
    assert!(pallet.cast_vote(Some(2), 1, 0, u64::MAX).is_ok());
    assert_eq!(
        pallet.end_voting(Some(1), 1, u64::MAX),
        Err(Error::VotingPeriodNotStarted)
    );
}

// A zero-duration window spans exactly its opening height and resolves with
// no quorum one block later (the worked example with proposal 2).
#[test]
fn zero_duration_window_closes_immediately() {
    let mut pallet = Pallet::new();
    assert!(pallet.start_voting(Some(1), 2, 0, 1).is_ok());
    assert_eq!(
        pallet.voting_period(2),
        Some(VotingPeriod { start_block: 1, end_block: 1 })
    );
    assert_eq!(pallet.cast_vote(Some(2), 2, 0, 2), Err(Error::VotingPeriodEnded));
    assert_eq!(
        pallet.end_voting(Some(3), 2, 2),
        Ok(Event::VotingPeriodEnded { proposal_id: 2, result: 2 })
    );
}

// Resolution mutates nothing and may be repeated with the same outcome.
#[test]
fn resolution_is_repeatable() {
    let mut pallet = Pallet::new();
    assert!(pallet.start_voting(Some(1), 1, 2, 1).is_ok());
    assert!(pallet.cast_vote(Some(2), 1, 1, 2).is_ok());
    let first = pallet.end_voting(Some(3), 1, 4);
    let second = pallet.end_voting(Some(4), 1, 5);
    assert_eq!(first, Ok(Event::VotingPeriodEnded { proposal_id: 1, result: 1 }));
    assert_eq!(first, second);
    assert_eq!(
        pallet.vote_counts(1),
        VoteTally { yes_votes: 0, no_votes: 1, abstain_votes: 0 }
    );
}

// Every undecodable choice code reports the conflated missing-window error.
#[test]
fn invalid_choice_codes_rejected() {
    let mut pallet = Pallet::new();
    assert!(pallet.start_voting(Some(1), 1, 10, 1).is_ok());
    for code in [3u8, 4, 100, 255] {
        assert_eq!(
            pallet.cast_vote(Some(2), 1, code, 1),
            Err(Error::ProposalDoesNotExist)
        );
    }
    assert!(!pallet.has_voted(1, 2));
}

// A default tally has every counter at zero.
#[test]
fn default_tally_is_zero() {
    assert_eq!(
        VoteTally::default(),
        VoteTally { yes_votes: 0, no_votes: 0, abstain_votes: 0 }
    );
}

// The wire codes of choices and outcomes.
#[test]
fn choice_and_result_codes() {
    assert_eq!(VoteChoice::from_code(0), Some(VoteChoice::Yes));
    assert_eq!(VoteChoice::from_code(1), Some(VoteChoice::No));
    assert_eq!(VoteChoice::from_code(2), Some(VoteChoice::Abstain));
    assert_eq!(VoteChoice::from_code(3), None);
    assert_eq!(VoteResult::Passed.code(), 0);
    assert_eq!(VoteResult::Failed.code(), 1);
    assert_eq!(VoteResult::NoQuorum.code(), 2);
}

// The worked end-to-end example: open at height 1 for 5 blocks, one yes
// vote at height 3, resolution refused at height 6 and passed at height 7.
#[test]
fn worked_example_round_passes() {
    let mut pallet = Pallet::new();
    assert!(pallet.start_voting(Some(1), 1, 5, 1).is_ok());
    assert_eq!(
        pallet.voting_period(1),
        Some(VotingPeriod { start_block: 1, end_block: 6 })
    );
    assert_eq!(
        pallet.cast_vote(Some(2), 1, 0, 3),
        Ok(Event::VoteCast { proposal_id: 1, voter: 2, vote: 0 })
    );
    assert_eq!(pallet.end_voting(Some(3), 1, 6), Err(Error::VotingPeriodNotStarted));
    assert_eq!(
        pallet.vote_counts(1),
        VoteTally { yes_votes: 1, no_votes: 0, abstain_votes: 0 }
    );
    assert_eq!(
        pallet.end_voting(Some(3), 1, 7),
        Ok(Event::VotingPeriodEnded { proposal_id: 1, result: 0 })
    );
}

// The checked tally refuses one more vote only at the counter's ceiling;
// counting up to it from below works.
#[test]
fn checked_count_stops_at_ceiling() {
    let near_full = VoteTally { yes_votes: u32::MAX - 1, no_votes: 5, abstain_votes: 0 };
    let full = near_full.checked_count(VoteChoice::Yes).unwrap();
    assert_eq!(
        full,
        VoteTally { yes_votes: u32::MAX, no_votes: 5, abstain_votes: 0 }
    );
    assert_eq!(full.checked_count(VoteChoice::Yes), None);
    // The other counters still have room
    assert_eq!(
        full.checked_count(VoteChoice::No),
        Some(VoteTally { yes_votes: u32::MAX, no_votes: 6, abstain_votes: 0 })
    );
}
