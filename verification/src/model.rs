//! The mathematical model of the voting machine: an abstract state and the
//! transition each operation performs on it.
//!
//! The executable operations on [`crate::pallet::Pallet`] promise in their
//! contracts to compute exactly what these specification functions say.

use vstd::prelude::*;
use crate::choice::{decode_choice, result_code, VoteChoice, VoteResult};
use crate::pallet::{Error, Event};
use crate::tally::{tally_bump, tally_full, zero_tally, VoteTally};
use crate::window::{window_active, window_for, VotingPeriod};

verus! {

/// The abstract state: the three stores, each seen as a map.
#[verifier::ext_equal]
pub struct StateView {
    /// Voting window by proposal id.
    pub windows: Map<u64, VotingPeriod>,
    /// Recorded choice by (proposal id, voter id).
    pub votes: Map<(u64, u64), VoteChoice>,
    /// Running counters by proposal id.
    pub tallies: Map<u64, VoteTally>,
}

/// The state before any round was ever opened.
pub open spec fn initial_state() -> StateView {
    StateView { windows: Map::empty(), votes: Map::empty(), tallies: Map::empty() }
}

/// The tally stored for `proposal_id`, or the zero tally where none is
/// stored. A proposal that was never opened reads as all zeroes.
pub open spec fn tally_of(s: StateView, proposal_id: u64) -> VoteTally {
    if s.tallies.contains_key(proposal_id) {
        s.tallies[proposal_id]
    } else {
        zero_tally()
    }
}

/// What `start_voting` does when the caller is authenticated: writes the
/// window [h, h + duration] (end saturating) for `proposal_id` and resets
/// its tally to zero. Prior vote records are left in place. An already-open
/// proposal id is silently overwritten.
pub open spec fn spec_open_round(
    s: StateView,
    proposal_id: u64,
    duration_blocks: u64,
    h: u64,
) -> StateView {
    StateView {
        windows: s.windows.insert(proposal_id, window_for(h, duration_blocks)),
        votes: s.votes,
        tallies: s.tallies.insert(proposal_id, zero_tally()),
    }
}

/// The outcome of `start_voting`: an unauthenticated caller fails and
/// changes nothing; any signed caller succeeds.
pub open spec fn spec_start_voting(
    s: StateView,
    origin: Option<u64>,
    proposal_id: u64,
    duration_blocks: u64,
    h: u64,
) -> (StateView, Result<(), Error>) {
    match origin {
        None => (s, Err(Error::BadOrigin)),
        Some(_) => (spec_open_round(s, proposal_id, duration_blocks, h), Ok(())),
    }
}

/// Whether a vote with the given inputs is accepted in state `s` at height
/// `h`: the caller is signed, the code decodes, the window exists and is
/// active, the pair has not voted, and the matching counter has room.
pub open spec fn vote_accepted(
    s: StateView,
    origin: Option<u64>,
    proposal_id: u64,
    vote: u8,
    h: u64,
) -> bool {
    &&& origin is Some
    &&& decode_choice(vote) is Some
    &&& s.windows.contains_key(proposal_id)
    &&& window_active(s.windows[proposal_id], h)
    &&& !s.votes.contains_key((proposal_id, origin->0))
    &&& !tally_full(tally_of(s, proposal_id), decode_choice(vote)->0)
}

/// What `cast_vote` does: the first failed check wins and leaves the state
/// unchanged; an accepted vote writes the ledger record and the bumped
/// tally together. An undecodable choice code deliberately reports the
/// same error kind as a missing window.
pub open spec fn spec_cast_vote(
    s: StateView,
    origin: Option<u64>,
    proposal_id: u64,
    vote: u8,
    h: u64,
) -> (StateView, Result<Event, Error>) {
    if origin is None {
        (s, Err(Error::BadOrigin))
    } else if decode_choice(vote) is None {
        (s, Err(Error::ProposalDoesNotExist))
    } else if !s.windows.contains_key(proposal_id) {
        (s, Err(Error::ProposalDoesNotExist))
    } else if !window_active(s.windows[proposal_id], h) {
        (s, Err(Error::VotingPeriodEnded))
    } else if s.votes.contains_key((proposal_id, origin->0)) {
        (s, Err(Error::AlreadyVoted))
    } else if tally_full(tally_of(s, proposal_id), decode_choice(vote)->0) {
        (s, Err(Error::TallyOverflow))
    } else {
        let voter = origin->0;
        let choice = decode_choice(vote)->0;
        (
            StateView {
                windows: s.windows,
                votes: s.votes.insert((proposal_id, voter), choice),
                tallies: s.tallies.insert(
                    proposal_id,
                    tally_bump(tally_of(s, proposal_id), choice),
                ),
            },
            Ok(Event::VoteCast { proposal_id, voter, vote }),
        )
    }
}

/// The majority rule: no yes or no votes at all is no quorum (abstentions
/// do not count), strictly more yes than no passes, and everything else --
/// ties included -- fails.
pub open spec fn spec_outcome(tally: VoteTally) -> VoteResult {
    if tally.yes_votes == 0 && tally.no_votes == 0 {
        VoteResult::NoQuorum
    } else if tally.yes_votes > tally.no_votes {
        VoteResult::Passed
    } else {
        VoteResult::Failed
    }
}

/// What `end_voting` reports. It never mutates the state: the round's
/// logical phase is derived from the clock alone, so resolution can be
/// repeated freely and always reads the same tally.
pub open spec fn spec_end_voting(
    s: StateView,
    origin: Option<u64>,
    proposal_id: u64,
    h: u64,
) -> Result<Event, Error> {
    if origin is None {
        Err(Error::BadOrigin)
    } else if !s.windows.contains_key(proposal_id) {
        Err(Error::ProposalDoesNotExist)
    } else if h <= s.windows[proposal_id].end_block {
        Err(Error::VotingPeriodNotStarted)
    } else {
        Ok(
            Event::VotingPeriodEnded {
                proposal_id,
                result: result_code(spec_outcome(tally_of(s, proposal_id))),
            },
        )
    }
}

} // verus!
