//! The round controller: the three public operations and the stores they
//! own.

use vstd::prelude::*;
use crate::choice::{VoteChoice, VoteResult};
use crate::ledger::VoteLedger;
use crate::model::{
    initial_state, spec_cast_vote, spec_end_voting, spec_start_voting, tally_of, StateView,
};
use crate::store::KeyedStore;
use crate::tally::VoteTally;
use crate::window::VotingPeriod;

verus! {

/// Why an operation was refused. Every failure is synchronous and final,
/// and leaves the stores untouched.
#[derive(Clone, Copy, PartialEq, Eq, Structural, Debug)]
pub enum Error {
    /// The caller was not a signed account.
    BadOrigin,
    /// A vote arrived outside the proposal's voting window.
    VotingPeriodEnded,
    /// Resolution was asked for at or before the window's end height.
    VotingPeriodNotStarted,
    /// The account already has a recorded vote on this proposal.
    AlreadyVoted,
    /// No voting window exists for this proposal id. A choice code outside
    /// {0, 1, 2} is deliberately reported under this same kind, so callers
    /// cannot tell the two failures apart.
    ProposalDoesNotExist,
    /// The matching tally counter is at its numeric ceiling. The explicit
    /// overflow policy: refuse the vote rather than wrap or saturate, so
    /// the counters stay exact.
    TallyOverflow,
}

/// A notification handed back to the caller. The library computes these;
/// emitting them to the outside world is the runtime's business.
#[derive(Clone, Copy, PartialEq, Eq, Structural, Debug)]
pub enum Event {
    /// A vote was cast on a proposal.
    VoteCast {
        /// The proposal id that was voted on.
        proposal_id: u64,
        /// The account that cast the vote.
        voter: u64,
        /// The vote choice code (0 = yes, 1 = no, 2 = abstain).
        vote: u8,
    },
    /// A voting round was resolved.
    VotingPeriodEnded {
        /// The proposal id.
        proposal_id: u64,
        /// The result code (0 = passed, 1 = failed, 2 = no quorum).
        result: u8,
    },
}

/// The voting machine. It owns the window registry, the vote ledger and the
/// tally accumulator; nothing else reads or writes them. The logical clock
/// is handed in by the caller on every operation and never advanced here.
pub struct Pallet {
    windows: KeyedStore<VotingPeriod>,
    votes: VoteLedger,
    tallies: KeyedStore<VoteTally>,
}

impl Pallet {
    /// The abstract state this machine is in.
    pub closed spec fn view(&self) -> StateView {
        StateView { windows: self.windows@, votes: self.votes@, tallies: self.tallies@ }
    }

    /// A machine in which no round was ever opened.
    pub fn new() -> (r: Pallet)
        ensures
            r@ == initial_state(),
    {
        let r = Pallet {
            windows: KeyedStore::new(),
            votes: VoteLedger::new(),
            tallies: KeyedStore::new(),
        };
        proof {
            assert(r@ =~= initial_state());
        }
        r
    }

    /// Opens (or silently re-opens) a voting round for `proposal_id`,
    /// spanning heights `current_block` through `current_block +
    /// duration_blocks`, the end held at the clock's ceiling where the sum
    /// would overflow. The proposal's tally is reset to zero; vote records
    /// from any earlier round on the same id remain in the ledger but no
    /// longer affect the tally. Fails only for an unsigned caller.
    pub fn start_voting(
        &mut self,
        origin: Option<u64>,
        proposal_id: u64,
        duration_blocks: u64,
        current_block: u64,
    ) -> (r: Result<(), Error>)
        ensures
            final(self)@ == spec_start_voting(
                old(self)@,
                origin,
                proposal_id,
                duration_blocks,
                current_block,
            ).0,
            r == spec_start_voting(
                old(self)@,
                origin,
                proposal_id,
                duration_blocks,
                current_block,
            ).1,
    {
        if origin.is_none() {
            return Err(Error::BadOrigin);
        }
        let window = VotingPeriod::open_at(current_block, duration_blocks);
        self.windows.insert(proposal_id, window);
        self.tallies.insert(proposal_id, VoteTally::new());
        Ok(())
    }

    /// Casts `origin`'s vote on `proposal_id` at height `current_block`.
    /// The checks run in a fixed order and the first failure wins, leaving
    /// the stores untouched: the caller must be signed, the choice code
    /// must decode, the window must exist and cover `current_block` (both
    /// ends inclusive), the pair must not have voted, and the matching
    /// counter must have room. An accepted vote writes the ledger record
    /// and the bumped tally together and hands back the `VoteCast` event.
    pub fn cast_vote(
        &mut self,
        origin: Option<u64>,
        proposal_id: u64,
        vote: u8,
        current_block: u64,
    ) -> (r: Result<Event, Error>)
        ensures
            final(self)@ == spec_cast_vote(old(self)@, origin, proposal_id, vote, current_block).0,
            r == spec_cast_vote(old(self)@, origin, proposal_id, vote, current_block).1,
    {
        let voter = match origin {
            None => {
                return Err(Error::BadOrigin);
            },
            Some(v) => v,
        };
        let choice = match VoteChoice::from_code(vote) {
            None => {
                return Err(Error::ProposalDoesNotExist);
            },
            Some(c) => c,
        };
        let window = match self.windows.get(proposal_id) {
            None => {
                return Err(Error::ProposalDoesNotExist);
            },
            Some(w) => w,
        };
        if !window.is_active_at(current_block) {
            return Err(Error::VotingPeriodEnded);
        }
        if self.votes.contains(proposal_id, voter) {
            return Err(Error::AlreadyVoted);
        }
        let tally = match self.tallies.get(proposal_id) {
            None => VoteTally::new(),
            Some(t) => t,
        };
        let bumped = match tally.checked_count(choice) {
            None => {
                return Err(Error::TallyOverflow);
            },
            Some(t) => t,
        };
        self.votes.insert(proposal_id, voter, choice);
        self.tallies.insert(proposal_id, bumped);
        Ok(Event::VoteCast { proposal_id, voter, vote })
    }

    /// Resolves the round for `proposal_id` at height `current_block`. The
    /// window must exist and `current_block` must be strictly beyond its
    /// end: votes are accepted through the end height inclusive, so one
    /// block separates the last vote from the first possible resolution.
    /// Resolution reads the tally, mutates nothing, and may be repeated;
    /// it hands back the `VotingPeriodEnded` event with the result code.
    pub fn end_voting(&self, origin: Option<u64>, proposal_id: u64, current_block: u64) -> (r:
        Result<Event, Error>)
        ensures
            r == spec_end_voting(self@, origin, proposal_id, current_block),
    {
        if origin.is_none() {
            return Err(Error::BadOrigin);
        }
        let window = match self.windows.get(proposal_id) {
            None => {
                return Err(Error::ProposalDoesNotExist);
            },
            Some(w) => w,
        };
        if current_block <= window.end_block {
            return Err(Error::VotingPeriodNotStarted);
        }
        let tally = self.vote_counts(proposal_id);
        let result = if tally.yes_votes == 0 && tally.no_votes == 0 {
            VoteResult::NoQuorum
        } else if tally.yes_votes > tally.no_votes {
            VoteResult::Passed
        } else {
            VoteResult::Failed
        };
        Ok(Event::VotingPeriodEnded { proposal_id, result: result.code() })
    }

    /// The voting window stored for `proposal_id`, if one was ever opened.
    pub fn voting_period(&self, proposal_id: u64) -> (r: Option<VotingPeriod>)
        ensures
            r == if self@.windows.contains_key(proposal_id) {
                Some(self@.windows[proposal_id])
            } else {
                Option::<VotingPeriod>::None
            },
    {
        self.windows.get(proposal_id)
    }

    /// The tally stored for `proposal_id`; a proposal that was never opened
    /// reads as all zeroes.
    pub fn vote_counts(&self, proposal_id: u64) -> (r: VoteTally)
        ensures
            r == tally_of(self@, proposal_id),
    {
        match self.tallies.get(proposal_id) {
            None => VoteTally::new(),
            Some(t) => t,
        }
    }

    /// Whether `voter` has a recorded vote on `proposal_id`. Records
    /// survive a re-opened round, so this keeps answering true afterwards.
    pub fn has_voted(&self, proposal_id: u64, voter: u64) -> (r: bool)
        ensures
            r == self@.votes.contains_key((proposal_id, voter)),
    {
        self.votes.contains(proposal_id, voter)
    }
}

} // verus!
