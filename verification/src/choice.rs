//! Vote choices and round outcomes, with their wire codes.

use vstd::prelude::*;

verus! {

/// One voter's choice on a proposal.
#[derive(Clone, Copy, PartialEq, Eq, Structural, Debug)]
pub enum VoteChoice {
    /// Vote in favour.
    Yes,
    /// Vote against.
    No,
    /// Abstain from voting.
    Abstain,
}

/// The outcome of a resolved voting round.
#[derive(Clone, Copy, PartialEq, Eq, Structural, Debug)]
pub enum VoteResult {
    /// More yes than no votes.
    Passed,
    /// At least as many no as yes votes, with at least one of either.
    Failed,
    /// No yes or no votes at all; abstentions do not count towards quorum.
    NoQuorum,
}

/// The choice a wire code stands for: 0 is yes, 1 is no, 2 is abstain,
/// anything else decodes to nothing.
pub open spec fn decode_choice(code: u8) -> Option<VoteChoice> {
    if code == 0 {
        Some(VoteChoice::Yes)
    } else if code == 1 {
        Some(VoteChoice::No)
    } else if code == 2 {
        Some(VoteChoice::Abstain)
    } else {
        None
    }
}

/// The wire code of a round outcome: 0 for passed, 1 for failed,
/// 2 for no quorum.
pub open spec fn result_code(result: VoteResult) -> u8 {
    match result {
        VoteResult::Passed => 0,
        VoteResult::Failed => 1,
        VoteResult::NoQuorum => 2,
    }
}

impl VoteChoice {
    /// Decodes a wire code into a choice.
    pub fn from_code(code: u8) -> (r: Option<VoteChoice>)
        ensures
            r == decode_choice(code),
    {
        match code {
            0 => Some(VoteChoice::Yes),
            1 => Some(VoteChoice::No),
            2 => Some(VoteChoice::Abstain),
            _ => None,
        }
    }
}

impl VoteResult {
    /// The wire code of this outcome.
    pub fn code(self) -> (r: u8)
        ensures
            r == result_code(self),
    {
        match self {
            VoteResult::Passed => 0,
            VoteResult::Failed => 1,
            VoteResult::NoQuorum => 2,
        }
    }
}

} // verus!
