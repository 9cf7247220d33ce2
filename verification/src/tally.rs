//! Running per-option vote counters for one proposal.

use vstd::prelude::*;
use crate::choice::VoteChoice;

verus! {

/// Running vote counters for one proposal. Each accepted vote increments
/// exactly one counter by one; counters never decrease. A counter at the
/// numeric ceiling refuses further votes of that option rather than wrap
/// or saturate, so the counters always equal the exact number of votes
/// accepted since the window was last opened.
#[derive(Clone, Copy, PartialEq, Eq, Structural, Debug)]
pub struct VoteTally {
    /// Number of yes votes.
    pub yes_votes: u32,
    /// Number of no votes.
    pub no_votes: u32,
    /// Number of abstain votes.
    pub abstain_votes: u32,
}

/// The tally with every counter at zero.
pub open spec fn zero_tally() -> VoteTally {
    VoteTally { yes_votes: 0, no_votes: 0, abstain_votes: 0 }
}

/// The counter of `tally` that `choice` votes land on.
pub open spec fn choice_count(tally: VoteTally, choice: VoteChoice) -> u32 {
    match choice {
        VoteChoice::Yes => tally.yes_votes,
        VoteChoice::No => tally.no_votes,
        VoteChoice::Abstain => tally.abstain_votes,
    }
}

/// Whether the counter for `choice` is at its ceiling, so that no further
/// vote of that option can be counted.
pub open spec fn tally_full(tally: VoteTally, choice: VoteChoice) -> bool {
    choice_count(tally, choice) == u32::MAX
}

/// `tally` with the counter for `choice` one higher. Meaningful only when
/// that counter is below its ceiling.
pub open spec fn tally_bump(tally: VoteTally, choice: VoteChoice) -> VoteTally {
    match choice {
        VoteChoice::Yes => VoteTally { yes_votes: (tally.yes_votes + 1) as u32, ..tally },
        VoteChoice::No => VoteTally { no_votes: (tally.no_votes + 1) as u32, ..tally },
        VoteChoice::Abstain => VoteTally { abstain_votes: (tally.abstain_votes + 1) as u32, ..tally },
    }
}

/// The number of votes `tally` accounts for, over all three options.
pub open spec fn tally_sum(tally: VoteTally) -> int {
    tally.yes_votes + tally.no_votes + tally.abstain_votes
}

impl VoteTally {
    /// The tally with every counter at zero.
    pub fn new() -> (r: VoteTally)
        ensures
            r == zero_tally(),
    {
        VoteTally { yes_votes: 0, no_votes: 0, abstain_votes: 0 }
    }

    /// Counts one more vote of `choice`, or reports that its counter is at
    /// the ceiling.
    pub fn checked_count(self, choice: VoteChoice) -> (r: Option<VoteTally>)
        ensures
            r == if tally_full(self, choice) {
                Option::<VoteTally>::None
            } else {
                Some(tally_bump(self, choice))
            },
    {
        match choice {
            VoteChoice::Yes => {
                if self.yes_votes == u32::MAX {
                    None
                } else {
                    Some(VoteTally { yes_votes: self.yes_votes + 1, ..self })
                }
            },
            VoteChoice::No => {
                if self.no_votes == u32::MAX {
                    None
                } else {
                    Some(VoteTally { no_votes: self.no_votes + 1, ..self })
                }
            },
            VoteChoice::Abstain => {
                if self.abstain_votes == u32::MAX {
                    None
                } else {
                    Some(VoteTally { abstain_votes: self.abstain_votes + 1, ..self })
                }
            },
        }
    }
}

impl Default for VoteTally {
    /// The tally with every counter at zero.
    fn default() -> (r: VoteTally)
        ensures
            r == zero_tally(),
    {
        VoteTally { yes_votes: 0, no_votes: 0, abstain_votes: 0 }
    }
}

} // verus!
