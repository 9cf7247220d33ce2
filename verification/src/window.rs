//! Voting windows: the inclusive height range in which votes are accepted.

use vstd::prelude::*;

verus! {

/// The inclusive range of logical heights during which votes on one
/// proposal are accepted. Created by `start_voting` and immutable until the
/// next `start_voting` on the same proposal id overwrites it. There is no
/// requirement that `end_block >= start_block` beyond what construction
/// gives; a zero-duration window spans exactly its opening height.
#[derive(Clone, Copy, PartialEq, Eq, Structural, Debug)]
pub struct VotingPeriod {
    /// First height at which votes are accepted.
    pub start_block: u64,
    /// Last height at which votes are accepted.
    pub end_block: u64,
}

/// The sum of `a` and `b`, held at the numeric ceiling where it would
/// overflow. A window opened near the top of the clock's range simply never
/// closes by itself.
pub open spec fn saturating_add_u64(a: u64, b: u64) -> u64 {
    if a + b <= u64::MAX {
        (a + b) as u64
    } else {
        u64::MAX
    }
}

/// The window a round opened at height `start` with the given duration
/// spans: from `start` through `start + duration`, the end held at the
/// clock's ceiling where the sum would overflow.
pub open spec fn window_for(start: u64, duration_blocks: u64) -> VotingPeriod {
    VotingPeriod { start_block: start, end_block: saturating_add_u64(start, duration_blocks) }
}

/// Whether height `h` falls inside `window`, both ends inclusive.
pub open spec fn window_active(window: VotingPeriod, h: u64) -> bool {
    window.start_block <= h <= window.end_block
}

impl VotingPeriod {
    /// The window of a round opened at height `start` with the given
    /// duration. The end saturates at the clock's ceiling.
    pub fn open_at(start: u64, duration_blocks: u64) -> (r: VotingPeriod)
        ensures
            r == window_for(start, duration_blocks),
    {
        let end_block = if duration_blocks > u64::MAX - start {
            u64::MAX
        } else {
            start + duration_blocks
        };
        VotingPeriod { start_block: start, end_block }
    }

    /// Whether height `h` falls inside this window, both ends inclusive.
    pub fn is_active_at(&self, h: u64) -> (r: bool)
        ensures
            r == window_active(*self, h),
    {
        self.start_block <= h && h <= self.end_block
    }
}

} // verus!
