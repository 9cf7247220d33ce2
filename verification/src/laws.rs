//! The governing laws of the voting machine, proved against the abstract
//! model. Each executable operation promises in its contract to compute
//! exactly what the model's transition functions say, so everything shown
//! here holds of the executable machine as well.

use vstd::prelude::*;
use crate::choice::{decode_choice, VoteChoice};
use crate::model::{
    spec_cast_vote, spec_end_voting, spec_start_voting, tally_of, vote_accepted, StateView,
};
use crate::pallet::{Error, Event};
use crate::tally::{choice_count, tally_full, tally_sum, zero_tally};
use crate::window::{window_active, window_for};

verus! {

/// A proposal id that was never opened refuses both voting and resolution
/// with the missing-window error, and voting on it changes nothing.
pub proof fn lemma_unopened_rejected(
    s: StateView,
    origin: Option<u64>,
    proposal_id: u64,
    vote: u8,
    h: u64,
)
    requires
        origin is Some,
        !s.windows.contains_key(proposal_id),
    ensures
        spec_cast_vote(s, origin, proposal_id, vote, h) == (
            s,
            Err::<Event, Error>(Error::ProposalDoesNotExist),
        ),
        spec_end_voting(s, origin, proposal_id, h) == Err::<Event, Error>(
            Error::ProposalDoesNotExist,
        ),
{
}

/// For an eligible voter -- signed, with a decodable choice, no earlier
/// vote on the pair, and room in the tally -- a vote on an opened window is
/// accepted exactly when the height lies inside the window, both ends
/// inclusive.
pub proof fn lemma_vote_accepted_iff_window_active(
    s: StateView,
    origin: Option<u64>,
    proposal_id: u64,
    vote: u8,
    h: u64,
)
    requires
        origin is Some,
        decode_choice(vote) is Some,
        s.windows.contains_key(proposal_id),
        !s.votes.contains_key((proposal_id, origin->0)),
        !tally_full(tally_of(s, proposal_id), decode_choice(vote)->0),
    ensures
        spec_cast_vote(s, origin, proposal_id, vote, h).1 is Ok <==> window_active(
            s.windows[proposal_id],
            h,
        ),
{
}

/// Past the window's end the round has a one-block grace gap: a vote is
/// refused as outside the window, while resolution has become permitted.
pub proof fn lemma_grace_gap(
    s: StateView,
    origin: Option<u64>,
    proposal_id: u64,
    vote: u8,
    h: u64,
)
    requires
        origin is Some,
        decode_choice(vote) is Some,
        s.windows.contains_key(proposal_id),
        h > s.windows[proposal_id].end_block,
    ensures
        spec_cast_vote(s, origin, proposal_id, vote, h) == (
            s,
            Err::<Event, Error>(Error::VotingPeriodEnded),
        ),
        spec_end_voting(s, origin, proposal_id, h) is Ok,
{
}

/// A (proposal, voter) pair with a recorded vote never gets another one:
/// any further attempt leaves the state unchanged, and where every other
/// check would have passed, the error is `AlreadyVoted` -- whatever the new
/// choice.
pub proof fn lemma_one_vote_per_pair(
    s: StateView,
    origin: Option<u64>,
    proposal_id: u64,
    vote: u8,
    h: u64,
)
    requires
        origin is Some,
        s.votes.contains_key((proposal_id, origin->0)),
    ensures
        spec_cast_vote(s, origin, proposal_id, vote, h).0 == s,
        spec_cast_vote(s, origin, proposal_id, vote, h).1 is Err,
        decode_choice(vote) is Some && s.windows.contains_key(proposal_id) && window_active(
            s.windows[proposal_id],
            h,
        ) ==> spec_cast_vote(s, origin, proposal_id, vote, h).1 == Err::<Event, Error>(
            Error::AlreadyVoted,
        ),
{
}

/// An accepted vote records the pair, so a second attempt by the same pair
/// inside the (unchanged) window fails with `AlreadyVoted`, whatever the
/// new choice.
pub proof fn lemma_second_vote_rejected(
    s: StateView,
    origin: Option<u64>,
    proposal_id: u64,
    vote: u8,
    h: u64,
    vote2: u8,
    h2: u64,
)
    requires
        vote_accepted(s, origin, proposal_id, vote, h),
        decode_choice(vote2) is Some,
        window_active(s.windows[proposal_id], h2),
    ensures
        ({
            let s1 = spec_cast_vote(s, origin, proposal_id, vote, h).0;
            spec_cast_vote(s1, origin, proposal_id, vote2, h2) == (
                s1,
                Err::<Event, Error>(Error::AlreadyVoted),
            )
        }),
{
}

/// With no yes and no no votes at all, resolution reports no quorum --
/// however many abstentions the tally holds.
pub proof fn lemma_resolve_no_quorum(s: StateView, origin: Option<u64>, proposal_id: u64, h: u64)
    requires
        origin is Some,
        s.windows.contains_key(proposal_id),
        h > s.windows[proposal_id].end_block,
        tally_of(s, proposal_id).yes_votes == 0,
        tally_of(s, proposal_id).no_votes == 0,
    ensures
        spec_end_voting(s, origin, proposal_id, h) == Ok::<Event, Error>(
            Event::VotingPeriodEnded { proposal_id, result: 2 },
        ),
{
}

/// An exact tie with at least one vote on either side fails; there is no
/// separate tie outcome.
pub proof fn lemma_resolve_tie_fails(s: StateView, origin: Option<u64>, proposal_id: u64, h: u64)
    requires
        origin is Some,
        s.windows.contains_key(proposal_id),
        h > s.windows[proposal_id].end_block,
        tally_of(s, proposal_id).yes_votes == tally_of(s, proposal_id).no_votes,
        tally_of(s, proposal_id).yes_votes > 0,
    ensures
        spec_end_voting(s, origin, proposal_id, h) == Ok::<Event, Error>(
            Event::VotingPeriodEnded { proposal_id, result: 1 },
        ),
{
}

/// Strictly more yes than no votes passes the proposal.
pub proof fn lemma_resolve_passed(s: StateView, origin: Option<u64>, proposal_id: u64, h: u64)
    requires
        origin is Some,
        s.windows.contains_key(proposal_id),
        h > s.windows[proposal_id].end_block,
        tally_of(s, proposal_id).yes_votes > tally_of(s, proposal_id).no_votes,
    ensures
        spec_end_voting(s, origin, proposal_id, h) == Ok::<Event, Error>(
            Event::VotingPeriodEnded { proposal_id, result: 0 },
        ),
{
}

/// Strictly more no than yes votes fails the proposal.
pub proof fn lemma_resolve_failed(s: StateView, origin: Option<u64>, proposal_id: u64, h: u64)
    requires
        origin is Some,
        s.windows.contains_key(proposal_id),
        h > s.windows[proposal_id].end_block,
        tally_of(s, proposal_id).no_votes > tally_of(s, proposal_id).yes_votes,
    ensures
        spec_end_voting(s, origin, proposal_id, h) == Ok::<Event, Error>(
            Event::VotingPeriodEnded { proposal_id, result: 1 },
        ),
{
}

/// Re-opening a proposal id replaces its window, resets its tally to zero,
/// and leaves every vote record in place -- so the stale records no longer
/// affect the fresh tally, yet still block their voters from voting again.
pub proof fn lemma_reopen_resets(
    s: StateView,
    origin: Option<u64>,
    proposal_id: u64,
    duration_blocks: u64,
    h: u64,
)
    requires
        origin is Some,
    ensures
        ({
            let s1 = spec_start_voting(s, origin, proposal_id, duration_blocks, h).0;
            &&& spec_start_voting(s, origin, proposal_id, duration_blocks, h).1 == Ok::<
                (),
                Error,
            >(())
            &&& s1.windows == s.windows.insert(proposal_id, window_for(h, duration_blocks))
            &&& tally_of(s1, proposal_id) == zero_tally()
            &&& s1.votes == s.votes
            &&& forall|voter: u64, vote2: u8, h2: u64|
                s.votes.contains_key((proposal_id, voter)) ==> (#[trigger] spec_cast_vote(
                    s1,
                    Some(voter),
                    proposal_id,
                    vote2,
                    h2,
                )).1 is Err
        }),
{
    let s1 = spec_start_voting(s, origin, proposal_id, duration_blocks, h).0;
    assert forall|voter: u64, vote2: u8, h2: u64|
        s.votes.contains_key((proposal_id, voter)) implies (#[trigger] spec_cast_vote(
        s1,
        Some(voter),
        proposal_id,
        vote2,
        h2,
    )).1 is Err by {
        assert(s1.votes.contains_key((proposal_id, voter)));
    }
}

/// Every failure is all-or-nothing: an operation that reports an error
/// leaves the state exactly as it was. (`end_voting` never changes the
/// state in the first place.)
pub proof fn lemma_failures_change_nothing(
    s: StateView,
    origin: Option<u64>,
    proposal_id: u64,
    duration_blocks: u64,
    vote: u8,
    h: u64,
)
    ensures
        spec_start_voting(s, origin, proposal_id, duration_blocks, h).1 is Err
            ==> spec_start_voting(s, origin, proposal_id, duration_blocks, h).0 == s,
        spec_cast_vote(s, origin, proposal_id, vote, h).1 is Err ==> spec_cast_vote(
            s,
            origin,
            proposal_id,
            vote,
            h,
        ).0 == s,
{
}

/// Resolution does not depend on who asks: any two signed callers at the
/// same height are told the same outcome. Together with `end_voting`
/// mutating nothing, resolving is repeatable by anyone.
pub proof fn lemma_resolution_caller_independent(
    s: StateView,
    origin1: Option<u64>,
    origin2: Option<u64>,
    proposal_id: u64,
    h: u64,
)
    requires
        origin1 is Some,
        origin2 is Some,
    ensures
        spec_end_voting(s, origin1, proposal_id, h) == spec_end_voting(s, origin2, proposal_id, h),
{
}

/// One invocation of a public operation, as the model sees it.
pub enum GovOp {
    /// A `start_voting` call.
    StartVoting {
        /// The caller, where signed.
        origin: Option<u64>,
        /// The proposal id the round is opened for.
        proposal_id: u64,
        /// How many blocks past the opening height the window spans.
        duration_blocks: u64,
        /// The logical height at the call.
        height: u64,
    },
    /// A `cast_vote` call.
    CastVote {
        /// The caller, where signed.
        origin: Option<u64>,
        /// The proposal id voted on.
        proposal_id: u64,
        /// The raw choice code.
        vote: u8,
        /// The logical height at the call.
        height: u64,
    },
    /// An `end_voting` call. It never mutates the state.
    EndVoting {
        /// The caller, where signed.
        origin: Option<u64>,
        /// The proposal id resolved.
        proposal_id: u64,
        /// The logical height at the call.
        height: u64,
    },
}

/// The state after one operation.
pub open spec fn apply_op(s: StateView, op: GovOp) -> StateView {
    match op {
        GovOp::StartVoting { origin, proposal_id, duration_blocks, height } => spec_start_voting(
            s,
            origin,
            proposal_id,
            duration_blocks,
            height,
        ).0,
        GovOp::CastVote { origin, proposal_id, vote, height } => spec_cast_vote(
            s,
            origin,
            proposal_id,
            vote,
            height,
        ).0,
        GovOp::EndVoting { .. } => s,
    }
}

/// The state after a sequence of operations, applied left to right.
pub open spec fn apply_ops(s: StateView, ops: Seq<GovOp>) -> StateView
    decreases ops.len(),
{
    if ops.len() == 0 {
        s
    } else {
        apply_op(apply_ops(s, ops.drop_last()), ops.last())
    }
}

/// Whether `op` opens (or re-opens) the round for `proposal_id`, which
/// resets its tally.
pub open spec fn op_resets_tally(op: GovOp, proposal_id: u64) -> bool {
    op matches GovOp::StartVoting { origin, proposal_id: p, .. } && origin is Some && p
        == proposal_id
}

/// Whether `op` is a vote on `proposal_id` that state `s` accepts.
pub open spec fn op_accepts_vote(s: StateView, op: GovOp, proposal_id: u64) -> bool {
    op matches GovOp::CastVote { origin, proposal_id: p, vote, height } && p == proposal_id
        && vote_accepted(s, origin, p, vote, height)
}

/// The number of votes on `proposal_id` accepted along `ops`, counted from
/// the last operation that opened its round -- or from the start of `ops`
/// where none did.
pub open spec fn accepted_since_open(s: StateView, ops: Seq<GovOp>, proposal_id: u64) -> int
    decreases ops.len(),
{
    if ops.len() == 0 {
        0
    } else if op_resets_tally(ops.last(), proposal_id) {
        0
    } else if op_accepts_vote(apply_ops(s, ops.drop_last()), ops.last(), proposal_id) {
        accepted_since_open(s, ops.drop_last(), proposal_id) + 1
    } else {
        accepted_since_open(s, ops.drop_last(), proposal_id)
    }
}

/// A vote record, once accepted, is never updated or deleted: whatever
/// operation runs next -- a re-opened round included -- the recorded pair
/// keeps its choice.
pub proof fn lemma_vote_records_persist(s: StateView, op: GovOp, key: (u64, u64))
    requires
        s.votes.contains_key(key),
    ensures
        apply_op(s, op).votes.contains_key(key),
        apply_op(s, op).votes[key] == s.votes[key],
{
}

/// The logical height an operation was invoked at.
pub open spec fn op_height(op: GovOp) -> u64 {
    match op {
        GovOp::StartVoting { height, .. } => height,
        GovOp::CastVote { height, .. } => height,
        GovOp::EndVoting { height, .. } => height,
    }
}

/// A proposal id, once opened, always has a window: re-opening replaces
/// it, and nothing ever removes it. The machine never forgets a round.
pub proof fn lemma_rounds_never_forgotten(s: StateView, op: GovOp, proposal_id: u64)
    requires
        s.windows.contains_key(proposal_id),
    ensures
        apply_op(s, op).windows.contains_key(proposal_id),
{
}

/// Once a round's window has closed, its tally is frozen: an operation at
/// a height past the window's end leaves both window and tally untouched,
/// unless it re-opens that very round. With the external clock never
/// decreasing, this is what makes resolution repeatable with one constant
/// outcome.
pub proof fn lemma_tally_frozen_after_close(s: StateView, op: GovOp, proposal_id: u64)
    requires
        s.windows.contains_key(proposal_id),
        op_height(op) > s.windows[proposal_id].end_block,
        !op_resets_tally(op, proposal_id),
    ensures
        apply_op(s, op).windows[proposal_id] == s.windows[proposal_id],
        tally_of(apply_op(s, op), proposal_id) == tally_of(s, proposal_id),
{
}

/// Whether `op` is a vote on `proposal_id` that state `s` accepts with the
/// given decoded choice.
pub open spec fn op_accepts_choice(
    s: StateView,
    op: GovOp,
    proposal_id: u64,
    choice: VoteChoice,
) -> bool {
    op matches GovOp::CastVote { origin, proposal_id: p, vote, height } && p == proposal_id
        && decode_choice(vote) == Some(choice) && vote_accepted(s, origin, p, vote, height)
}

/// The number of votes on `proposal_id` with decoded choice `choice`
/// accepted along `ops`, counted from the last operation that opened its
/// round -- or from the start of `ops` where none did.
pub open spec fn accepted_choice_since_open(
    s: StateView,
    ops: Seq<GovOp>,
    proposal_id: u64,
    choice: VoteChoice,
) -> int
    decreases ops.len(),
{
    if ops.len() == 0 {
        0
    } else if op_resets_tally(ops.last(), proposal_id) {
        0
    } else if op_accepts_choice(apply_ops(s, ops.drop_last()), ops.last(), proposal_id, choice) {
        accepted_choice_since_open(s, ops.drop_last(), proposal_id, choice) + 1
    } else {
        accepted_choice_since_open(s, ops.drop_last(), proposal_id, choice)
    }
}

/// Each accepted vote raises exactly the counter of its own option: from
/// any state whose counter for `choice` on `proposal_id` is zero, after
/// any sequence of operations that counter equals the number of accepted
/// votes of that choice since the round was last opened.
pub proof fn lemma_counter_counts_accepted_choice(
    s: StateView,
    ops: Seq<GovOp>,
    proposal_id: u64,
    choice: VoteChoice,
)
    requires
        choice_count(tally_of(s, proposal_id), choice) == 0,
    ensures
        choice_count(tally_of(apply_ops(s, ops), proposal_id), choice) == accepted_choice_since_open(
            s,
            ops,
            proposal_id,
            choice,
        ),
    decreases ops.len(),
{
    if ops.len() > 0 {
        lemma_counter_counts_accepted_choice(s, ops.drop_last(), proposal_id, choice);
    }
}

/// The tally accounts for exactly the accepted votes: from any state whose
/// tally for `proposal_id` is all zeroes, after any sequence of operations
/// the three counters sum to the number of votes on `proposal_id` accepted
/// since its round was last opened.
pub proof fn lemma_tally_counts_accepted_votes(s: StateView, ops: Seq<GovOp>, proposal_id: u64)
    requires
        tally_sum(tally_of(s, proposal_id)) == 0,
    ensures
        tally_sum(tally_of(apply_ops(s, ops), proposal_id)) == accepted_since_open(
            s,
            ops,
            proposal_id,
        ),
    decreases ops.len(),
{
    if ops.len() > 0 {
        lemma_tally_counts_accepted_votes(s, ops.drop_last(), proposal_id);
    }
}

/// The same, from the state before any round was ever opened: there every
/// proposal's tally reads as zero.
pub proof fn lemma_tally_counts_votes_from_start(ops: Seq<GovOp>, proposal_id: u64)
    ensures
        tally_sum(tally_of(apply_ops(crate::model::initial_state(), ops), proposal_id))
            == accepted_since_open(crate::model::initial_state(), ops, proposal_id),
{
    lemma_tally_counts_accepted_votes(crate::model::initial_state(), ops, proposal_id);
}

} // verus!
