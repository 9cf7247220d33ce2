//! The vote ledger: one recorded choice per (proposal, voter) pair.

use vstd::prelude::*;
use crate::choice::VoteChoice;

verus! {

/// One recorded vote. Created once and never updated or deleted, not even
/// when the proposal's window is later re-opened.
#[derive(Clone, Copy, PartialEq, Eq, Structural, Debug)]
pub struct VoteRecord {
    /// The proposal voted on.
    pub proposal_id: u64,
    /// The account that voted.
    pub voter: u64,
    /// The choice that was cast.
    pub choice: VoteChoice,
}

/// The (proposal, voter) pair a record is keyed by.
pub open spec fn record_key(r: VoteRecord) -> (u64, u64) {
    (r.proposal_id, r.voter)
}

/// Whether no (proposal, voter) pair occurs twice among `records`.
pub open spec fn unique_record_keys(records: Seq<VoteRecord>) -> bool {
    forall|i: int, j: int|
        0 <= i < j < records.len() ==> record_key(#[trigger] records[i]) != record_key(
            #[trigger] records[j],
        )
}

/// The map from (proposal, voter) pairs to choices that a sequence of
/// records stands for.
pub open spec fn records_map(records: Seq<VoteRecord>) -> Map<(u64, u64), VoteChoice>
    decreases records.len(),
{
    if records.len() == 0 {
        Map::empty()
    } else {
        records_map(records.drop_last()).insert(
            record_key(records.last()),
            records.last().choice,
        )
    }
}

/// A pair is in the map exactly when some record carries it.
pub proof fn lemma_records_map_dom(records: Seq<VoteRecord>, key: (u64, u64))
    ensures
        records_map(records).contains_key(key) <==> exists|i: int|
            0 <= i < records.len() && record_key(#[trigger] records[i]) == key,
    decreases records.len(),
{
    if records.len() > 0 {
        lemma_records_map_dom(records.drop_last(), key);
        if record_key(records.last()) == key {
            assert(record_key(records[records.len() - 1]) == key);
        } else if records_map(records).contains_key(key) {
            let i = choose|i: int|
                0 <= i < records.drop_last().len() && record_key(
                    #[trigger] records.drop_last()[i],
                ) == key;
            assert(record_key(records[i]) == key);
        } else {
            assert forall|i: int| 0 <= i < records.len() implies record_key(
                #[trigger] records[i],
            ) != key by {
                if i < records.len() - 1 {
                    assert(records.drop_last()[i] == records[i]);
                }
            }
        }
    }
}

/// Appending a record with a fresh pair inserts it into the map.
pub proof fn lemma_records_map_push(records: Seq<VoteRecord>, r: VoteRecord)
    ensures
        records_map(records.push(r)) =~= records_map(records).insert(record_key(r), r.choice),
{
    assert(records.push(r).drop_last() =~= records);
}

/// The ledger of every vote ever accepted, keyed by (proposal, voter).
/// Votes are only ever added; re-opening a proposal's window leaves its old
/// records in place.
pub struct VoteLedger {
    records: Vec<VoteRecord>,
}

impl VoteLedger {
    /// No (proposal, voter) pair occurs twice.
    #[verifier::type_invariant]
    spec fn wf(self) -> bool {
        unique_record_keys(self.records@)
    }

    /// The map from (proposal, voter) pairs to recorded choices.
    pub closed spec fn view(self) -> Map<(u64, u64), VoteChoice> {
        records_map(self.records@)
    }

    /// An empty ledger.
    pub fn new() -> (r: VoteLedger)
        ensures
            r@ == Map::<(u64, u64), VoteChoice>::empty(),
    {
        VoteLedger { records: Vec::new() }
    }

    /// Whether `voter` has a recorded vote on `proposal_id`.
    pub fn contains(&self, proposal_id: u64, voter: u64) -> (r: bool)
        ensures
            r == self@.contains_key((proposal_id, voter)),
    {
        proof {
            use_type_invariant(self);
        }
        let n = self.records.len();
        let mut i: usize = 0;
        while i < n
            invariant
                n == self.records@.len(),
                0 <= i <= n,
                forall|j: int|
                    0 <= j < i ==> record_key(#[trigger] self.records@[j]) != (proposal_id, voter),
            decreases n - i,
        {
            let record = self.records[i];
            if record.proposal_id == proposal_id && record.voter == voter {
                proof {
                    lemma_records_map_dom(self.records@, (proposal_id, voter));
                    assert(record_key(self.records@[i as int]) == (proposal_id, voter));
                }
                return true;
            }
            i = i + 1;
        }
        proof {
            lemma_records_map_dom(self.records@, (proposal_id, voter));
        }
        false
    }

    /// Records a vote by `voter` on `proposal_id`. The pair must not have a
    /// recorded vote yet; `cast_vote` checks that before calling.
    pub fn insert(&mut self, proposal_id: u64, voter: u64, choice: VoteChoice)
        requires
            !old(self)@.contains_key((proposal_id, voter)),
        ensures
            final(self)@ == old(self)@.insert((proposal_id, voter), choice),
    {
        proof {
            use_type_invariant(&*self);
        }
        let ghost old_records = self.records@;
        let record = VoteRecord { proposal_id, voter, choice };
        let mut records: Vec<VoteRecord> = Vec::new();
        std::mem::swap(&mut records, &mut self.records);
        proof {
            lemma_records_map_push(old_records, record);
            lemma_records_map_dom(old_records, (proposal_id, voter));
        }
        records.push(record);
        assert(unique_record_keys(records@)) by {
            assert forall|a: int, b: int|
                0 <= a < b < records@.len() implies record_key(#[trigger] records@[a])
                != record_key(#[trigger] records@[b]) by {
                if b < records@.len() - 1 {
                    assert(old_records[a] == records@[a]);
                    assert(old_records[b] == records@[b]);
                } else {
                    assert(old_records[a] == records@[a]);
                }
            }
        }
        self.records = records;
    }
}

} // verus!
