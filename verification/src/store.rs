//! Per-contributor contribution records and the append-only snapshot ledger.

use vstd::prelude::*;
use crate::allocation::{
    allocate, allocated, lemma_sum_amounts_push, lemma_sum_amounts_update, sum_amounts,
};
use crate::campaign::Campaign;
use crate::errors::CampaignError;

verus! {

/// The one live record of a (contributor, campaign) pair. `amount` is a
/// running total, updated in place on repeated contributions and never
/// duplicated; a refund zeroes it in place, preserving the record for audit.
#[derive(Clone, Copy, Debug, PartialEq, Eq, Structural)]
pub struct ContributionRecord {
    /// Identity of the contributor.
    pub contributor: u64,
    /// Identity of the campaign this record belongs to.
    pub campaign_id: u64,
    /// Cumulative resource contributed by this contributor, not one deposit.
    pub amount: u64,
    /// Token amount reserved for the current `amount`.
    pub allocated_tokens: u64,
    /// The campaign's sequence counter at the latest accepted contribution
    /// of this contributor, before the counter's own increment: zero-based.
    pub sequence_index: u32,
    /// Time of the latest accepted contribution of this contributor.
    pub timestamp: i64,
    /// Set once this record's pro-rata token transfer has been confirmed
    /// during finalization; lets a retried finalization skip paid records.
    pub distributed: bool,
}

/// The amounts of a sequence of records, in order.
pub open spec fn amounts_of(s: Seq<ContributionRecord>) -> Seq<u64> {
    s.map_values(|r: ContributionRecord| r.amount)
}

/// No two records of one store name the same contributor.
pub open spec fn unique_contributors(s: Seq<ContributionRecord>) -> bool {
    forall|i: int, j: int|
        0 <= i < j < s.len() ==> s[i].contributor != s[j].contributor
}

/// Whether some record names contributor `c`.
pub open spec fn has_contributor(s: Seq<ContributionRecord>, c: u64) -> bool {
    exists|i: int| 0 <= i < s.len() && s[i].contributor == c
}

/// The position of contributor `c`'s record; meaningful only when
/// `has_contributor(s, c)` holds, and then unique among unique contributors.
pub open spec fn index_of(s: Seq<ContributionRecord>, c: u64) -> int {
    choose|i: int| 0 <= i < s.len() && s[i].contributor == c
}

/// Cumulative amount recorded for contributor `c`; zero when no record is.
pub open spec fn amount_of(s: Seq<ContributionRecord>, c: u64) -> int {
    if has_contributor(s, c) {
        s[index_of(s, c)].amount as int
    } else {
        0
    }
}

/// Among unique contributors, any record naming `c` stands at `index_of`.
pub proof fn lemma_index_of_unique(s: Seq<ContributionRecord>, c: u64, i: int)
    requires
        unique_contributors(s),
        0 <= i < s.len(),
        s[i].contributor == c,
    ensures
        has_contributor(s, c),
        index_of(s, c) == i,
{
    assert(has_contributor(s, c));
    let j = index_of(s, c);
    assert(0 <= j < s.len() && s[j].contributor == c);
    if i < j {
        assert(s[i].contributor != s[j].contributor);
    }
    if j < i {
        assert(s[j].contributor != s[i].contributor);
    }
}

/// The record that an accepted contribution of `delta` leaves for
/// `contributor`: the running total and its token reservation are updated in
/// place, the sequence index and timestamp renewed, and the distribution
/// flag kept (clear for a fresh record).
pub open spec fn upserted_record(
    s: Seq<ContributionRecord>,
    contributor: u64,
    campaign: Campaign,
    delta: u64,
    now: i64,
) -> ContributionRecord {
    ContributionRecord {
        contributor,
        campaign_id: campaign.id,
        amount: (amount_of(s, contributor) + delta) as u64,
        allocated_tokens: allocated(
            amount_of(s, contributor) + delta,
            campaign.total_supply as int,
            campaign.target as int,
        ) as u64,
        sequence_index: campaign.contribution_count,
        timestamp: now,
        distributed: if has_contributor(s, contributor) {
            s[index_of(s, contributor)].distributed
        } else {
            false
        },
    }
}

/// The store contents after an accepted contribution: the contributor's
/// record updated in place, or appended when none was.
pub open spec fn upserted_store(
    s: Seq<ContributionRecord>,
    contributor: u64,
    campaign: Campaign,
    delta: u64,
    now: i64,
) -> Seq<ContributionRecord> {
    if has_contributor(s, contributor) {
        s.update(index_of(s, contributor), upserted_record(s, contributor, campaign, delta, now))
    } else {
        s.push(upserted_record(s, contributor, campaign, delta, now))
    }
}

/// Keyed store of the live per-contributor records of one campaign.
#[derive(Clone, Debug)]
pub struct ContributionStore {
    records: Vec<ContributionRecord>,
}

impl View for ContributionStore {
    type V = Seq<ContributionRecord>;

    closed spec fn view(&self) -> Seq<ContributionRecord> {
        self.records@
    }
}

impl ContributionStore {
    /// An empty store.
    pub fn new() -> (r: ContributionStore)
        ensures
            r@ =~= Seq::<ContributionRecord>::empty(),
    {
        ContributionStore { records: Vec::new() }
    }

    /// Number of live records.
    pub fn len(&self) -> (r: usize)
        ensures
            r == self@.len(),
    {
        self.records.len()
    }

    /// The record at position `i`.
    pub fn get(&self, i: usize) -> (r: ContributionRecord)
        requires
            i < self@.len(),
        ensures
            r == self@[i as int],
    {
        self.records[i]
    }

    /// Position of contributor `c`'s record, if one is.
    pub fn find(&self, contributor: u64) -> (r: Option<usize>)
        ensures
            match r {
                Some(i) => i < self@.len() && self@[i as int].contributor == contributor,
                None => !has_contributor(self@, contributor),
            },
    {
        let n = self.records.len();
        let mut i: usize = 0;
        while i < n
            invariant
                n == self@.len(),
                i <= n,
                forall|j: int| 0 <= j < i ==> self@[j].contributor != contributor,
            decreases n - i,
        {
            if self.records[i].contributor == contributor {
                return Some(i);
            }
            i = i + 1;
        }
        None
    }

    /// Records an accepted contribution of `delta` for `contributor`: the
    /// cumulative amount may not pass the per-contributor ceiling `cap`
    /// (checked before any mutation), and on success the one live record is
    /// updated in place, with its token reservation recomputed through the
    /// allocation formula and its sequence index taken from the campaign's
    /// counter before that counter's own increment.
    pub fn upsert_contribution(
        &mut self,
        contributor: u64,
        campaign: &Campaign,
        cap: u64,
        delta: u64,
        now: i64,
    ) -> (r: Result<ContributionRecord, CampaignError>)
        requires
            unique_contributors(old(self)@),
            campaign.target > 0,
            amount_of(old(self)@, contributor) + delta <= campaign.target,
        ensures
            amount_of(old(self)@, contributor) + delta > cap ==> (
                r == Err::<ContributionRecord, CampaignError>(
                    CampaignError::PerContributorCapExceeded)
                && final(self)@ == old(self)@
            ),
            amount_of(old(self)@, contributor) + delta <= cap ==> (
                r == Ok::<ContributionRecord, CampaignError>(
                    upserted_record(old(self)@, contributor, *campaign, delta, now))
                && final(self)@ == upserted_store(old(self)@, contributor, *campaign, delta, now)
            ),
            unique_contributors(final(self)@),
            amount_of(old(self)@, contributor) + delta <= cap
                ==> sum_amounts(amounts_of(final(self)@))
                    == sum_amounts(amounts_of(old(self)@)) + delta,
    {
        let ghost s0 = self@;
        match self.find(contributor) {
            Some(i) => {
                proof {
                    lemma_index_of_unique(s0, contributor, i as int);
                }
                let prior = self.records[i];
                if delta > cap || prior.amount > cap - delta {
                    return Err(CampaignError::PerContributorCapExceeded);
                }
                let updated = ContributionRecord {
                    contributor,
                    campaign_id: campaign.id,
                    amount: prior.amount + delta,
                    allocated_tokens: allocate(
                        prior.amount + delta,
                        campaign.total_supply,
                        campaign.target,
                    ),
                    sequence_index: campaign.contribution_count,
                    timestamp: now,
                    distributed: prior.distributed,
                };
                self.records[i] = updated;
                proof {
                    assert(amounts_of(self@) =~= amounts_of(s0).update(i as int, updated.amount));
                    lemma_sum_amounts_update(amounts_of(s0), i as int, updated.amount);
                }
                Ok(updated)
            },
            None => {
                if delta > cap {
                    return Err(CampaignError::PerContributorCapExceeded);
                }
                let fresh = ContributionRecord {
                    contributor,
                    campaign_id: campaign.id,
                    amount: delta,
                    allocated_tokens: allocate(delta, campaign.total_supply, campaign.target),
                    sequence_index: campaign.contribution_count,
                    timestamp: now,
                    distributed: false,
                };
                self.records.push(fresh);
                proof {
                    assert(amounts_of(self@) =~= amounts_of(s0).push(fresh.amount));
                    lemma_sum_amounts_push(amounts_of(s0), fresh.amount);
                }
                Ok(fresh)
            },
        }
    }

    /// Marks the record at position `i` as having received its pro-rata
    /// distribution transfer; everything else of the record is kept.
    pub fn mark_distributed(&mut self, i: usize)
        requires
            i < old(self)@.len(),
        ensures
            final(self)@ == old(self)@.update(i as int, (ContributionRecord {
                distributed: true,
                ..old(self)@[i as int]
            })),
    {
        let rec = self.records[i];
        self.records[i] = ContributionRecord { distributed: true, ..rec };
    }

    /// Zeroes `contributor`'s recorded amount in place, returning what was
    /// recorded; the record itself stays, preserving the audit history. A
    /// contributor without a positive recorded amount has nothing to refund.
    pub fn clear_contribution(&mut self, contributor: u64) -> (r: Result<u64, CampaignError>)
        requires
            unique_contributors(old(self)@),
        ensures
            amount_of(old(self)@, contributor) == 0 ==> (
                r == Err::<u64, CampaignError>(CampaignError::NoContributionToRefund)
                && final(self)@ == old(self)@
            ),
            amount_of(old(self)@, contributor) > 0 ==> (
                r == Ok::<u64, CampaignError>(amount_of(old(self)@, contributor) as u64)
                && final(self)@ == old(self)@.update(
                    index_of(old(self)@, contributor),
                    (ContributionRecord {
                        amount: 0,
                        ..old(self)@[index_of(old(self)@, contributor)]
                    }),
                )
            ),
            unique_contributors(final(self)@),
            amount_of(old(self)@, contributor) > 0
                ==> sum_amounts(amounts_of(final(self)@))
                    == sum_amounts(amounts_of(old(self)@))
                        - amount_of(old(self)@, contributor),
    {
        let ghost s0 = self@;
        match self.find(contributor) {
            Some(i) => {
                proof {
                    lemma_index_of_unique(s0, contributor, i as int);
                }
                let prior = self.records[i];
                if prior.amount == 0 {
                    return Err(CampaignError::NoContributionToRefund);
                }
                let cleared = ContributionRecord { amount: 0, ..prior };
                self.records[i] = cleared;
                proof {
                    assert(amounts_of(self@) =~= amounts_of(s0).update(i as int, 0u64));
                    lemma_sum_amounts_update(amounts_of(s0), i as int, 0u64);
                }
                Ok(prior.amount)
            },
            None => Err(CampaignError::NoContributionToRefund),
        }
    }
}

/// Append-only, capacity-bounded sequence of immutable snapshots: one per
/// accepted contribution event, ordered by sequence index.
#[derive(Clone, Debug)]
pub struct SnapshotLedger {
    snapshots: Vec<ContributionRecord>,
}

impl View for SnapshotLedger {
    type V = Seq<ContributionRecord>;

    closed spec fn view(&self) -> Seq<ContributionRecord> {
        self.snapshots@
    }
}

impl SnapshotLedger {
    /// An empty ledger.
    pub fn new() -> (r: SnapshotLedger)
        ensures
            r@ =~= Seq::<ContributionRecord>::empty(),
    {
        SnapshotLedger { snapshots: Vec::new() }
    }

    /// Number of snapshots taken so far.
    pub fn len(&self) -> (r: usize)
        ensures
            r == self@.len(),
    {
        self.snapshots.len()
    }

    /// The snapshot at position `i`.
    pub fn get(&self, i: usize) -> (r: ContributionRecord)
        requires
            i < self@.len(),
        ensures
            r == self@[i as int],
    {
        self.snapshots[i]
    }

    /// Appends one immutable snapshot, refusing once the configured
    /// capacity is reached: a capacity policy, not a correctness invariant.
    pub fn append_ledger_snapshot(
        &mut self,
        record: ContributionRecord,
        capacity: u32,
    ) -> (r: Result<(), CampaignError>)
        ensures
            old(self)@.len() >= capacity ==> (
                r == Err::<(), CampaignError>(CampaignError::LedgerCapacityExceeded)
                && final(self)@ == old(self)@
            ),
            old(self)@.len() < capacity ==> (
                r == Ok::<(), CampaignError>(())
                && final(self)@ == old(self)@.push(record)
            ),
    {
        if self.snapshots.len() >= capacity as usize {
            return Err(CampaignError::LedgerCapacityExceeded);
        }
        self.snapshots.push(record);
        Ok(())
    }
}

} // verus!
