//! The lifecycle engine: one campaign's state machine over the four
//! operations (initialize, contribute, refund, finalize).
//!
//! External work — moving the base resource in or out of campaign custody,
//! seeding the liquidity pool, transferring tokens — is done by outside
//! collaborators. The engine validates every operation before any state
//! mutation and, for finalization, hands the caller one external action at a
//! time; the caller performs it and confirms success, so that a retried
//! finalization never repeats a confirmed step.

use vstd::prelude::*;
use crate::allocation::{
    allocate, allocated, lemma_allocated_bounds, lemma_allocated_element_le_sum,
    lemma_element_le_sum, lemma_sum_allocated_le, lemma_sum_allocated_push,
    lemma_sum_amounts_nonneg, lemma_sum_amounts_prefix_le, lemma_sum_amounts_push,
    sum_allocated, sum_amounts,
};
use crate::campaign::{Campaign, CampaignConfig, FEE_DIVISOR, create_ok};
use crate::errors::CampaignError;
use crate::store::{
    ContributionRecord, ContributionStore, SnapshotLedger, amounts_of, amount_of,
    has_contributor, index_of, lemma_index_of_unique, unique_contributors,
    upserted_record, upserted_store,
};

verus! {

/// Whether every record has received its distribution transfer.
pub open spec fn all_distributed(s: Seq<ContributionRecord>) -> bool {
    forall|i: int| 0 <= i < s.len() ==> (#[trigger] s[i]).distributed
}

/// Whether `i` is the position of the first record still awaiting its
/// distribution transfer.
pub open spec fn is_first_undistributed(s: Seq<ContributionRecord>, i: int) -> bool {
    &&& 0 <= i < s.len()
    &&& !s[i].distributed
    &&& forall|j: int| 0 <= j < i ==> (#[trigger] s[j]).distributed
}

/// The position of the first record still awaiting its distribution
/// transfer; meaningful only while one exists, and then unique.
pub open spec fn first_undistributed_index(s: Seq<ContributionRecord>) -> int {
    choose|i: int| is_first_undistributed(s, i)
}

/// Any position satisfying `is_first_undistributed` is the one that
/// `first_undistributed_index` names.
pub proof fn lemma_first_undistributed_unique(s: Seq<ContributionRecord>, i: int)
    requires
        is_first_undistributed(s, i),
    ensures
        first_undistributed_index(s) == i,
{
    let j = first_undistributed_index(s);
    assert(is_first_undistributed(s, j));
    if i < j {
        assert(s[i].distributed);
    }
    if j < i {
        assert(s[j].distributed);
    }
}

/// The protocol fee owed at finalization: five percent of the total,
/// rounded down.
pub open spec fn spec_fee(total: int) -> int {
    total / (FEE_DIVISOR as int)
}

/// The half of the supply that seeds the liquidity pool.
pub open spec fn liquidity_tokens(supply: int) -> int {
    supply / 2
}

/// The half of the supply distributed pro rata to contributors: the supply
/// minus the liquidity half, so the two halves always rebuild the supply.
pub open spec fn distribution_pool(supply: int) -> int {
    supply - supply / 2
}

/// The rounding dust of a distribution: what allocating the whole live sum
/// at once yields beyond the individual floor allocations.
pub open spec fn dust_of(s: Seq<ContributionRecord>, pool: int, total: int) -> int {
    allocated(sum_amounts(amounts_of(s)), pool, total)
        - sum_allocated(amounts_of(s), pool, total)
}

/// The token payout of the record at `i`: its floor share of the
/// distribution pool, and, for the last record, additionally the rounding
/// dust, so rounding down never under-distributes the pool.
pub open spec fn payout_of(s: Seq<ContributionRecord>, i: int, supply: int, total: int) -> int {
    let pool = distribution_pool(supply);
    if i == s.len() - 1 {
        allocated(s[i].amount as int, pool, total) + dust_of(s, pool, total)
    } else {
        allocated(s[i].amount as int, pool, total)
    }
}

/// Sum of the payouts of the first `k` records of a distribution.
pub open spec fn sum_payouts_upto(
    s: Seq<ContributionRecord>,
    k: int,
    supply: int,
    total: int,
) -> int
    decreases k,
{
    if k <= 0 {
        0
    } else {
        sum_payouts_upto(s, k - 1, supply, total) + payout_of(s, k - 1, supply, total)
    }
}

/// Sum of the payouts of a whole distribution.
pub open spec fn sum_payouts(s: Seq<ContributionRecord>, supply: int, total: int) -> int {
    sum_payouts_upto(s, s.len() as int, supply, total)
}

proof fn lemma_sum_payouts_prefix(s: Seq<ContributionRecord>, k: int, supply: int, total: int)
    requires
        0 <= k < s.len(),
    ensures
        sum_payouts_upto(s, k, supply, total)
            == sum_allocated(
                amounts_of(s).subrange(0, k),
                distribution_pool(supply),
                total,
            ),
    decreases k,
{
    let pool = distribution_pool(supply);
    if k == 0 {
        assert(amounts_of(s).subrange(0, 0) =~= Seq::<u64>::empty());
    } else {
        lemma_sum_payouts_prefix(s, k - 1, supply, total);
        assert(amounts_of(s).subrange(0, k)
            =~= amounts_of(s).subrange(0, k - 1).push(s[k - 1].amount));
        lemma_sum_allocated_push(
            amounts_of(s).subrange(0, k - 1),
            s[k - 1].amount,
            pool,
            total,
        );
    }
}

/// Exactness of the distribution: because the last record absorbs the
/// rounding dust, the payouts of a full distribution sum to exactly the
/// allocation of the whole live sum — each record rounding down on its own
/// never under-distributes — and that sum never exceeds the distribution
/// pool as long as the live amounts sum to at most the campaign total.
pub proof fn lemma_distribution_exact(s: Seq<ContributionRecord>, supply: u64, total: u64)
    requires
        total > 0,
        s.len() > 0,
        sum_amounts(amounts_of(s)) <= total,
    ensures
        sum_payouts(s, supply as int, total as int)
            == allocated(
                sum_amounts(amounts_of(s)),
                distribution_pool(supply as int),
                total as int,
            ),
        sum_payouts(s, supply as int, total as int)
            <= distribution_pool(supply as int) <= supply,
{
    let pool = distribution_pool(supply as int);
    let last = s.len() - 1;
    lemma_sum_payouts_prefix(s, last, supply as int, total as int);
    assert(amounts_of(s).subrange(0, last).push(s[last].amount) =~= amounts_of(s));
    lemma_sum_allocated_push(
        amounts_of(s).subrange(0, last),
        s[last].amount,
        pool,
        total as int,
    );
    lemma_sum_amounts_nonneg(amounts_of(s));
    lemma_allocated_bounds(sum_amounts(amounts_of(s)), pool, total as int);
}

/// Conservation: under the engine invariant the campaign total never
/// exceeds the target, and always equals the live per-contributor amounts
/// plus everything paid back out; in particular, with nothing refunded the
/// total is exactly the sum of the recorded amounts.
pub proof fn lemma_total_conserved(e: CampaignEngine)
    requires
        e.inv(),
    ensures
        e.campaign.total_contributed <= e.campaign.target,
        sum_amounts(amounts_of(e.store@)) + e.refunded_total == e.campaign.total_contributed,
        e.refunded_total == 0 ==> sum_amounts(amounts_of(e.store@))
            == e.campaign.total_contributed,
{
}

/// Per-contributor ceiling: under the engine invariant no contributor's
/// cumulative recorded amount exceeds the configured cap, whatever the call
/// order or retries that led to the state.
pub proof fn lemma_amounts_capped(e: CampaignEngine, contributor: u64)
    requires
        e.inv(),
    ensures
        0 <= amount_of(e.store@, contributor) <= e.cfg.per_contributor_cap,
{
    if has_contributor(e.store@, contributor) {
        let idx = index_of(e.store@, contributor);
        assert(0 <= idx < e.store@.len() && e.store@[idx].contributor == contributor);
    }
}

/// One external action of the finalization pipeline, to be performed by the
/// caller and then confirmed with `confirm_finalize_step`.
#[derive(Clone, Copy, Debug, PartialEq, Eq, Structural)]
pub enum FinalizeAction {
    /// Transfer the protocol fee out of campaign custody to the fee
    /// recipient.
    PayFee { amount: u64 },
    /// Seed the external liquidity pool with the remaining resource and the
    /// liquidity half of the token supply.
    SeedPool { resource_amount: u64, token_amount: u64 },
    /// Transfer the pro-rata token share of the record at `index` to its
    /// contributor.
    PayContributor { index: usize, contributor: u64, token_amount: u64 },
    /// Nothing external is left; confirming marks the campaign finalized.
    Complete,
}

/// The engine of one campaign: its authoritative ledger, the live
/// per-contributor records, the append-only snapshot ledger, and the
/// progress of the finalization pipeline.
#[derive(Clone, Debug)]
pub struct CampaignEngine {
    /// Deployment configuration, immutable.
    pub cfg: CampaignConfig,
    /// The campaign ledger.
    pub campaign: Campaign,
    /// Live per-contributor records.
    pub store: ContributionStore,
    /// Append-only snapshots, one per accepted contribution.
    pub ledger: SnapshotLedger,
    /// Resource paid back out through refunds; together with the live
    /// records it always accounts exactly for `total_contributed`.
    pub refunded_total: u64,
    /// Whether the finalization fee transfer has been confirmed.
    pub fee_paid: bool,
    /// Whether the liquidity seeding has been confirmed.
    pub pool_seeded: bool,
}

impl CampaignEngine {
    /// The engine invariant: every operation requires and re-establishes it.
    ///
    /// Its heart is conservation — the live per-contributor amounts plus
    /// everything refunded equal `total_contributed`, which never exceeds
    /// the target — together with per-contributor caps, one live record per
    /// contributor, zero-based snapshot sequencing, and the one-way order of
    /// the finalization pipeline.
    pub open spec fn inv(self) -> bool {
        &&& self.campaign.wf(self.cfg)
        &&& unique_contributors(self.store@)
        &&& forall|i: int| 0 <= i < self.store@.len()
            ==> (#[trigger] self.store@[i]).campaign_id == self.campaign.id
        &&& forall|i: int| 0 <= i < self.store@.len()
            ==> (#[trigger] self.store@[i]).amount <= self.cfg.per_contributor_cap
        &&& sum_amounts(amounts_of(self.store@)) + self.refunded_total
            == self.campaign.total_contributed
        &&& self.ledger@.len() == self.campaign.contribution_count
        &&& self.ledger@.len() <= self.cfg.ledger_capacity
        &&& forall|i: int| 0 <= i < self.ledger@.len()
            ==> (#[trigger] self.ledger@[i]).sequence_index == i
        &&& self.pool_seeded ==> self.fee_paid
        &&& self.fee_paid ==> self.campaign.total_contributed == self.campaign.target
        &&& !self.pool_seeded ==> forall|i: int| 0 <= i < self.store@.len()
            ==> !(#[trigger] self.store@[i]).distributed
        &&& self.campaign.is_finalized
            ==> self.fee_paid && self.pool_seeded && all_distributed(self.store@)
    }

    /// Whether `post` carries exactly the state of `pre`: rejected
    /// operations leave the engine untouched.
    pub open spec fn same_state(pre: CampaignEngine, post: CampaignEngine) -> bool {
        &&& post.cfg == pre.cfg
        &&& post.campaign == pre.campaign
        &&& post.store@ == pre.store@
        &&& post.ledger@ == pre.ledger@
        &&& post.refunded_total == pre.refunded_total
        &&& post.fee_paid == pre.fee_paid
        &&& post.pool_seeded == pre.pool_seeded
    }

    /// Opens a campaign: an engine with nothing contributed, no records, no
    /// snapshots and the whole finalization pipeline ahead. Inputs are
    /// validated as `create_ok` says; nothing is constructed on rejection.
    pub fn initialize(
        cfg: CampaignConfig,
        id: u64,
        name: String,
        ticker: String,
        total_supply: u64,
        target: u64,
        decimals: u8,
        now: i64,
    ) -> (r: Result<CampaignEngine, CampaignError>)
        ensures
            r is Ok <==> create_ok(cfg, name@, ticker@, target, now),
            r matches Ok(e) ==> {
                &&& e.inv()
                &&& e.cfg == cfg
                &&& e.campaign == (Campaign {
                    id,
                    name,
                    ticker,
                    total_supply,
                    target,
                    total_contributed: 0,
                    creation_time: now,
                    contribution_count: 0,
                    is_finalized: false,
                    decimals,
                })
                &&& e.store@ =~= Seq::<ContributionRecord>::empty()
                &&& e.ledger@ =~= Seq::<ContributionRecord>::empty()
                &&& e.refunded_total == 0
                &&& !e.fee_paid
                &&& !e.pool_seeded
            },
            r is Err ==> r == Err::<CampaignEngine, CampaignError>(CampaignError::InvalidParameter),
    {
        let campaign = match Campaign::create_campaign(
            &cfg, id, name, ticker, total_supply, target, decimals, now,
        ) {
            Ok(c) => c,
            Err(e) => {
                return Err(e);
            },
        };
        let engine = CampaignEngine {
            cfg,
            campaign,
            store: ContributionStore::new(),
            ledger: SnapshotLedger::new(),
            refunded_total: 0,
            fee_paid: false,
            pool_seeded: false,
        };
        Ok(engine)
    }

    /// The validation a contribution must pass, in checking order: the
    /// campaign must still be open, the contributor's cumulative amount must
    /// stay within the per-contributor ceiling (checked before the campaign
    /// target), the total must stay within the target, and the snapshot
    /// ledger must have room. All checks precede any mutation.
    pub open spec fn contribute_check_spec(
        self,
        contributor: u64,
        amount: u64,
    ) -> Result<(), CampaignError> {
        if self.campaign.is_finalized {
            Err(CampaignError::AlreadyFinalized)
        } else if amount_of(self.store@, contributor) + amount > self.cfg.per_contributor_cap {
            Err(CampaignError::PerContributorCapExceeded)
        } else if self.campaign.total_contributed + amount > self.campaign.target {
            Err(CampaignError::TargetExceeded)
        } else if self.campaign.contribution_count >= self.cfg.ledger_capacity {
            Err(CampaignError::LedgerCapacityExceeded)
        } else {
            Ok(())
        }
    }

    /// Validates a contribution without touching any state: the caller
    /// checks first, then performs the custody transfer, and records the
    /// contribution with `contribute` only once the transfer succeeded.
    pub fn check_contribution(&self, contributor: u64, amount: u64) -> (r: Result<
        (),
        CampaignError,
    >)
        requires
            self.inv(),
        ensures
            r == self.contribute_check_spec(contributor, amount),
    {
        if self.campaign.is_finalized {
            return Err(CampaignError::AlreadyFinalized);
        }
        let prior: u64 = match self.store.find(contributor) {
            Some(i) => {
                let rec = self.store.get(i);
                proof {
                    lemma_index_of_unique(self.store@, contributor, i as int);
                }
                rec.amount
            },
            None => 0,
        };
        if amount > self.cfg.per_contributor_cap
            || prior > self.cfg.per_contributor_cap - amount {
            return Err(CampaignError::PerContributorCapExceeded);
        }
        if amount > self.campaign.target
            || self.campaign.total_contributed > self.campaign.target - amount {
            return Err(CampaignError::TargetExceeded);
        }
        if self.campaign.contribution_count >= self.cfg.ledger_capacity {
            return Err(CampaignError::LedgerCapacityExceeded);
        }
        Ok(())
    }

    /// Records an accepted contribution: validates as
    /// `contribute_check_spec` says, and only then updates the contributor's
    /// live record, appends the snapshot, and moves the campaign total and
    /// sequence counter, all as one unit. The caller performs the custody
    /// transfer between `check_contribution` and this call; on any rejection
    /// the engine is untouched.
    pub fn contribute(&mut self, contributor: u64, amount: u64, now: i64) -> (r: Result<
        ContributionRecord,
        CampaignError,
    >)
        requires
            old(self).inv(),
        ensures
            final(self).inv(),
            old(self).contribute_check_spec(contributor, amount) matches Err(e) ==> (
                r == Err::<ContributionRecord, CampaignError>(e)
                && CampaignEngine::same_state(*old(self), *final(self))
            ),
            old(self).contribute_check_spec(contributor, amount) is Ok ==> {
                let rec = upserted_record(
                    old(self).store@, contributor, old(self).campaign, amount, now);
                &&& r == Ok::<ContributionRecord, CampaignError>(rec)
                &&& final(self).store@ == upserted_store(
                    old(self).store@, contributor, old(self).campaign, amount, now)
                &&& final(self).ledger@ == old(self).ledger@.push(rec)
                &&& final(self).campaign == (Campaign {
                    total_contributed: (old(self).campaign.total_contributed + amount) as u64,
                    contribution_count: (old(self).campaign.contribution_count + 1) as u32,
                    ..old(self).campaign
                })
                &&& final(self).cfg == old(self).cfg
                &&& final(self).refunded_total == old(self).refunded_total
                &&& final(self).fee_paid == old(self).fee_paid
                &&& final(self).pool_seeded == old(self).pool_seeded
            },
    {
        if let Err(e) = self.check_contribution(contributor, amount) {
            return Err(e);
        }
        let ghost pre = *self;
        proof {
            if has_contributor(pre.store@, contributor) {
                let idx = index_of(pre.store@, contributor);
                assert(amounts_of(pre.store@)[idx] == pre.store@[idx].amount);
                lemma_element_le_sum(amounts_of(pre.store@), idx);
            }
            lemma_sum_amounts_nonneg(amounts_of(pre.store@));
        }
        let rec = match self.store.upsert_contribution(
            contributor,
            &self.campaign,
            self.cfg.per_contributor_cap,
            amount,
            now,
        ) {
            Ok(rec) => rec,
            Err(e) => {
                proof {
                    assert(false);
                }
                return Err(e);
            },
        };
        match self.ledger.append_ledger_snapshot(rec, self.cfg.ledger_capacity) {
            Ok(()) => (),
            Err(e) => {
                proof {
                    assert(false);
                }
                return Err(e);
            },
        };
        match self.campaign.record_contribution(amount) {
            Ok(()) => (),
            Err(e) => {
                proof {
                    assert(false);
                }
                return Err(e);
            },
        };
        proof {
            let post = *self;
            assert forall|i: int| 0 <= i < post.store@.len()
                implies (#[trigger] post.store@[i]).campaign_id == post.campaign.id by {
                if has_contributor(pre.store@, contributor) {
                    assert(post.store@[i] == pre.store@.update(
                        index_of(pre.store@, contributor),
                        upserted_record(pre.store@, contributor, pre.campaign, amount, now),
                    )[i]);
                }
            }
            if !post.pool_seeded {
                assert forall|i: int| 0 <= i < post.store@.len()
                    implies !(#[trigger] post.store@[i]).distributed by {}
            }
            assert(post.inv());
        }
        Ok(rec)
    }

    /// What a refund request would yield, in checking order: the expiry
    /// predicate must hold (the refund window has passed and the target was
    /// not reached), and the contributor must have a positive recorded
    /// amount; then the full recorded amount is owed back, exactly once.
    pub open spec fn refund_check_spec(
        self,
        contributor: u64,
        now: i64,
    ) -> Result<u64, CampaignError> {
        if !self.campaign.refund_open_spec(self.cfg, now) {
            Err(CampaignError::RefundNotAvailable)
        } else if amount_of(self.store@, contributor) == 0 {
            Err(CampaignError::NoContributionToRefund)
        } else {
            Ok(amount_of(self.store@, contributor) as u64)
        }
    }

    /// The amount a refund would pay back, without touching any state: the
    /// caller checks first, performs the custody transfer back to the
    /// contributor, and zeroes the record with `refund` only once the
    /// transfer succeeded.
    pub fn refund_amount_due(&self, contributor: u64, now: i64) -> (r: Result<
        u64,
        CampaignError,
    >)
        requires
            self.inv(),
        ensures
            r == self.refund_check_spec(contributor, now),
    {
        if !self.campaign.refund_open(&self.cfg, now) {
            return Err(CampaignError::RefundNotAvailable);
        }
        match self.store.find(contributor) {
            Some(i) => {
                let rec = self.store.get(i);
                proof {
                    lemma_index_of_unique(self.store@, contributor, i as int);
                }
                if rec.amount == 0 {
                    Err(CampaignError::NoContributionToRefund)
                } else {
                    Ok(rec.amount)
                }
            },
            None => Err(CampaignError::NoContributionToRefund),
        }
    }

    /// Pays a contributor back: validates as `refund_check_spec` says, and
    /// only then zeroes the recorded amount in place, keeping the record for
    /// audit and accounting what left under `refunded_total`. Idempotent: a
    /// second call finds nothing recorded and fails cleanly with
    /// `NoContributionToRefund` rather than double-paying.
    pub fn refund(&mut self, contributor: u64, now: i64) -> (r: Result<u64, CampaignError>)
        requires
            old(self).inv(),
        ensures
            final(self).inv(),
            old(self).refund_check_spec(contributor, now) matches Err(e) ==> (
                r == Err::<u64, CampaignError>(e)
                && CampaignEngine::same_state(*old(self), *final(self))
            ),
            old(self).refund_check_spec(contributor, now) matches Ok(amount) ==> {
                &&& r == Ok::<u64, CampaignError>(amount)
                &&& final(self).store@ == old(self).store@.update(
                    index_of(old(self).store@, contributor),
                    (ContributionRecord {
                        amount: 0,
                        ..old(self).store@[index_of(old(self).store@, contributor)]
                    }),
                )
                &&& final(self).refunded_total == old(self).refunded_total + amount
                &&& final(self).campaign == old(self).campaign
                &&& final(self).ledger@ == old(self).ledger@
                &&& final(self).cfg == old(self).cfg
                &&& final(self).fee_paid == old(self).fee_paid
                &&& final(self).pool_seeded == old(self).pool_seeded
            },
    {
        if !self.campaign.refund_open(&self.cfg, now) {
            return Err(CampaignError::RefundNotAvailable);
        }
        let ghost pre = *self;
        proof {
            if has_contributor(pre.store@, contributor) {
                let idx = index_of(pre.store@, contributor);
                assert(amounts_of(pre.store@)[idx] == pre.store@[idx].amount);
                lemma_element_le_sum(amounts_of(pre.store@), idx);
            }
            lemma_sum_amounts_nonneg(amounts_of(pre.store@));
        }
        let amount = match self.store.clear_contribution(contributor) {
            Ok(amount) => amount,
            Err(e) => {
                return Err(e);
            },
        };
        self.refunded_total = self.refunded_total + amount;
        proof {
            let post = *self;
            let idx = index_of(pre.store@, contributor);
            assert forall|i: int| 0 <= i < post.store@.len()
                implies (#[trigger] post.store@[i]).campaign_id == post.campaign.id by {
                assert(post.store@[i] == pre.store@.update(
                    idx,
                    (ContributionRecord { amount: 0, ..pre.store@[idx] }),
                )[i]);
            }
            assert(post.inv());
        }
        Ok(amount)
    }

    /// The token payout owed to the record at `i` during distribution.
    ///
    /// The last record also receives the rounding dust, so the payouts of a
    /// full distribution sum to exactly the allocation of the whole live
    /// sum — never more than the distribution pool.
    fn payout_at(&self, i: usize) -> (tokens: u64)
        requires
            self.inv(),
            self.campaign.total_contributed >= self.campaign.target,
            i < self.store@.len(),
        ensures
            tokens == payout_of(
                self.store@,
                i as int,
                self.campaign.total_supply as int,
                self.campaign.total_contributed as int,
            ),
    {
        let total = self.campaign.total_contributed;
        let pool = self.campaign.total_supply - self.campaign.total_supply / 2;
        let ghost s = self.store@;
        proof {
            lemma_sum_amounts_nonneg(amounts_of(s));
            assert(amounts_of(s)[i as int] == s[i as int].amount);
            lemma_element_le_sum(amounts_of(s), i as int);
        }
        let rec = self.store.get(i);
        let base = allocate(rec.amount, pool, total);
        let n = self.store.len();
        if i + 1 < n {
            return base;
        }
        // `i` is the last record: add the rounding dust.
        let mut live: u64 = 0;
        let mut allocs: u64 = 0;
        let mut j: usize = 0;
        proof {
            assert(amounts_of(s).subrange(0, 0) =~= Seq::<u64>::empty());
        }
        while j < n
            invariant
                self.inv(),
                n == s.len(),
                s == self.store@,
                total == self.campaign.total_contributed,
                total >= self.campaign.target > 0,
                pool == distribution_pool(self.campaign.total_supply as int),
                0 <= pool <= self.campaign.total_supply,
                j <= n,
                live == sum_amounts(amounts_of(s).subrange(0, j as int)),
                allocs == sum_allocated(amounts_of(s).subrange(0, j as int), pool as int, total as int),
            decreases n - j,
        {
            let ghost prefix = amounts_of(s).subrange(0, j as int);
            proof {
                assert(amounts_of(s)[j as int] == s[j as int].amount);
                lemma_element_le_sum(amounts_of(s), j as int);
                assert(amounts_of(s).subrange(0, j + 1) =~= prefix.push(s[j as int].amount));
                lemma_sum_amounts_push(prefix, s[j as int].amount);
                lemma_sum_amounts_prefix_le(amounts_of(s), j + 1);
                lemma_sum_amounts_nonneg(amounts_of(s));
                lemma_sum_allocated_push(prefix, s[j as int].amount, pool as int, total as int);
                lemma_sum_allocated_le(prefix.push(s[j as int].amount), pool as int, total as int);
                lemma_allocated_bounds(
                    sum_amounts(prefix.push(s[j as int].amount)),
                    pool as int,
                    total as int,
                );
            }
            let r = self.store.get(j);
            live = live + r.amount;
            allocs = allocs + allocate(r.amount, pool, total);
            j = j + 1;
        }
        proof {
            assert(amounts_of(s).subrange(0, n as int) =~= amounts_of(s));
            lemma_sum_allocated_le(amounts_of(s), pool as int, total as int);
            lemma_allocated_bounds(sum_amounts(amounts_of(s)), pool as int, total as int);
            lemma_allocated_element_le_sum(amounts_of(s), i as int, pool as int, total as int);
        }
        let whole = allocate(live, pool, total);
        let dust = whole - allocs;
        base + dust
    }

    /// The next external action of the finalization pipeline, deciding
    /// nothing twice: the fee transfer first, then the liquidity seeding,
    /// then one pro-rata token transfer per record in order, then
    /// `Complete`. Finalization is owed exactly when the target has been
    /// reached and the campaign is not already finalized.
    pub fn finalize(&self) -> (r: Result<FinalizeAction, CampaignError>)
        requires
            self.inv(),
        ensures
            r is Err <==> self.campaign.is_finalized
                || self.campaign.total_contributed < self.campaign.target,
            self.campaign.is_finalized ==> r == Err::<FinalizeAction, CampaignError>(
                CampaignError::AlreadyFinalized),
            !self.campaign.is_finalized
                && self.campaign.total_contributed < self.campaign.target
                ==> r == Err::<FinalizeAction, CampaignError>(CampaignError::TargetNotReached),
            !self.campaign.is_finalized
                && self.campaign.total_contributed >= self.campaign.target
                && !self.fee_paid
                ==> r == Ok::<FinalizeAction, CampaignError>(FinalizeAction::PayFee {
                    amount: spec_fee(self.campaign.total_contributed as int) as u64,
                }),
            !self.campaign.is_finalized && self.fee_paid && !self.pool_seeded
                ==> r == Ok::<FinalizeAction, CampaignError>(FinalizeAction::SeedPool {
                    resource_amount: (self.campaign.total_contributed
                        - spec_fee(self.campaign.total_contributed as int)) as u64,
                    token_amount: liquidity_tokens(self.campaign.total_supply as int) as u64,
                }),
            !self.campaign.is_finalized && self.pool_seeded
                && !all_distributed(self.store@)
                ==> (r matches Ok(a) && a matches FinalizeAction::PayContributor {
                    index, contributor, token_amount,
                } && is_first_undistributed(self.store@, index as int)
                    && index as int == first_undistributed_index(self.store@)
                    && contributor == self.store@[index as int].contributor
                    && token_amount == payout_of(
                        self.store@,
                        index as int,
                        self.campaign.total_supply as int,
                        self.campaign.total_contributed as int,
                    )),
            !self.campaign.is_finalized && self.pool_seeded && all_distributed(self.store@)
                ==> r == Ok::<FinalizeAction, CampaignError>(FinalizeAction::Complete),
    {
        if self.campaign.is_finalized {
            return Err(CampaignError::AlreadyFinalized);
        }
        if self.campaign.total_contributed < self.campaign.target {
            return Err(CampaignError::TargetNotReached);
        }
        if !self.fee_paid {
            return Ok(FinalizeAction::PayFee {
                amount: self.campaign.total_contributed / FEE_DIVISOR,
            });
        }
        if !self.pool_seeded {
            let fee = self.campaign.total_contributed / FEE_DIVISOR;
            proof {
                vstd::arithmetic::div_mod::lemma_div_nonincreasing(
                    self.campaign.total_contributed as int,
                    FEE_DIVISOR as int,
                );
                vstd::arithmetic::div_mod::lemma_div_pos_is_pos(
                    self.campaign.total_contributed as int,
                    FEE_DIVISOR as int,
                );
            }
            return Ok(FinalizeAction::SeedPool {
                resource_amount: self.campaign.total_contributed - fee,
                token_amount: self.campaign.total_supply / 2,
            });
        }
        let n = self.store.len();
        let mut i: usize = 0;
        while i < n
            invariant
                self.inv(),
                n == self.store@.len(),
                i <= n,
                !self.campaign.is_finalized,
                self.fee_paid,
                self.pool_seeded,
                self.campaign.total_contributed >= self.campaign.target,
                forall|j: int| 0 <= j < i ==> (#[trigger] self.store@[j]).distributed,
            decreases n - i,
        {
            let rec = self.store.get(i);
            if !rec.distributed {
                proof {
                    lemma_first_undistributed_unique(self.store@, i as int);
                }
                let tokens = self.payout_at(i);
                return Ok(FinalizeAction::PayContributor {
                    index: i,
                    contributor: rec.contributor,
                    token_amount: tokens,
                });
            }
            i = i + 1;
        }
        Ok(FinalizeAction::Complete)
    }

    /// Confirms that the external action `finalize` last asked for has
    /// succeeded, and advances the pipeline by exactly that one step: the
    /// fee is accounted paid, the pool accounted seeded, the first
    /// undistributed record marked distributed, or — once nothing external
    /// is left — the campaign marked finalized, one way and exactly once.
    /// Rejections leave the engine untouched, so a failed external action
    /// can be retried without repeating a confirmed step.
    pub fn confirm_finalize_step(&mut self) -> (r: Result<(), CampaignError>)
        requires
            old(self).inv(),
        ensures
            final(self).inv(),
            r is Err <==> old(self).campaign.is_finalized
                || old(self).campaign.total_contributed < old(self).campaign.target,
            old(self).campaign.is_finalized ==> (
                r == Err::<(), CampaignError>(CampaignError::AlreadyFinalized)
                && CampaignEngine::same_state(*old(self), *final(self))
            ),
            !old(self).campaign.is_finalized
                && old(self).campaign.total_contributed < old(self).campaign.target
                ==> (
                r == Err::<(), CampaignError>(CampaignError::TargetNotReached)
                && CampaignEngine::same_state(*old(self), *final(self))
            ),
            !old(self).campaign.is_finalized
                && old(self).campaign.total_contributed >= old(self).campaign.target
                && !old(self).fee_paid
                ==> {
                &&& r == Ok::<(), CampaignError>(())
                &&& final(self).fee_paid
                &&& final(self).pool_seeded == old(self).pool_seeded
                &&& final(self).campaign == old(self).campaign
                &&& final(self).store@ == old(self).store@
                &&& final(self).ledger@ == old(self).ledger@
                &&& final(self).refunded_total == old(self).refunded_total
                &&& final(self).cfg == old(self).cfg
            },
            !old(self).campaign.is_finalized && old(self).fee_paid && !old(self).pool_seeded
                ==> {
                &&& r == Ok::<(), CampaignError>(())
                &&& final(self).pool_seeded
                &&& final(self).fee_paid
                &&& final(self).campaign == old(self).campaign
                &&& final(self).store@ == old(self).store@
                &&& final(self).ledger@ == old(self).ledger@
                &&& final(self).refunded_total == old(self).refunded_total
                &&& final(self).cfg == old(self).cfg
            },
            !old(self).campaign.is_finalized && old(self).pool_seeded
                && !all_distributed(old(self).store@)
                ==> {
                let idx = first_undistributed_index(old(self).store@);
                &&& r == Ok::<(), CampaignError>(())
                &&& is_first_undistributed(old(self).store@, idx)
                &&& final(self).store@ == old(self).store@.update(idx, (ContributionRecord {
                    distributed: true,
                    ..old(self).store@[idx]
                }))
                &&& final(self).campaign == old(self).campaign
                &&& final(self).ledger@ == old(self).ledger@
                &&& final(self).refunded_total == old(self).refunded_total
                &&& final(self).fee_paid == old(self).fee_paid
                &&& final(self).pool_seeded == old(self).pool_seeded
                &&& final(self).cfg == old(self).cfg
            },
            !old(self).campaign.is_finalized && old(self).pool_seeded
                && all_distributed(old(self).store@)
                ==> {
                &&& r == Ok::<(), CampaignError>(())
                &&& final(self).campaign == (Campaign {
                    is_finalized: true,
                    ..old(self).campaign
                })
                &&& final(self).store@ == old(self).store@
                &&& final(self).ledger@ == old(self).ledger@
                &&& final(self).refunded_total == old(self).refunded_total
                &&& final(self).fee_paid == old(self).fee_paid
                &&& final(self).pool_seeded == old(self).pool_seeded
                &&& final(self).cfg == old(self).cfg
            },
    {
        if self.campaign.is_finalized {
            return Err(CampaignError::AlreadyFinalized);
        }
        if self.campaign.total_contributed < self.campaign.target {
            return Err(CampaignError::TargetNotReached);
        }
        if !self.fee_paid {
            self.fee_paid = true;
            return Ok(());
        }
        if !self.pool_seeded {
            self.pool_seeded = true;
            return Ok(());
        }
        let ghost pre = *self;
        let n = self.store.len();
        let mut i: usize = 0;
        while i < n
            invariant
                pre == *old(self),
                *self == pre,
                pre.inv(),
                n == pre.store@.len(),
                i <= n,
                !pre.campaign.is_finalized,
                pre.fee_paid,
                pre.pool_seeded,
                pre.campaign.total_contributed >= pre.campaign.target,
                forall|j: int| 0 <= j < i ==> (#[trigger] pre.store@[j]).distributed,
            decreases n - i,
        {
            let rec = self.store.get(i);
            if !rec.distributed {
                proof {
                    lemma_first_undistributed_unique(pre.store@, i as int);
                }
                self.store.mark_distributed(i);
                proof {
                    let post = *self;
                    assert forall|k: int| 0 <= k < post.store@.len()
                        implies (#[trigger] post.store@[k]).contributor
                            == pre.store@[k].contributor
                            && post.store@[k].campaign_id == pre.store@[k].campaign_id
                            && post.store@[k].amount == pre.store@[k].amount by {
                        assert(post.store@[k] == pre.store@.update(i as int, (ContributionRecord {
                            distributed: true,
                            ..pre.store@[i as int]
                        }))[k]);
                    }
                    assert(unique_contributors(post.store@)) by {
                        assert forall|p: int, q: int| 0 <= p < q < post.store@.len()
                            implies post.store@[p].contributor != post.store@[q].contributor by {
                            assert(pre.store@[p].contributor != pre.store@[q].contributor);
                        }
                    }
                    assert(amounts_of(post.store@) =~= amounts_of(pre.store@));
                    assert(post.inv());
                }
                return Ok(());
            }
            i = i + 1;
        }
        match self.campaign.mark_finalized() {
            Ok(()) => (),
            Err(e) => {
                proof {
                    assert(false);
                }
                return Err(e);
            },
        };
        Ok(())
    }
}

} // verus!
