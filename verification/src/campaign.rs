//! The authoritative record of one campaign: targets, totals, lifecycle state.

use vstd::prelude::*;
use crate::errors::CampaignError;
use vstd::string::StrSliceExecFns;

verus! {

/// Longest accepted campaign name, in characters.
pub const MAX_NAME_LENGTH: usize = 32;

/// Longest accepted campaign ticker, in characters.
pub const MAX_TICKER_LENGTH: usize = 10;

/// Divisor of the fixed protocol fee taken at finalization: one twentieth,
/// that is five percent.
pub const FEE_DIVISOR: u64 = 20;

/// Deployment-chosen campaign limits. The per-contributor ceiling, the
/// campaign target ceiling, the refund window and the snapshot-ledger
/// capacity are configuration, not hard-coded rules.
#[derive(Clone, Copy, Debug)]
pub struct CampaignConfig {
    /// Largest funding target a campaign may be created with.
    pub target_ceiling: u64,
    /// Ceiling on the cumulative amount one contributor may put in, for the
    /// lifetime of the campaign and independent of the campaign target.
    pub per_contributor_cap: u64,
    /// Seconds after creation during which the campaign may still be funded;
    /// once the window has passed an unfunded campaign becomes refundable.
    pub refund_window: i64,
    /// Bound on the number of snapshots the append-only ledger may hold, and
    /// with it on the number of accepted contributions.
    pub ledger_capacity: u32,
}

/// One funding round with a fixed target and token supply.
#[derive(Clone, Debug)]
pub struct Campaign {
    /// Unique identity, immutable after creation.
    pub id: u64,
    /// Display name, immutable, at most `MAX_NAME_LENGTH` characters.
    pub name: String,
    /// Ticker symbol, immutable, at most `MAX_TICKER_LENGTH` characters.
    pub ticker: String,
    /// Total token units earmarked for this campaign, immutable.
    pub total_supply: u64,
    /// Funding goal in base resource units, immutable.
    pub target: u64,
    /// Resource contributed so far; never exceeds `target` and never
    /// decreases while the campaign is open.
    pub total_contributed: u64,
    /// Creation timestamp, seconds, immutable.
    pub creation_time: i64,
    /// Sequence counter for contribution indices; incremented by exactly one
    /// per accepted contribution and never reused.
    pub contribution_count: u32,
    /// One-way flag: set exactly once when finalization completes.
    pub is_finalized: bool,
    /// Token decimal places, immutable.
    pub decimals: u8,
}

/// Whether campaign-creation inputs are accepted.
pub open spec fn create_ok(
    cfg: CampaignConfig,
    name: Seq<char>,
    ticker: Seq<char>,
    target: u64,
    now: i64,
) -> bool {
    &&& 0 < target <= cfg.target_ceiling
    &&& name.len() <= MAX_NAME_LENGTH
    &&& ticker.len() <= MAX_TICKER_LENGTH
    &&& 0 <= now
    &&& 0 <= cfg.refund_window
    &&& now + cfg.refund_window <= i64::MAX
}

impl Campaign {
    /// Structural validity of one campaign record under its configuration.
    pub open spec fn wf(self, cfg: CampaignConfig) -> bool {
        &&& 0 < self.target <= cfg.target_ceiling
        &&& self.total_contributed <= self.target
        &&& self.name@.len() <= MAX_NAME_LENGTH
        &&& self.ticker@.len() <= MAX_TICKER_LENGTH
        &&& 0 <= self.creation_time
        &&& 0 <= cfg.refund_window
        &&& self.creation_time + cfg.refund_window <= i64::MAX
    }

    /// The lazily evaluated expiry predicate: refunds are open once the
    /// refund window has passed and the target has not been reached. Expiry
    /// is computed, never stored.
    pub open spec fn refund_open_spec(self, cfg: CampaignConfig, now: i64) -> bool {
        now > self.creation_time + cfg.refund_window
            && self.total_contributed < self.target
    }

    /// Creates a campaign with nothing contributed, a zeroed sequence
    /// counter and the finalization flag clear; rejects a zero target, a
    /// target above the configured ceiling, an oversized name or ticker,
    /// and times under which the refund deadline would be meaningless.
    pub fn create_campaign(
        cfg: &CampaignConfig,
        id: u64,
        name: String,
        ticker: String,
        total_supply: u64,
        target: u64,
        decimals: u8,
        now: i64,
    ) -> (r: Result<Campaign, CampaignError>)
        ensures
            r is Ok <==> create_ok(*cfg, name@, ticker@, target, now),
            r matches Ok(c) ==> c == (Campaign {
                id,
                name,
                ticker,
                total_supply,
                target,
                total_contributed: 0,
                creation_time: now,
                contribution_count: 0,
                is_finalized: false,
                decimals,
            }),
            r matches Ok(c) ==> c.wf(*cfg),
            r is Err ==> r == Err::<Campaign, CampaignError>(CampaignError::InvalidParameter),
    {
        if target == 0 || target > cfg.target_ceiling {
            return Err(CampaignError::InvalidParameter);
        }
        if name.as_str().unicode_len() > MAX_NAME_LENGTH {
            return Err(CampaignError::InvalidParameter);
        }
        if ticker.as_str().unicode_len() > MAX_TICKER_LENGTH {
            return Err(CampaignError::InvalidParameter);
        }
        if now < 0 || cfg.refund_window < 0 {
            return Err(CampaignError::InvalidParameter);
        }
        if now > i64::MAX - cfg.refund_window {
            return Err(CampaignError::InvalidParameter);
        }
        Ok(Campaign {
            id,
            name,
            ticker,
            total_supply,
            target,
            total_contributed: 0,
            creation_time: now,
            contribution_count: 0,
            is_finalized: false,
            decimals,
        })
    }

    /// Accepts `amount` into the running total and advances the sequence
    /// counter, both as one unit; rejects a contribution that would push the
    /// total past the target, and a sequence counter that can no longer be
    /// advanced.
    pub fn record_contribution(&mut self, amount: u64) -> (r: Result<(), CampaignError>)
        ensures
            old(self).total_contributed + amount > old(self).target ==> (
                r == Err::<(), CampaignError>(CampaignError::TargetExceeded)
                && *final(self) == *old(self)
            ),
            old(self).total_contributed + amount <= old(self).target
                && old(self).contribution_count == u32::MAX ==> (
                r == Err::<(), CampaignError>(CampaignError::ArithmeticOverflow)
                && *final(self) == *old(self)
            ),
            old(self).total_contributed + amount <= old(self).target
                && old(self).contribution_count < u32::MAX ==> (
                r == Ok::<(), CampaignError>(())
                && *final(self) == (Campaign {
                    total_contributed: (old(self).total_contributed + amount) as u64,
                    contribution_count: (old(self).contribution_count + 1) as u32,
                    ..*old(self)
                })
            ),
    {
        if amount > self.target || self.total_contributed > self.target - amount {
            return Err(CampaignError::TargetExceeded);
        }
        if self.contribution_count == u32::MAX {
            return Err(CampaignError::ArithmeticOverflow);
        }
        self.total_contributed = self.total_contributed + amount;
        self.contribution_count = self.contribution_count + 1;
        Ok(())
    }

    /// Sets the one-way finalization flag; rejects a second call, so
    /// finalization can never re-execute after success.
    pub fn mark_finalized(&mut self) -> (r: Result<(), CampaignError>)
        ensures
            old(self).is_finalized ==> (
                r == Err::<(), CampaignError>(CampaignError::AlreadyFinalized)
                && *final(self) == *old(self)
            ),
            !old(self).is_finalized ==> (
                r == Ok::<(), CampaignError>(())
                && *final(self) == (Campaign { is_finalized: true, ..*old(self) })
            ),
    {
        if self.is_finalized {
            return Err(CampaignError::AlreadyFinalized);
        }
        self.is_finalized = true;
        Ok(())
    }

    /// Whether the expiry predicate holds now: the refund window has passed
    /// and the campaign has not reached its target.
    pub fn refund_open(&self, cfg: &CampaignConfig, now: i64) -> (r: bool)
        requires
            self.wf(*cfg),
        ensures
            r == self.refund_open_spec(*cfg, now),
    {
        now > self.creation_time + cfg.refund_window
            && self.total_contributed < self.target
    }
}

} // verus!
