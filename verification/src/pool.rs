//! The record of the liquidity pool seeded at finalization.

use vstd::prelude::*;

verus! {

/// Post-finalize market-making reserve, owned by one campaign. The pool
/// itself lives with the external liquidity-provisioning collaborator; this
/// record keeps what was confirmed seeded into it.
#[derive(Clone, Copy, Debug, PartialEq, Eq, Structural)]
pub struct LiquidityPool {
    /// The campaign this pool belongs to.
    pub campaign_id: u64,
    /// Base resource units held in reserve.
    pub resource_reserve: u64,
    /// Token units held in reserve.
    pub token_reserve: u64,
    /// Liquidity shares issued against the reserves.
    pub total_shares: u64,
}

impl LiquidityPool {
    /// An empty pool owned by campaign `campaign_id`.
    pub fn new(campaign_id: u64) -> (r: LiquidityPool)
        ensures
            r == (LiquidityPool {
                campaign_id,
                resource_reserve: 0,
                token_reserve: 0,
                total_shares: 0,
            }),
    {
        LiquidityPool { campaign_id, resource_reserve: 0, token_reserve: 0, total_shares: 0 }
    }

    /// Records the reserves confirmed by the external liquidity seeding; a
    /// pool is seeded at most once, at finalization.
    pub fn seed(&mut self, resource_amount: u64, token_amount: u64)
        requires
            old(self).resource_reserve == 0,
            old(self).token_reserve == 0,
        ensures
            *final(self) == (LiquidityPool {
                resource_reserve: resource_amount,
                token_reserve: token_amount,
                ..*old(self)
            }),
    {
        self.resource_reserve = resource_amount;
        self.token_reserve = token_amount;
    }
}

} // verus!
