use vstd::prelude::*;

verus! {

/// Every failure of a campaign operation, surfaced to the caller with its
/// kind; no error is silently swallowed.
///
/// `TransferFailed` and `LiquidityProvisioningFailed` are reserved for the
/// caller that drives the external custody and liquidity collaborators: the
/// engine itself never performs a transfer, so it never returns them.
#[derive(Clone, Copy, Debug, PartialEq, Eq, Structural)]
pub enum CampaignError {
    /// A construction input was rejected (zero or oversized target,
    /// oversized name or ticker, negative times).
    InvalidParameter,
    /// A checked arithmetic operation would overflow its representable range.
    ArithmeticOverflow,
    /// The contribution would push the campaign total past its target.
    TargetExceeded,
    /// The contribution would push one contributor past the per-contributor
    /// ceiling.
    PerContributorCapExceeded,
    /// The contributor has no recorded amount left to refund.
    NoContributionToRefund,
    /// The campaign has already been finalized.
    AlreadyFinalized,
    /// The append-only snapshot ledger is at its configured capacity.
    LedgerCapacityExceeded,
    /// Finalization was requested before the funding target was reached.
    TargetNotReached,
    /// Refund was requested while the campaign is not refund-eligible.
    RefundNotAvailable,
    /// An external custody or token transfer reported failure.
    TransferFailed,
    /// The external liquidity-provisioning collaborator reported failure.
    LiquidityProvisioningFailed,
}

} // verus!
