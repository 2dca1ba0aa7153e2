//! Crowdfunding-to-liquidity campaign engine.
//!
//! A campaign collects contributions of a base resource toward a funding
//! target. Once the target is reached the campaign is finalized: a protocol
//! fee is extracted, half of the token supply seeds an external liquidity
//! pool, and the other half is distributed pro rata to the contributors.
//! If the target is not reached before the refund deadline, contributors
//! may reclaim their funds.
//!
//! External collaborators (resource custody transfer, token mint/transfer,
//! and the liquidity-provisioning service) are out of scope: the engine only
//! decides which external action comes next and records confirmed outcomes.

pub mod allocation;
pub mod campaign;
pub mod engine;
pub mod errors;
pub mod pool;
pub mod store;
