//! Escrow ledger and settlement engine for goal-based crowdfunding campaigns.
//!
//! A campaign is an explicitly owned [`CrowdfundContract`] value. Each operation
//! checks its gates, then either changes nothing and says why ([`Failure`]), or
//! updates the campaign and returns the transfers that the host must carry out.

pub mod types;
pub mod ledger;
pub mod campaign;
pub mod settlement;
pub mod extensions;
pub mod views;
pub mod factory;
pub mod laws;

pub use types::{
    Abort, Address, CampaignStats, ContractError, Entry, Failure, PlatformConfig, RewardTier,
    RoadmapItem, Status,
};
pub use ledger::Ledger;
pub use campaign::{CrowdfundContract, Stamp, BPS_DENOMINATOR, CONTRIBUTION_COOLDOWN};
pub use views::CONTRACT_VERSION;
pub use factory::FactoryContract;
