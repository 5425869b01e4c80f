use vstd::prelude::*;

verus! {

/// An account taking part in a campaign: a contributor, a pledger, the creator,
/// a platform or a deployed campaign.
#[derive(Clone, Copy, Debug, PartialEq, Eq, Hash, Structural)]
pub struct Address(pub u64);

/// The lifecycle state of a campaign. Every state but `Active` is final.
#[derive(Clone, Copy, Debug, PartialEq, Eq, Structural)]
pub enum Status {
    /// The campaign accepts contributions and has not been settled.
    Active,
    /// The raised funds were paid out to the creator.
    Successful,
    /// The goal was missed and the contributors were paid back.
    Refunded,
    /// The creator called the campaign off and the contributors were paid back.
    Cancelled,
}

/// Conditions that a caller can correct by retrying with other arguments or later.
#[derive(Clone, Copy, Debug, PartialEq, Eq, PartialOrd, Ord, Hash, Structural)]
pub enum ContractError {
    AlreadyInitialized,
    CampaignEnded,
    CampaignStillActive,
    GoalNotReached,
    GoalReached,
    Overflow,
    InvalidHardCap,
    HardCapExceeded,
    RateLimitExceeded,
    ContractPaused,
    InvalidLimit,
}

/// Broken preconditions and unauthorized callers: the call is aborted as a whole.
#[derive(Clone, Copy, Debug, PartialEq, Eq, Hash, Structural)]
pub enum Abort {
    /// The campaign is no longer `Active`.
    NotActive,
    /// The caller is not the principal that the operation belongs to.
    NotAuthorized,
    /// The amount is below the campaign's minimum.
    BelowMinimum,
    /// A platform fee above 10 000 basis points.
    FeeTooHigh,
    /// The whitelist is in use and the contributor is not on it.
    NotWhitelisted,
    /// A reward tier whose minimum amount is not positive.
    InvalidTierAmount,
    /// A stretch goal that does not exceed the primary goal.
    StretchGoalTooLow,
    /// A roadmap date that is not in the future.
    DateNotInFuture,
    /// A roadmap item without a description.
    EmptyDescription,
    /// A new deadline that does not extend the current one.
    DeadlineNotExtended,
    /// A withdrawal of more than the contributor's balance, or of a negative amount.
    InsufficientBalance,
}

/// Why an operation was refused. A refused operation changes nothing.
#[derive(Clone, Copy, Debug, PartialEq, Eq, Hash, Structural)]
pub enum Failure {
    Error(ContractError),
    Abort(Abort),
}

/// An amount held by, or to be paid to or from, an account.
#[derive(Clone, Copy, Debug, PartialEq, Eq, Hash, Structural)]
pub struct Entry {
    pub account: Address,
    pub amount: i128,
}

/// Where the platform's share of a successful campaign goes, in basis points.
#[derive(Clone, Copy, Debug, PartialEq, Eq, Structural)]
pub struct PlatformConfig {
    pub address: Address,
    pub fee_bps: u32,
}

/// A named reward level reached by contributing at least `min_amount`.
#[derive(Debug, PartialEq, Eq)]
pub struct RewardTier {
    pub name: String,
    pub min_amount: i128,
}

/// A dated milestone of the campaign's timeline.
#[derive(Debug, PartialEq, Eq)]
pub struct RoadmapItem {
    pub date: u64,
    pub description: String,
}

/// A summary of the campaign's funding.
#[derive(Clone, Copy, Debug, PartialEq, Eq, Structural)]
pub struct CampaignStats {
    /// Total amount raised so far.
    pub total_raised: i128,
    /// The funding goal.
    pub goal: i128,
    /// Progress towards the goal in basis points, at most 10 000.
    pub progress_bps: u32,
    /// Number of contributors.
    pub contributor_count: u32,
    /// Total raised divided by the number of contributors, rounded toward zero.
    pub average_contribution: i128,
    /// The largest single balance.
    pub largest_contribution: i128,
}

} // verus!
