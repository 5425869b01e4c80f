use vstd::prelude::*;
use crate::ledger::{Ledger, total, positive, accounts, credited};
use crate::types::{
    Abort, Address, ContractError, Failure, PlatformConfig, RewardTier, RoadmapItem,
    Status,
};

verus! {

/// Seconds that must pass between two contributions of one account.
pub const CONTRIBUTION_COOLDOWN: u64 = 5;

/// Basis points in a whole.
pub const BPS_DENOMINATOR: u32 = 10_000;

/// When an account last contributed.
#[derive(Clone, Copy, Debug, PartialEq, Eq, Structural)]
pub struct Stamp {
    pub account: Address,
    pub time: u64,
}

/// The time of the last stamp of `a` in `s`.
pub open spec fn last_stamp(s: Seq<Stamp>, a: Address) -> Option<u64>
    decreases s.len(),
{
    if s.len() == 0 {
        None
    } else if s.last().account == a {
        Some(s.last().time)
    } else {
        last_stamp(s.drop_last(), a)
    }
}

proof fn lemma_restamp(s: Seq<Stamp>, k: int, t: u64, x: Address)
    requires
        0 <= k < s.len(),
        forall|j: int| k < j < s.len() ==> s[j].account != s[k].account,
    ensures
        last_stamp(s.update(k, Stamp { account: s[k].account, time: t }), x) == if x
            == s[k].account {
            Some(t)
        } else {
            last_stamp(s, x)
        },
    decreases s.len(),
{
    let u = s.update(k, Stamp { account: s[k].account, time: t });
    if k == s.len() - 1 {
        assert(u.drop_last() =~= s.drop_last());
    } else {
        assert(u.drop_last() =~= s.drop_last().update(k, Stamp { account: s[k].account, time: t }));
        lemma_restamp(s.drop_last(), k, t, x);
    }
}

/// The time at which `a` last contributed, if it ever did.
fn stamp_of(s: &Vec<Stamp>, a: Address) -> (r: Option<u64>)
    ensures
        r == last_stamp(s@, a),
{
    let n = s.len();
    let mut found: Option<u64> = None;
    let mut i: usize = 0;
    while i < n
        invariant
            n == s@.len(),
            i <= n,
            found == last_stamp(s@.subrange(0, i as int), a),
        decreases n - i,
    {
        proof {
            assert(s@.subrange(0, i + 1).drop_last() =~= s@.subrange(0, i as int));
        }
        if s[i].account == a {
            found = Some(s[i].time);
        }
        i = i + 1;
    }
    proof {
        assert(s@.subrange(0, n as int) =~= s@);
    }
    found
}

/// Records that `a` contributed at `now`.
fn restamp(s: &mut Vec<Stamp>, a: Address, now: u64)
    ensures
        forall|x: Address|
            #![trigger last_stamp(final(s)@, x)]
            last_stamp(final(s)@, x) == if x == a {
                Some(now)
            } else {
                last_stamp(old(s)@, x)
            },
{
    let n = s.len();
    let mut pos: Option<usize> = None;
    let mut i: usize = 0;
    while i < n
        invariant
            n == s@.len(),
            i <= n,
            match pos {
                Some(k) => k < i && s@[k as int].account == a && forall|j: int|
                    k < j < i ==> s@[j].account != a,
                None => forall|j: int| 0 <= j < i ==> s@[j].account != a,
            },
        decreases n - i,
    {
        if s[i].account == a {
            pos = Some(i);
        }
        i = i + 1;
    }
    let ghost s0 = s@;
    match pos {
        Some(k) => {
            s.set(k, Stamp { account: a, time: now });
            proof {
                assert forall|x: Address| #![trigger last_stamp(s@, x)]
                    last_stamp(s@, x) == if x == a { Some(now) } else { last_stamp(s0, x) } by {
                    lemma_restamp(s0, k as int, now, x);
                }
            }
        },
        None => {
            s.push(Stamp { account: a, time: now });
            proof {
                assert(s@.drop_last() =~= s0);
            }
        },
    }
}

/// Whether `a` is in `v`.
pub(crate) fn listed(v: &Vec<Address>, a: Address) -> (r: bool)
    ensures
        r == v@.contains(a),
{
    let n = v.len();
    let mut i: usize = 0;
    while i < n
        invariant
            n == v@.len(),
            i <= n,
            forall|j: int| 0 <= j < i ==> v@[j] != a,
        decreases n - i,
    {
        if v[i] == a {
            return true;
        }
        i = i + 1;
    }
    false
}

/// The fee that the platform takes from `amount` at `bps` basis points.
pub open spec fn fee_of(amount: int, bps: int) -> int {
    amount * bps / (BPS_DENOMINATOR as int)
}

/// The state of one crowdfunding campaign: its terms, its funds and its extras.
pub struct CrowdfundContract {
    pub initialized: bool,
    pub creator: Address,
    pub token: Address,
    /// The account allowed to replace the contract's code.
    pub admin: Address,
    pub goal: i128,
    pub hard_cap: i128,
    pub deadline: u64,
    pub min_contribution: i128,
    pub platform: Option<PlatformConfig>,
    pub status: Status,
    pub paused: bool,
    pub total_raised: i128,
    pub total_pledged: i128,
    pub contributions: Ledger,
    pub pledges: Ledger,
    pub referrals: Ledger,
    pub last_contribution: Vec<Stamp>,
    /// When not empty, the only accounts that may contribute.
    pub whitelist: Vec<Address>,
    pub reward_tiers: Vec<RewardTier>,
    pub stretch_goals: Vec<i128>,
    pub roadmap: Vec<RoadmapItem>,
    pub title: String,
    pub description: String,
    pub socials: String,
    pub category: String,
    pub tags: Vec<String>,
}

/// The terms of the campaign are the same in `a` and `b`.
pub open spec fn same_terms(a: CrowdfundContract, b: CrowdfundContract) -> bool {
    &&& a.initialized == b.initialized
    &&& a.creator == b.creator
    &&& a.token == b.token
    &&& a.admin == b.admin
    &&& a.goal == b.goal
    &&& a.hard_cap == b.hard_cap
    &&& a.deadline == b.deadline
    &&& a.min_contribution == b.min_contribution
    &&& a.platform == b.platform
    &&& a.paused == b.paused
    &&& a.whitelist@ == b.whitelist@
}

/// The informational extras of the campaign are the same in `a` and `b`.
pub open spec fn same_extras(a: CrowdfundContract, b: CrowdfundContract) -> bool {
    &&& a.reward_tiers@ == b.reward_tiers@
    &&& a.stretch_goals@ == b.stretch_goals@
    &&& a.roadmap@ == b.roadmap@
    &&& a.title@ == b.title@
    &&& a.description@ == b.description@
    &&& a.socials@ == b.socials@
    &&& a.category@ == b.category@
    &&& a.tags@ == b.tags@
}

/// The funds of the campaign are the same in `a` and `b`.
pub open spec fn same_funds(a: CrowdfundContract, b: CrowdfundContract) -> bool {
    &&& a.status == b.status
    &&& a.total_raised == b.total_raised
    &&& a.total_pledged == b.total_pledged
    &&& a.contributions@ == b.contributions@
    &&& a.pledges@ == b.pledges@
    &&& a.referrals@ == b.referrals@
    &&& a.last_contribution@ == b.last_contribution@
}

impl CrowdfundContract {
    /// The invariant of the campaign.
    pub open spec fn wf(&self) -> bool {
        &&& self.contributions.wf()
        &&& self.pledges.wf()
        &&& self.referrals.wf()
        &&& self.total_pledged == total(self.pledges@)
        &&& self.status != Status::Successful ==> self.total_raised == total(self.contributions@)
        &&& self.status == Status::Active ==> positive(self.contributions@) && positive(
            self.pledges@,
        )
        &&& 0 <= self.total_raised
        &&& !self.initialized ==> self.pristine()
        &&& self.initialized ==> {
            &&& self.goal > 0
            &&& self.min_contribution >= 0
            &&& self.hard_cap >= self.goal
            &&& match self.platform {
                Some(p) => p.fee_bps <= BPS_DENOMINATOR,
                None => true,
            }
        }
    }

    /// A campaign with no funds, no settings and no extras: what exists before
    /// `initialize`, apart from its terms.
    pub open spec fn pristine(&self) -> bool {
        &&& self.status == Status::Active
        &&& !self.paused
        &&& self.total_raised == 0
        &&& self.total_pledged == 0
        &&& self.contributions@.len() == 0
        &&& self.pledges@.len() == 0
        &&& self.referrals@.len() == 0
        &&& self.last_contribution@.len() == 0
        &&& self.whitelist@.len() == 0
        &&& self.reward_tiers@.len() == 0
        &&& self.stretch_goals@.len() == 0
        &&& self.roadmap@.len() == 0
        &&& self.title@.len() == 0
        &&& self.description@.len() == 0
        &&& self.socials@.len() == 0
        &&& self.category@.len() == 0
        &&& self.tags@.len() == 0
    }

    /// `total_raised >= goal`.
    pub open spec fn goal_met(&self) -> bool {
        self.total_raised >= self.goal
    }

    /// The amount recorded for `a`.
    pub open spec fn contribution_of(&self, a: Address) -> int {
        self.contributions.spec_balance(a)
    }

    pub open spec fn rate_limited(&self, a: Address, now: u64) -> bool {
        match last_stamp(self.last_contribution@, a) {
            Some(t) => now < t + CONTRIBUTION_COOLDOWN,
            None => false,
        }
    }

    pub open spec fn admits(&self, a: Address) -> bool {
        self.whitelist@.len() == 0 || self.whitelist@.contains(a)
    }

    /// What a contribution of `amount` is cut down to under the hard cap.
    pub open spec fn clamped(&self, amount: i128) -> int {
        if amount <= self.hard_cap - self.total_raised {
            amount as int
        } else {
            self.hard_cap - self.total_raised
        }
    }

    /// A new, not yet initialized campaign.
    pub fn new() -> (r: CrowdfundContract)
        ensures
            r.wf(),
            !r.initialized,
            r.pristine(),
            r.platform is None,
    {
        CrowdfundContract {
            initialized: false,
            creator: Address(0),
            token: Address(0),
            admin: Address(0),
            goal: 0,
            hard_cap: 0,
            deadline: 0,
            min_contribution: 0,
            platform: None,
            status: Status::Active,
            paused: false,
            total_raised: 0,
            total_pledged: 0,
            contributions: Ledger::new(),
            pledges: Ledger::new(),
            referrals: Ledger::new(),
            last_contribution: Vec::new(),
            whitelist: Vec::new(),
            reward_tiers: Vec::new(),
            stretch_goals: Vec::new(),
            roadmap: Vec::new(),
            title: String::new(),
            description: String::new(),
            socials: String::new(),
            category: String::new(),
            tags: Vec::new(),
        }
    }

    /// Why `initialize` refuses these arguments, if it does.
    pub open spec fn initialize_failure(
        &self,
        goal: i128,
        hard_cap: i128,
        min_contribution: i128,
        platform_config: Option<PlatformConfig>,
    ) -> Option<Failure> {
        if self.initialized {
            Some(Failure::Error(ContractError::AlreadyInitialized))
        } else if match platform_config {
            Some(p) => p.fee_bps > BPS_DENOMINATOR,
            None => false,
        } {
            Some(Failure::Abort(Abort::FeeTooHigh))
        } else if goal <= 0 || min_contribution < 0 {
            Some(Failure::Error(ContractError::InvalidLimit))
        } else if hard_cap < goal {
            Some(Failure::Error(ContractError::InvalidHardCap))
        } else {
            None
        }
    }

    /// Sets the terms of the campaign once; the creator is also its admin.
    pub fn initialize(
        &mut self,
        creator: Address,
        token: Address,
        goal: i128,
        hard_cap: i128,
        deadline: u64,
        min_contribution: i128,
        platform_config: Option<PlatformConfig>,
    ) -> (r: Result<(), Failure>)
        requires
            old(self).wf(),
        ensures
            final(self).wf(),
            match old(self).initialize_failure(goal, hard_cap, min_contribution, platform_config) {
                Some(f) => r == Err::<(), Failure>(f) && *final(self) == *old(self),
                None => {
                    &&& r is Ok
                    &&& final(self).initialized
                    &&& final(self).creator == creator
                    &&& final(self).admin == creator
                    &&& final(self).token == token
                    &&& final(self).goal == goal
                    &&& final(self).hard_cap == hard_cap
                    &&& final(self).deadline == deadline
                    &&& final(self).min_contribution == min_contribution
                    &&& final(self).platform == platform_config
                    &&& final(self).pristine()
                    &&& final(self).status == Status::Active
                    &&& final(self).total_raised == 0
                    &&& final(self).total_pledged == 0
                    &&& final(self).contributions@.len() == 0
                    &&& final(self).pledges@.len() == 0
                    &&& final(self).reward_tiers@.len() == 0
                    &&& final(self).stretch_goals@.len() == 0
                    &&& final(self).roadmap@.len() == 0
                },
            },
    {
        if self.initialized {
            return Err(Failure::Error(ContractError::AlreadyInitialized));
        }
        if let Some(p) = platform_config {
            if p.fee_bps > BPS_DENOMINATOR {
                return Err(Failure::Abort(Abort::FeeTooHigh));
            }
        }
        if goal <= 0 || min_contribution < 0 {
            return Err(Failure::Error(ContractError::InvalidLimit));
        }
        if hard_cap < goal {
            return Err(Failure::Error(ContractError::InvalidHardCap));
        }
        self.initialized = true;
        self.creator = creator;
        self.admin = creator;
        self.token = token;
        self.goal = goal;
        self.hard_cap = hard_cap;
        self.deadline = deadline;
        self.min_contribution = min_contribution;
        self.platform = platform_config;
        self.paused = false;
        Ok(())
    }

    /// Why `contribute` refuses these arguments, if it does, in the order the
    /// gates are checked.
    pub open spec fn contribute_failure(
        &self,
        contributor: Address,
        amount: i128,
        referral: Option<Address>,
        now: u64,
    ) -> Option<Failure> {
        if self.rate_limited(contributor, now) {
            Some(Failure::Error(ContractError::RateLimitExceeded))
        } else if self.paused {
            Some(Failure::Error(ContractError::ContractPaused))
        } else if amount < self.min_contribution {
            Some(Failure::Abort(Abort::BelowMinimum))
        } else if now > self.deadline {
            Some(Failure::Error(ContractError::CampaignEnded))
        } else if !self.admits(contributor) {
            Some(Failure::Abort(Abort::NotWhitelisted))
        } else if self.status != Status::Active {
            Some(Failure::Abort(Abort::NotActive))
        } else if self.total_raised >= self.hard_cap {
            Some(Failure::Error(ContractError::HardCapExceeded))
        } else if self.contribution_of(contributor) + self.clamped(amount) > i128::MAX
            || self.total_raised + self.clamped(amount) > i128::MAX {
            Some(Failure::Error(ContractError::Overflow))
        } else if match referral {
            Some(r) => r != contributor && self.referrals.spec_balance(r) + self.clamped(amount)
                > i128::MAX,
            None => false,
        } {
            Some(Failure::Error(ContractError::Overflow))
        } else {
            None
        }
    }

    /// `after` is `before` once `contributor` has paid in `paid`.
    pub open spec fn contributed(
        before: CrowdfundContract,
        after: CrowdfundContract,
        contributor: Address,
        paid: int,
        referral: Option<Address>,
        now: u64,
    ) -> bool {
        &&& same_terms(before, after)
        &&& same_extras(before, after)
        &&& after.status == before.status
        &&& after.total_raised == before.total_raised + paid
        &&& total(after.contributions@) == total(before.contributions@) + paid
        &&& after.total_pledged == before.total_pledged
        &&& after.pledges@ == before.pledges@
        &&& forall|x: Address|
            #![trigger after.contribution_of(x)]
            after.contribution_of(x) == before.contribution_of(x) + if x == contributor {
                paid
            } else {
                0
            }
        &&& after.contributions@ == if paid > 0 {
            credited(before.contributions@, contributor, paid)
        } else {
            before.contributions@
        }
        &&& accounts(after.contributions@) == if before.contributions.holds(contributor) || paid
            == 0 {
            accounts(before.contributions@)
        } else {
            accounts(before.contributions@).push(contributor)
        }
        &&& forall|x: Address|
            #![trigger after.referrals.spec_balance(x)]
            after.referrals.spec_balance(x) == before.referrals.spec_balance(x) + if referral
                == Some(x) && x != contributor {
                paid
            } else {
                0
            }
        &&& forall|x: Address|
            #![trigger last_stamp(after.last_contribution@, x)]
            last_stamp(after.last_contribution@, x) == if x == contributor {
                Some(now)
            } else {
                last_stamp(before.last_contribution@, x)
            }
    }

    /// Pays `amount` from `contributor` into the campaign at time `now`, cut down
    /// to what the hard cap leaves. Returns the amount to transfer in.
    pub fn contribute(
        &mut self,
        contributor: Address,
        amount: i128,
        referral: Option<Address>,
        now: u64,
    ) -> (r: Result<i128, Failure>)
        requires
            old(self).wf(),
            old(self).initialized,
        ensures
            final(self).wf(),
            match old(self).contribute_failure(contributor, amount, referral, now) {
                Some(f) => r == Err::<i128, Failure>(f) && *final(self) == *old(self),
                None => {
                    &&& r == Ok::<i128, Failure>(old(self).clamped(amount) as i128)
                    &&& 0 <= old(self).clamped(amount) <= amount
                    &&& Self::contributed(
                        *old(self),
                        *final(self),
                        contributor,
                        old(self).clamped(amount),
                        referral,
                        now,
                    )
                },
            },
    {
        match stamp_of(&self.last_contribution, contributor) {
            Some(t) => {
                if (now as u128) < t as u128 + CONTRIBUTION_COOLDOWN as u128 {
                    return Err(Failure::Error(ContractError::RateLimitExceeded));
                }
            },
            None => {},
        }
        if self.paused {
            return Err(Failure::Error(ContractError::ContractPaused));
        }
        if amount < self.min_contribution {
            return Err(Failure::Abort(Abort::BelowMinimum));
        }
        if now > self.deadline {
            return Err(Failure::Error(ContractError::CampaignEnded));
        }
        if self.whitelist.len() > 0 && !listed(&self.whitelist, contributor) {
            return Err(Failure::Abort(Abort::NotWhitelisted));
        }
        if self.status != Status::Active {
            return Err(Failure::Abort(Abort::NotActive));
        }
        if self.total_raised >= self.hard_cap {
            return Err(Failure::Error(ContractError::HardCapExceeded));
        }
        let headroom = self.hard_cap - self.total_raised;
        let effective = if amount <= headroom {
            amount
        } else {
            headroom
        };
        let prev = self.contributions.balance_of(contributor);
        if prev > i128::MAX - effective || self.total_raised > i128::MAX - effective {
            return Err(Failure::Error(ContractError::Overflow));
        }
        if let Some(referrer) = referral {
            if referrer != contributor {
                let tally = self.referrals.balance_of(referrer);
                if tally > i128::MAX - effective {
                    return Err(Failure::Error(ContractError::Overflow));
                }
            }
        }
        let ghost before = *self;
        if effective > 0 {
            self.contributions.credit(contributor, effective);
            self.total_raised = self.total_raised + effective;
            if let Some(referrer) = referral {
                if referrer != contributor {
                    self.referrals.credit(referrer, effective);
                }
            }
        }
        restamp(&mut self.last_contribution, contributor, now);
        proof {
            if referral is None || referral == Some(contributor) {
                assert(self.referrals@ == before.referrals@);
            }
        }
        Ok(effective)
    }

    /// Why `pledge` refuses these arguments, if it does.
    pub open spec fn pledge_failure(&self, pledger: Address, amount: i128, now: u64) -> Option<
        Failure,
    > {
        if amount < self.min_contribution {
            Some(Failure::Abort(Abort::BelowMinimum))
        } else if now > self.deadline {
            Some(Failure::Error(ContractError::CampaignEnded))
        } else if self.status != Status::Active {
            Some(Failure::Abort(Abort::NotActive))
        } else if self.pledges.spec_balance(pledger) + amount > i128::MAX || self.total_pledged
            + amount > i128::MAX {
            Some(Failure::Error(ContractError::Overflow))
        } else {
            None
        }
    }

    /// Records a promise of `amount` from `pledger`, collected only once the
    /// goal is reached. Nothing is transferred.
    pub fn pledge(&mut self, pledger: Address, amount: i128, now: u64) -> (r: Result<
        (),
        Failure,
    >)
        requires
            old(self).wf(),
            old(self).initialized,
        ensures
            final(self).wf(),
            match old(self).pledge_failure(pledger, amount, now) {
                Some(f) => r == Err::<(), Failure>(f) && *final(self) == *old(self),
                None => {
                    &&& r is Ok
                    &&& same_terms(*old(self), *final(self))
                    &&& same_extras(*old(self), *final(self))
                    &&& final(self).status == old(self).status
                    &&& final(self).total_raised == old(self).total_raised
                    &&& final(self).contributions@ == old(self).contributions@
                    &&& final(self).referrals@ == old(self).referrals@
                    &&& final(self).last_contribution@ == old(self).last_contribution@
                    &&& final(self).total_pledged == old(self).total_pledged + amount
                    &&& final(self).pledges@ == if amount > 0 {
                        credited(old(self).pledges@, pledger, amount as int)
                    } else {
                        old(self).pledges@
                    }
                    &&& accounts(final(self).pledges@) == if old(self).pledges.holds(pledger)
                        || amount == 0 {
                        accounts(old(self).pledges@)
                    } else {
                        accounts(old(self).pledges@).push(pledger)
                    }
                    &&& forall|x: Address|
                        #![trigger final(self).pledges.spec_balance(x)]
                        final(self).pledges.spec_balance(x) == old(self).pledges.spec_balance(x)
                            + if x == pledger {
                            amount as int
                        } else {
                            0
                        }
                },
            },
    {
        if amount < self.min_contribution {
            return Err(Failure::Abort(Abort::BelowMinimum));
        }
        if now > self.deadline {
            return Err(Failure::Error(ContractError::CampaignEnded));
        }
        if self.status != Status::Active {
            return Err(Failure::Abort(Abort::NotActive));
        }
        let prev = self.pledges.balance_of(pledger);
        if prev > i128::MAX - amount || self.total_pledged > i128::MAX - amount {
            return Err(Failure::Error(ContractError::Overflow));
        }
        if amount > 0 {
            self.pledges.credit(pledger, amount);
            self.total_pledged = self.total_pledged + amount;
        }
        Ok(())
    }
}

} // verus!
