use vstd::prelude::*;
use vstd::arithmetic::div_mod::lemma_fundamental_div_mod_converse;
use crate::campaign::{CrowdfundContract, BPS_DENOMINATOR};
use crate::ledger::{largest, accounts, lemma_largest};
use crate::types::{Address, CampaignStats, Status};

verus! {

/// The version of the campaign logic.
pub const CONTRACT_VERSION: u32 = 1;

/// Progress of `raised` towards `goal` in basis points, capped at a whole.
pub open spec fn progress_bps(raised: int, goal: int) -> int {
    if goal <= 0 {
        0
    } else if raised * (BPS_DENOMINATOR as int) / goal > BPS_DENOMINATOR as int {
        BPS_DENOMINATOR as int
    } else {
        raised * (BPS_DENOMINATOR as int) / goal
    }
}

/// `n` as a `u32`, or the largest `u32` when it does not fit.
pub open spec fn saturate_u32(n: int) -> int {
    if n > u32::MAX {
        u32::MAX as int
    } else {
        n
    }
}

/// Quotient and remainder of `t * m` by `g`, without forming `t * m`.
fn mul_div_rem(t: u128, m: u32, g: u128) -> (res: (u128, u128))
    requires
        t < g,
        g <= i128::MAX,
    ensures
        res.0 * g + res.1 == t * m,
        res.1 < g,
        res.0 <= m,
    decreases m,
{
    if m == 0 {
        return (0, 0);
    }
    let half = m / 2;
    let (q, r) = mul_div_rem(t, half, g);
    let mut q2: u128 = 2 * q;
    let mut r2: u128 = 2 * r;
    assert(q2 * g + r2 == t * (2 * half)) by (nonlinear_arith)
        requires
            q * g + r == t * half,
            q2 == 2 * q,
            r2 == 2 * r,
    ;
    if r2 >= g {
        q2 = q2 + 1;
        r2 = r2 - g;
    }
    assert(q2 * g + r2 == t * (2 * half)) by (nonlinear_arith)
        requires
            q * g + r == t * half,
            (q2 == 2 * q && r2 == 2 * r) || (q2 == 2 * q + 1 && r2 == 2 * r - g),
    ;
    let ghost q1 = q2;
    let ghost r1 = r2;
    if m % 2 == 1 {
        r2 = r2 + t;
        if r2 >= g {
            q2 = q2 + 1;
            r2 = r2 - g;
        }
    }
    assert(q2 * g + r2 == t * (2 * half) + (m % 2) * t) by (nonlinear_arith)
        requires
            q1 * g + r1 == t * (2 * half),
            (m % 2 == 0 && q2 == q1 && r2 == r1) || (m % 2 == 1 && q2 == q1 && r2 == r1 + t)
                || (m % 2 == 1 && q2 == q1 + 1 && r2 == r1 + t - g),
    ;
    assert(q2 * g + r2 == t * m) by (nonlinear_arith)
        requires
            m == 2 * half + m % 2,
            q2 * g + r2 == t * (2 * half) + (m % 2) * t,
    ;
    assert(q2 <= m) by (nonlinear_arith)
        requires
            q2 * g + r2 == t * m,
            t < g,
            0 <= r2,
            0 < g,
    ;
    (q2, r2)
}

proof fn lemma_full_progress(raised: int, goal: int)
    requires
        0 < goal <= raised,
    ensures
        raised * 10000 / goal >= 10000,
{
    assert(raised * 10000 >= goal * 10000) by (nonlinear_arith)
        requires
            0 < goal <= raised,
    ;
    lemma_fundamental_div_mod_converse(goal * 10000, goal, 10000, 0);
    vstd::arithmetic::div_mod::lemma_div_is_ordered(goal * 10000, raised * 10000, goal);
}

impl CrowdfundContract {
    pub fn total_raised(&self) -> (r: i128)
        ensures
            r == self.total_raised,
    {
        self.total_raised
    }

    pub fn goal(&self) -> (r: i128)
        ensures
            r == self.goal,
    {
        self.goal
    }

    pub fn hard_cap(&self) -> (r: i128)
        ensures
            r == self.hard_cap,
    {
        self.hard_cap
    }

    pub fn deadline(&self) -> (r: u64)
        ensures
            r == self.deadline,
    {
        self.deadline
    }

    pub fn min_contribution(&self) -> (r: i128)
        ensures
            r == self.min_contribution,
    {
        self.min_contribution
    }

    pub fn token(&self) -> (r: Address)
        ensures
            r == self.token,
    {
        self.token
    }

    pub fn status(&self) -> (r: Status)
        ensures
            r == self.status,
    {
        self.status
    }

    pub fn is_paused(&self) -> (r: bool)
        ensures
            r == self.paused,
    {
        self.paused
    }

    pub fn total_pledged(&self) -> (r: i128)
        ensures
            r == self.total_pledged,
    {
        self.total_pledged
    }

    /// What `contributor` has paid in and not been paid back.
    pub fn contribution(&self, contributor: Address) -> (r: i128)
        requires
            self.wf(),
        ensures
            r == self.contribution_of(contributor),
    {
        self.contributions.balance_of(contributor)
    }

    /// What `pledger` has promised and not yet paid.
    pub fn pledge_amount(&self, pledger: Address) -> (r: i128)
        requires
            self.wf(),
        ensures
            r == self.pledges.spec_balance(pledger),
    {
        self.pledges.balance_of(pledger)
    }

    /// The amount contributed by others that named `referrer`.
    pub fn referral_tally(&self, referrer: Address) -> (r: i128)
        requires
            self.wf(),
        ensures
            r == self.referrals.spec_balance(referrer),
    {
        self.referrals.balance_of(referrer)
    }

    /// The contributors, in the order they first contributed.
    pub fn contributors(&self) -> (r: Vec<Address>)
        ensures
            r@ == accounts(self.contributions@),
    {
        let n = self.contributions.entries.len();
        let mut out: Vec<Address> = Vec::new();
        let mut i: usize = 0;
        while i < n
            invariant
                n == self.contributions@.len(),
                i <= n,
                out@ =~= accounts(self.contributions@.subrange(0, i as int)),
            decreases n - i,
        {
            out.push(self.contributions.entries[i].account);
            i = i + 1;
        }
        proof {
            assert(self.contributions@.subrange(0, n as int) =~= self.contributions@);
        }
        out
    }

    /// The number of contributors, saturated at the largest `u32`.
    pub fn contributor_count(&self) -> (r: u32)
        ensures
            r == saturate_u32(self.contributions@.len() as int),
    {
        let n = self.contributions.len();
        if n > u32::MAX as usize {
            u32::MAX
        } else {
            n as u32
        }
    }

    pub fn title(&self) -> (r: String)
        ensures
            r@ == self.title@,
    {
        self.title.clone()
    }

    pub fn description(&self) -> (r: String)
        ensures
            r@ == self.description@,
    {
        self.description.clone()
    }

    pub fn socials(&self) -> (r: String)
        ensures
            r@ == self.socials@,
    {
        self.socials.clone()
    }

    pub fn category(&self) -> (r: String)
        ensures
            r@ == self.category@,
    {
        self.category.clone()
    }

    pub fn tags(&self) -> (r: &Vec<String>)
        ensures
            r@ == self.tags@,
    {
        &self.tags
    }

    pub fn version(&self) -> (r: u32)
        ensures
            r == CONTRACT_VERSION,
    {
        CONTRACT_VERSION
    }

    /// A summary of the funding: progress is `min(10000, raised * 10000 / goal)`.
    pub fn get_stats(&self) -> (r: CampaignStats)
        requires
            self.wf(),
        ensures
            r.total_raised == self.total_raised,
            r.goal == self.goal,
            r.progress_bps == progress_bps(self.total_raised as int, self.goal as int),
            r.contributor_count == saturate_u32(self.contributions@.len() as int),
            r.average_contribution == if self.contributions@.len() == 0 {
                0
            } else {
                self.total_raised as int / self.contributions@.len() as int
            },
            r.largest_contribution == largest(self.contributions@),
            r.largest_contribution >= 0,
            forall|i: int|
                0 <= i < self.contributions@.len() ==> self.contributions@[i].amount
                    <= r.largest_contribution,
            r.largest_contribution == 0 || exists|i: int|
                0 <= i < self.contributions@.len() && self.contributions@[i].amount
                    == r.largest_contribution,
    {
        proof {
            lemma_largest(self.contributions@);
        }
        let raised = self.total_raised;
        let goal = self.goal;
        let progress: u32 = if goal <= 0 {
            0
        } else if raised >= goal {
            proof {
                lemma_full_progress(raised as int, goal as int);
            }
            BPS_DENOMINATOR
        } else {
            let (q, rem) = mul_div_rem(raised as u128, BPS_DENOMINATOR, goal as u128);
            proof {
                lemma_fundamental_div_mod_converse(
                    raised * 10000,
                    goal as int,
                    q as int,
                    rem as int,
                );
            }
            q as u32
        };
        let n = self.contributions.len();
        let average: i128 = if n == 0 {
            0
        } else {
            raised / (n as i128)
        };
        CampaignStats {
            total_raised: raised,
            goal,
            progress_bps: progress,
            contributor_count: self.contributor_count(),
            average_contribution: average,
            largest_contribution: self.contributions.largest(),
        }
    }
}

} // verus!
