use vstd::prelude::*;
use crate::campaign::CrowdfundContract;
use crate::ledger::{
    accounts, balance, lemma_balance_absent, lemma_balance_at, lemma_bounds, lemma_payouts,
    lemma_zeroed,
    payouts, total,
};
use crate::settlement::{settled, swept};
use crate::types::{Abort, Address, ContractError, Entry, Failure, Status};

verus! {

/// Conservation: while a campaign is active, and after every successful
/// contribution to it, the total raised is the sum of all contributors' balances.
pub proof fn conservation(
    before: CrowdfundContract,
    after: CrowdfundContract,
    contributor: Address,
    paid: int,
    referral: Option<Address>,
    now: u64,
)
    requires
        before.wf(),
        before.status == Status::Active,
        CrowdfundContract::contributed(before, after, contributor, paid, referral, now),
    ensures
        before.total_raised == total(before.contributions@),
        after.total_raised == total(after.contributions@),
{
}

/// Refund exactness: when every contribution is paid back (a bulk refund or a
/// cancellation), each contributor with balance `b` is paid exactly `b` in all,
/// and is left with a balance of zero.
pub proof fn refund_pays_exactly(
    before: CrowdfundContract,
    after: CrowdfundContract,
    payments: Seq<Entry>,
    status: Status,
    contributor: Address,
)
    requires
        before.wf(),
        payments == payouts(before.contributions@),
        swept(before, after, status),
    ensures
        balance(payments, contributor) == before.contribution_of(contributor),
        after.contribution_of(contributor) == 0,
{
    lemma_payouts(before.contributions@);
    lemma_zeroed(before.contributions@);
}

/// Idempotent settlement: once `withdraw` has succeeded, any further
/// `withdraw` fails because the campaign is no longer active.
pub proof fn withdraw_settles_once(
    before: CrowdfundContract,
    after: CrowdfundContract,
    caller: Address,
    now: u64,
    next_caller: Address,
    later: u64,
)
    requires
        before.withdraw_failure(caller, now) is None,
        settled(before, after),
    ensures
        after.withdraw_failure(next_caller, later) == Some(Failure::Abort(Abort::NotActive)),
{
}

/// Idempotent settlement: once a bulk `refund` has succeeded, any further
/// `refund` fails because the campaign is no longer active.
pub proof fn refund_settles_once(
    before: CrowdfundContract,
    after: CrowdfundContract,
    now: u64,
    later: u64,
)
    requires
        before.refund_failure(now) is None,
        swept(before, after, Status::Refunded),
    ensures
        after.refund_failure(later) == Some(Failure::Abort(Abort::NotActive)),
{
}

/// Hard-cap clamp: when a contribution passes the gates of an active campaign
/// and exceeds the headroom `h` left under the hard cap, it is accepted, and
/// exactly `h` is charged and credited.
pub proof fn clamp_to_headroom(
    c: CrowdfundContract,
    contributor: Address,
    amount: i128,
    referral: Option<Address>,
    now: u64,
)
    requires
        c.wf(),
        c.initialized,
        c.status == Status::Active,
        !c.rate_limited(contributor, now),
        !c.paused,
        c.admits(contributor),
        amount >= c.min_contribution,
        now <= c.deadline,
        0 < c.hard_cap - c.total_raised < amount,
        match referral {
            Some(r) => r == contributor || c.referrals.spec_balance(r) + (c.hard_cap
                - c.total_raised) <= i128::MAX,
            None => true,
        },
    ensures
        c.contribute_failure(contributor, amount, referral, now) is None,
        c.clamped(amount) == c.hard_cap - c.total_raised,
{
    lemma_bounds(c.contributions@);
}

/// Minimum gate: a contribution or a pledge below the minimum is refused,
/// and a refused call leaves the campaign as it was.
pub proof fn minimum_gate(
    c: CrowdfundContract,
    account: Address,
    amount: i128,
    referral: Option<Address>,
    now: u64,
)
    requires
        amount < c.min_contribution,
    ensures
        c.contribute_failure(account, amount, referral, now) is Some,
        c.pledge_failure(account, amount, now) is Some,
{
}

/// Deadline gate: a contribution after the deadline that passes the earlier
/// gates (rate limit, pause, minimum) is refused as `CampaignEnded`.
pub proof fn deadline_gate(
    c: CrowdfundContract,
    contributor: Address,
    amount: i128,
    referral: Option<Address>,
    now: u64,
)
    requires
        now > c.deadline,
        !c.rate_limited(contributor, now),
        !c.paused,
        amount >= c.min_contribution,
    ensures
        c.contribute_failure(contributor, amount, referral, now) == Some(
            Failure::Error(ContractError::CampaignEnded),
        ),
{
}

/// Contributor set: while a campaign is active, an account is among the
/// contributors exactly when its balance is positive.
pub proof fn contributors_hold_positive_balances(c: CrowdfundContract, a: Address)
    requires
        c.wf(),
        c.status == Status::Active,
    ensures
        c.contributions.holds(a) <==> c.contribution_of(a) > 0,
{
    let s = c.contributions@;
    if accounts(s).contains(a) {
        let k = accounts(s).index_of(a);
        lemma_balance_at(s, k);
    } else {
        assert forall|i: int| 0 <= i < s.len() implies s[i].account != a by {
            assert(accounts(s)[i] == s[i].account);
        }
        lemma_balance_absent(s, a);
    }
}

} // verus!
