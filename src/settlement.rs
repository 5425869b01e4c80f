use vstd::prelude::*;
use crate::campaign::{fee_of, same_extras, same_terms, CrowdfundContract, BPS_DENOMINATOR};
use crate::ledger::{
    absorbed, balance, lemma_bounds, lemma_zeroed, payouts, zeroed, Ledger,
};
use crate::laws::contributors_hold_positive_balances;
use crate::types::{Abort, Address, ContractError, Entry, Failure, Status};

verus! {

proof fn lemma_fee_bounds(t: int, b: int)
    requires
        0 <= t,
        0 <= b <= BPS_DENOMINATOR,
    ensures
        0 <= fee_of(t, b) <= t,
{
    assert(0 <= t * b <= t * 10000) by (nonlinear_arith)
        requires
            0 <= t,
            0 <= b <= 10000,
    ;
    assert(t * b / 10000 <= t * 10000 / 10000) by (nonlinear_arith)
        requires
            0 <= t * b <= t * 10000,
    ;
    assert(t * 10000 / 10000 == t) by (nonlinear_arith);
    assert(0 <= t * b / 10000) by (nonlinear_arith)
        requires
            0 <= t * b,
    ;
}

/// `after` is `before` with every contribution paid back, in state `status`.
pub open spec fn swept(before: CrowdfundContract, after: CrowdfundContract, status: Status) -> bool {
    &&& same_terms(before, after)
    &&& same_extras(before, after)
    &&& after.status == status
    &&& after.total_raised == 0
    &&& after.contributions@ == zeroed(before.contributions@)
    &&& after.total_pledged == before.total_pledged
    &&& after.pledges@ == before.pledges@
    &&& after.referrals@ == before.referrals@
    &&& after.last_contribution@ == before.last_contribution@
}

/// `after` is `before` once the raised funds have been paid out.
pub open spec fn settled(before: CrowdfundContract, after: CrowdfundContract) -> bool {
    &&& same_terms(before, after)
    &&& same_extras(before, after)
    &&& after.status == Status::Successful
    &&& after.total_raised == 0
    &&& after.contributions@ == before.contributions@
    &&& after.total_pledged == before.total_pledged
    &&& after.pledges@ == before.pledges@
    &&& after.referrals@ == before.referrals@
    &&& after.last_contribution@ == before.last_contribution@
}

impl CrowdfundContract {
    /// Why `collect_pledges` refuses to run at `now`, if it does.
    pub open spec fn collect_pledges_failure(&self, now: u64) -> Option<Failure> {
        if self.status != Status::Active {
            Some(Failure::Abort(Abort::NotActive))
        } else if now <= self.deadline {
            Some(Failure::Error(ContractError::CampaignStillActive))
        } else if self.total_raised + self.total_pledged > i128::MAX {
            Some(Failure::Error(ContractError::Overflow))
        } else if self.total_raised + self.total_pledged < self.goal {
            Some(Failure::Error(ContractError::GoalNotReached))
        } else {
            None
        }
    }

    /// After the deadline, when contributions and pledges together reach the
    /// goal, turns every pledge into a contribution. Returns the amounts to
    /// transfer in from each pledger.
    pub fn collect_pledges(&mut self, now: u64) -> (r: Result<Vec<Entry>, Failure>)
        requires
            old(self).wf(),
            old(self).initialized,
        ensures
            final(self).wf(),
            match old(self).collect_pledges_failure(now) {
                Some(f) => r == Err::<Vec<Entry>, Failure>(f) && *final(self) == *old(self),
                None => {
                    &&& r is Ok
                    &&& r->Ok_0@ == payouts(old(self).pledges@)
                    &&& same_terms(*old(self), *final(self))
                    &&& same_extras(*old(self), *final(self))
                    &&& final(self).status == old(self).status
                    &&& final(self).total_raised == old(self).total_raised
                        + old(self).total_pledged
                    &&& final(self).total_pledged == 0
                    &&& final(self).pledges@.len() == 0
                    &&& final(self).contributions@ == absorbed(
                        old(self).contributions@,
                        old(self).pledges@,
                    )
                    &&& forall|x: Address|
                        #![trigger final(self).contribution_of(x)]
                        final(self).contribution_of(x) == old(self).contribution_of(x) + balance(
                            old(self).pledges@,
                            x,
                        )
                    &&& final(self).referrals@ == old(self).referrals@
                    &&& final(self).last_contribution@ == old(self).last_contribution@
                },
            },
    {
        if self.status != Status::Active {
            return Err(Failure::Abort(Abort::NotActive));
        }
        if now <= self.deadline {
            return Err(Failure::Error(ContractError::CampaignStillActive));
        }
        proof {
            lemma_bounds(self.pledges@);
        }
        if self.total_raised > i128::MAX - self.total_pledged {
            return Err(Failure::Error(ContractError::Overflow));
        }
        if self.total_raised + self.total_pledged < self.goal {
            return Err(Failure::Error(ContractError::GoalNotReached));
        }
        let collected = self.contributions.absorb(&self.pledges);
        self.total_raised = self.total_raised + self.total_pledged;
        self.pledges = Ledger::new();
        self.total_pledged = 0;
        Ok(collected)
    }

    /// What `withdraw` pays out: the platform's fee first when one is set,
    /// then the rest to the creator.
    pub open spec fn withdraw_payouts(&self) -> Seq<Entry> {
        match self.platform {
            Some(p) => {
                let fee = fee_of(self.total_raised as int, p.fee_bps as int);
                seq![
                    Entry { account: p.address, amount: fee as i128 },
                    Entry { account: self.creator, amount: (self.total_raised - fee) as i128 },
                ]
            },
            None => seq![Entry { account: self.creator, amount: self.total_raised }],
        }
    }

    /// Why `withdraw` by `caller` at `now` is refused, if it is.
    pub open spec fn withdraw_failure(&self, caller: Address, now: u64) -> Option<Failure> {
        if self.paused {
            Some(Failure::Error(ContractError::ContractPaused))
        } else if self.status != Status::Active {
            Some(Failure::Abort(Abort::NotActive))
        } else if caller != self.creator {
            Some(Failure::Abort(Abort::NotAuthorized))
        } else if now <= self.deadline {
            Some(Failure::Error(ContractError::CampaignStillActive))
        } else if self.total_raised < self.goal {
            Some(Failure::Error(ContractError::GoalNotReached))
        } else if match self.platform {
            Some(p) => self.total_raised * p.fee_bps > i128::MAX,
            None => false,
        } {
            Some(Failure::Error(ContractError::Overflow))
        } else {
            None
        }
    }

    /// After the deadline, with the goal met, pays the raised funds out to the
    /// creator (less the platform's fee) and ends the campaign as `Successful`.
    pub fn withdraw(&mut self, caller: Address, now: u64) -> (r: Result<Vec<Entry>, Failure>)
        requires
            old(self).wf(),
            old(self).initialized,
        ensures
            final(self).wf(),
            match old(self).withdraw_failure(caller, now) {
                Some(f) => r == Err::<Vec<Entry>, Failure>(f) && *final(self) == *old(self),
                None => {
                    &&& r is Ok
                    &&& r->Ok_0@ == old(self).withdraw_payouts()
                    &&& settled(*old(self), *final(self))
                },
            },
    {
        if self.paused {
            return Err(Failure::Error(ContractError::ContractPaused));
        }
        if self.status != Status::Active {
            return Err(Failure::Abort(Abort::NotActive));
        }
        if caller != self.creator {
            return Err(Failure::Abort(Abort::NotAuthorized));
        }
        if now <= self.deadline {
            return Err(Failure::Error(ContractError::CampaignStillActive));
        }
        let raised = self.total_raised;
        if raised < self.goal {
            return Err(Failure::Error(ContractError::GoalNotReached));
        }
        let mut out: Vec<Entry> = Vec::new();
        match self.platform {
            Some(p) => {
                let fee = match raised.checked_mul(p.fee_bps as i128) {
                    Some(product) => product / (BPS_DENOMINATOR as i128),
                    None => {
                        return Err(Failure::Error(ContractError::Overflow));
                    },
                };
                proof {
                    lemma_fee_bounds(raised as int, p.fee_bps as int);
                }
                out.push(Entry { account: p.address, amount: fee });
                out.push(Entry { account: self.creator, amount: raised - fee });
            },
            None => {
                out.push(Entry { account: self.creator, amount: raised });
            },
        }
        self.total_raised = 0;
        self.status = Status::Successful;
        proof {
            assert(out@ =~= old(self).withdraw_payouts());
        }
        Ok(out)
    }

    /// Why `refund` at `now` is refused, if it is.
    pub open spec fn refund_failure(&self, now: u64) -> Option<Failure> {
        if self.paused {
            Some(Failure::Error(ContractError::ContractPaused))
        } else if self.status != Status::Active {
            Some(Failure::Abort(Abort::NotActive))
        } else if now <= self.deadline {
            Some(Failure::Error(ContractError::CampaignStillActive))
        } else if self.goal_met() {
            Some(Failure::Error(ContractError::GoalReached))
        } else {
            None
        }
    }

    /// After the deadline, with the goal missed, pays every contributor back and
    /// ends the campaign as `Refunded`. Returns the payments, in contributor order.
    pub fn refund(&mut self, now: u64) -> (r: Result<Vec<Entry>, Failure>)
        requires
            old(self).wf(),
            old(self).initialized,
        ensures
            final(self).wf(),
            match old(self).refund_failure(now) {
                Some(f) => r == Err::<Vec<Entry>, Failure>(f) && *final(self) == *old(self),
                None => {
                    &&& r is Ok
                    &&& r->Ok_0@ == payouts(old(self).contributions@)
                    &&& swept(*old(self), *final(self), Status::Refunded)
                },
            },
    {
        if self.paused {
            return Err(Failure::Error(ContractError::ContractPaused));
        }
        if self.status != Status::Active {
            return Err(Failure::Abort(Abort::NotActive));
        }
        if now <= self.deadline {
            return Err(Failure::Error(ContractError::CampaignStillActive));
        }
        if self.total_raised >= self.goal {
            return Err(Failure::Error(ContractError::GoalReached));
        }
        let out = self.contributions.drain();
        self.total_raised = 0;
        self.status = Status::Refunded;
        proof {
            lemma_zeroed(old(self).contributions@);
        }
        Ok(out)
    }

    /// Why `cancel` by `caller` is refused, if it is.
    pub open spec fn cancel_failure(&self, caller: Address) -> Option<Failure> {
        if self.status != Status::Active {
            Some(Failure::Abort(Abort::NotActive))
        } else if caller != self.creator {
            Some(Failure::Abort(Abort::NotAuthorized))
        } else {
            None
        }
    }

    /// The creator calls the campaign off: every contributor is paid back,
    /// whatever was raised, and the campaign ends as `Cancelled`.
    pub fn cancel(&mut self, caller: Address) -> (r: Result<Vec<Entry>, Failure>)
        requires
            old(self).wf(),
            old(self).initialized,
        ensures
            final(self).wf(),
            match old(self).cancel_failure(caller) {
                Some(f) => r == Err::<Vec<Entry>, Failure>(f) && *final(self) == *old(self),
                None => {
                    &&& r is Ok
                    &&& r->Ok_0@ == payouts(old(self).contributions@)
                    &&& swept(*old(self), *final(self), Status::Cancelled)
                },
            },
    {
        if self.status != Status::Active {
            return Err(Failure::Abort(Abort::NotActive));
        }
        if caller != self.creator {
            return Err(Failure::Abort(Abort::NotAuthorized));
        }
        let out = self.contributions.drain();
        self.total_raised = 0;
        self.status = Status::Cancelled;
        proof {
            lemma_zeroed(old(self).contributions@);
        }
        Ok(out)
    }

    /// `after` is `before` with `contributor`'s whole balance paid back.
    pub open spec fn refunded_one(
        before: CrowdfundContract,
        after: CrowdfundContract,
        contributor: Address,
    ) -> bool {
        &&& same_terms(before, after)
        &&& same_extras(before, after)
        &&& after.status == before.status
        &&& after.total_raised == before.total_raised - before.contribution_of(contributor)
        &&& forall|x: Address|
            #![trigger after.contribution_of(x)]
            after.contribution_of(x) == if x == contributor {
                0
            } else {
                before.contribution_of(x)
            }
        &&& !after.contributions.holds(contributor)
        &&& forall|x: Address|
            x != contributor ==> (after.contributions.holds(x) <==> before.contributions.holds(x))
        &&& after.total_pledged == before.total_pledged
        &&& after.pledges@ == before.pledges@
        &&& after.referrals@ == before.referrals@
        &&& after.last_contribution@ == before.last_contribution@
    }

    /// Pays one contributor back after a missed goal, and drops them from the
    /// contributors. A contributor with nothing left gets a payment of zero
    /// and nothing changes, so the call can be retried safely.
    pub fn refund_single(&mut self, contributor: Address, now: u64) -> (r: Result<Entry, Failure>)
        requires
            old(self).wf(),
            old(self).initialized,
        ensures
            final(self).wf(),
            match old(self).refund_failure(now) {
                Some(f) => r == Err::<Entry, Failure>(f) && *final(self) == *old(self),
                None => {
                    &&& r == Ok::<Entry, Failure>(
                        Entry {
                            account: contributor,
                            amount: old(self).contribution_of(contributor) as i128,
                        },
                    )
                    &&& Self::refunded_one(*old(self), *final(self), contributor)
                },
            },
    {
        if self.paused {
            return Err(Failure::Error(ContractError::ContractPaused));
        }
        if self.status != Status::Active {
            return Err(Failure::Abort(Abort::NotActive));
        }
        if now <= self.deadline {
            return Err(Failure::Error(ContractError::CampaignStillActive));
        }
        if self.total_raised >= self.goal {
            return Err(Failure::Error(ContractError::GoalReached));
        }
        proof {
            lemma_bounds(self.contributions@);
        }
        let amount = self.contributions.take(contributor);
        self.total_raised = self.total_raised - amount;
        Ok(Entry { account: contributor, amount })
    }

    /// Why `withdraw_contribution` is refused, if it is.
    pub open spec fn withdraw_contribution_failure(
        &self,
        contributor: Address,
        amount: i128,
        now: u64,
    ) -> Option<Failure> {
        if self.status != Status::Active {
            Some(Failure::Abort(Abort::NotActive))
        } else if now > self.deadline {
            Some(Failure::Error(ContractError::CampaignEnded))
        } else if amount < 0 || amount > self.contribution_of(contributor) {
            Some(Failure::Abort(Abort::InsufficientBalance))
        } else {
            None
        }
    }

    /// Before the deadline, takes `amount` of `contributor`'s balance back out
    /// of the campaign. A contributor left with nothing is dropped from the
    /// contributors. A zero amount changes nothing. Returns the payment.
    pub fn withdraw_contribution(&mut self, contributor: Address, amount: i128, now: u64) -> (r:
        Result<Entry, Failure>)
        requires
            old(self).wf(),
            old(self).initialized,
        ensures
            final(self).wf(),
            match old(self).withdraw_contribution_failure(contributor, amount, now) {
                Some(f) => r == Err::<Entry, Failure>(f) && *final(self) == *old(self),
                None => {
                    &&& r == Ok::<Entry, Failure>(Entry { account: contributor, amount })
                    &&& same_terms(*old(self), *final(self))
                    &&& same_extras(*old(self), *final(self))
                    &&& final(self).status == old(self).status
                    &&& final(self).total_raised == old(self).total_raised - amount
                    &&& forall|x: Address|
                        #![trigger final(self).contribution_of(x)]
                        final(self).contribution_of(x) == old(self).contribution_of(x) - if x
                            == contributor {
                            amount as int
                        } else {
                            0
                        }
                    &&& (final(self).contributions.holds(contributor) <==> final(self).contribution_of(contributor) > 0)
                    &&& final(self).total_pledged == old(self).total_pledged
                    &&& final(self).pledges@ == old(self).pledges@
                    &&& final(self).referrals@ == old(self).referrals@
                    &&& final(self).last_contribution@ == old(self).last_contribution@
                },
            },
    {
        if self.status != Status::Active {
            return Err(Failure::Abort(Abort::NotActive));
        }
        if now > self.deadline {
            return Err(Failure::Error(ContractError::CampaignEnded));
        }
        let held = self.contributions.balance_of(contributor);
        if amount < 0 || amount > held {
            return Err(Failure::Abort(Abort::InsufficientBalance));
        }
        if amount == 0 {
            proof {
                contributors_hold_positive_balances(*self, contributor);
            }
            return Ok(Entry { account: contributor, amount: 0 });
        }
        proof {
            lemma_bounds(self.contributions@);
        }
        self.contributions.debit(contributor, amount);
        self.total_raised = self.total_raised - amount;
        Ok(Entry { account: contributor, amount })
    }
}

} // verus!
