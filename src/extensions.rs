use vstd::prelude::*;
use vstd::seq_lib::lemma_seq_contains_after_push;
use crate::campaign::{listed, same_extras, same_funds, same_terms, CrowdfundContract};
use crate::types::{Abort, Address, Failure, RewardTier, RoadmapItem, Status};

verus! {

/// The index of the tier that an amount `c` earns: among the tiers whose
/// minimum is at most `c`, the one with the greatest minimum, the earliest on a tie.
pub open spec fn best_tier(tiers: Seq<RewardTier>, c: int) -> Option<int>
    decreases tiers.len(),
{
    if tiers.len() == 0 {
        None
    } else {
        let b = best_tier(tiers.drop_last(), c);
        let last = tiers.len() - 1;
        if tiers[last].min_amount <= c && match b {
            None => true,
            Some(i) => tiers[last].min_amount > tiers[i].min_amount,
        } {
            Some(last)
        } else {
            b
        }
    }
}

/// The smallest milestone of `goals` above `raised`, or zero when none is left.
pub open spec fn next_milestone(goals: Seq<i128>, raised: int) -> int
    decreases goals.len(),
{
    if goals.len() == 0 {
        0
    } else {
        let m = next_milestone(goals.drop_last(), raised);
        if goals.last() > raised && (m == 0 || goals.last() < m) {
            goals.last() as int
        } else {
            m
        }
    }
}

pub proof fn lemma_best_tier(tiers: Seq<RewardTier>, c: int)
    ensures
        match best_tier(tiers, c) {
            None => forall|j: int| 0 <= j < tiers.len() ==> tiers[j].min_amount > c,
            Some(i) => {
                &&& 0 <= i < tiers.len()
                &&& tiers[i].min_amount <= c
                &&& forall|j: int|
                    0 <= j < tiers.len() && tiers[j].min_amount <= c ==> tiers[j].min_amount
                        <= tiers[i].min_amount
                &&& forall|j: int|
                    0 <= j < i && tiers[j].min_amount <= c ==> tiers[j].min_amount
                        < tiers[i].min_amount
            },
        },
    decreases tiers.len(),
{
    if tiers.len() > 0 {
        let d = tiers.drop_last();
        lemma_best_tier(d, c);
        assert forall|j: int| #![trigger tiers[j]] 0 <= j < d.len() implies d[j] == tiers[j] by {}
    }
}

pub proof fn lemma_next_milestone(goals: Seq<i128>, raised: int)
    requires
        raised >= 0,
    ensures
        next_milestone(goals, raised) == 0 <==> forall|j: int|
            0 <= j < goals.len() ==> goals[j] <= raised,
        next_milestone(goals, raised) != 0 ==> {
            &&& goals.contains(next_milestone(goals, raised) as i128)
            &&& next_milestone(goals, raised) > raised
            &&& forall|j: int|
                0 <= j < goals.len() && goals[j] > raised ==> next_milestone(goals, raised)
                    <= goals[j]
        },
    decreases goals.len(),
{
    if goals.len() > 0 {
        let d = goals.drop_last();
        lemma_next_milestone(d, raised);
        assert forall|j: int| #![trigger goals[j]] 0 <= j < d.len() implies d[j] == goals[j] by {}
        let m = next_milestone(d, raised);
        if m != 0 {
            let k = choose|k: int| 0 <= k < d.len() && d[k] == m as i128;
            assert(goals[k] == m as i128);
        }
        if next_milestone(goals, raised) == goals.last() {
            assert(goals[goals.len() - 1] == goals.last());
        }
    }
}

/// Appends to `w` each account of `addresses` that it does not hold yet.
fn merge_into(w: &mut Vec<Address>, addresses: &Vec<Address>)
    ensures
        forall|x: Address|
            #![trigger final(w)@.contains(x)]
            final(w)@.contains(x) <==> old(w)@.contains(x) || addresses@.contains(x),
{
    let ghost w0 = w@;
    let n = addresses.len();
    let mut i: usize = 0;
    while i < n
        invariant
            n == addresses@.len(),
            i <= n,
            forall|x: Address|
                #![trigger w@.contains(x)]
                w@.contains(x) <==> w0.contains(x) || addresses@.subrange(
                    0,
                    i as int,
                ).contains(x),
        decreases n - i,
    {
        let a = addresses[i];
        let ghost w1 = w@;
        if !listed(w, a) {
            w.push(a);
        }
        proof {
            let p0 = addresses@.subrange(0, i as int);
            assert(addresses@.subrange(0, i + 1) =~= p0.push(a));
            assert forall|x: Address|
                #![trigger w@.contains(x)]
                w@.contains(x) <==> w0.contains(x) || p0.push(a).contains(x) by {
                lemma_seq_contains_after_push(p0, a, x);
                lemma_seq_contains_after_push(w1, a, x);
            }
        }
        i = i + 1;
    }
    proof {
        assert(addresses@.subrange(0, n as int) =~= addresses@);
    }
}

impl CrowdfundContract {
    /// Pauses or resumes contributions and settlement. Creator only.
    pub fn set_paused(&mut self, caller: Address, paused: bool) -> (r: Result<(), Failure>)
        requires
            old(self).wf(),
            old(self).initialized,
        ensures
            final(self).wf(),
            caller != old(self).creator ==> r == Err::<(), Failure>(
                Failure::Abort(Abort::NotAuthorized),
            ) && *final(self) == *old(self),
            caller == old(self).creator ==> {
                &&& r is Ok
                &&& *final(self) == CrowdfundContract { paused, ..*old(self) }
            },
    {
        if caller != self.creator {
            return Err(Failure::Abort(Abort::NotAuthorized));
        }
        self.paused = paused;
        Ok(())
    }

    /// Lets `addresses` contribute. Once the whitelist holds anyone, only those
    /// on it may contribute. Creator only.
    pub fn add_to_whitelist(&mut self, caller: Address, addresses: Vec<Address>) -> (r: Result<
        (),
        Failure,
    >)
        requires
            old(self).wf(),
            old(self).initialized,
        ensures
            final(self).wf(),
            caller != old(self).creator ==> r == Err::<(), Failure>(
                Failure::Abort(Abort::NotAuthorized),
            ) && *final(self) == *old(self),
            caller == old(self).creator ==> {
                &&& r is Ok
                &&& forall|x: Address|
                    final(self).whitelist@.contains(x) <==> old(self).whitelist@.contains(x)
                        || addresses@.contains(x)
                &&& same_funds(*old(self), *final(self))
                &&& same_extras(*old(self), *final(self))
                &&& same_terms(*old(self), CrowdfundContract { whitelist: old(self).whitelist, ..*final(self) })
            },
    {
        if caller != self.creator {
            return Err(Failure::Abort(Abort::NotAuthorized));
        }
        merge_into(&mut self.whitelist, &addresses);
        Ok(())
    }

    /// Why `add_reward_tier` is refused, if it is.
    pub open spec fn add_reward_tier_failure(&self, creator: Address, min_amount: i128) -> Option<
        Failure,
    > {
        if self.status != Status::Active {
            Some(Failure::Abort(Abort::NotActive))
        } else if creator != self.creator {
            Some(Failure::Abort(Abort::NotAuthorized))
        } else if min_amount <= 0 {
            Some(Failure::Abort(Abort::InvalidTierAmount))
        } else {
            None
        }
    }

    /// Appends a reward tier earned from `min_amount` on. Creator only.
    pub fn add_reward_tier(&mut self, creator: Address, name: String, min_amount: i128) -> (r:
        Result<(), Failure>)
        requires
            old(self).wf(),
            old(self).initialized,
        ensures
            final(self).wf(),
            match old(self).add_reward_tier_failure(creator, min_amount) {
                Some(f) => r == Err::<(), Failure>(f) && *final(self) == *old(self),
                None => {
                    &&& r is Ok
                    &&& final(self).reward_tiers@ == old(self).reward_tiers@.push(
                        RewardTier { name, min_amount },
                    )
                    &&& final(self).stretch_goals@ == old(self).stretch_goals@
                    &&& final(self).roadmap@ == old(self).roadmap@
                    &&& final(self).title@ == old(self).title@
                    &&& final(self).description@ == old(self).description@
                    &&& final(self).socials@ == old(self).socials@
                    &&& final(self).category@ == old(self).category@
                    &&& final(self).tags@ == old(self).tags@
                    &&& same_terms(*old(self), *final(self))
                    &&& same_funds(*old(self), *final(self))
                },
            },
    {
        if self.status != Status::Active {
            return Err(Failure::Abort(Abort::NotActive));
        }
        if creator != self.creator {
            return Err(Failure::Abort(Abort::NotAuthorized));
        }
        if min_amount <= 0 {
            return Err(Failure::Abort(Abort::InvalidTierAmount));
        }
        self.reward_tiers.push(RewardTier { name, min_amount });
        Ok(())
    }

    /// The reward tiers, in the order they were added.
    pub fn reward_tiers(&self) -> (r: &Vec<RewardTier>)
        ensures
            r@ == self.reward_tiers@,
    {
        &self.reward_tiers
    }

    /// The name of the tier that `user`'s balance earns; none for an account
    /// without a positive balance.
    pub fn get_user_tier(&self, user: Address) -> (r: Option<String>)
        requires
            self.wf(),
        ensures
            self.contribution_of(user) <= 0 ==> r is None,
            self.contribution_of(user) > 0 ==> match best_tier(
                self.reward_tiers@,
                self.contribution_of(user),
            ) {
                None => r is None,
                Some(i) => r is Some && r->Some_0@ == self.reward_tiers@[i].name@,
            },
            r is None <==> (self.contribution_of(user) <= 0 || forall|j: int|
                0 <= j < self.reward_tiers@.len() ==> self.reward_tiers@[j].min_amount
                    > self.contribution_of(user)),
            r is Some ==> exists|i: int|
                #![trigger self.reward_tiers@[i]]
                0 <= i < self.reward_tiers@.len() && r->Some_0@ == self.reward_tiers@[i].name@
                    && self.reward_tiers@[i].min_amount <= self.contribution_of(user) && (forall|
                    j: int,
                |
                    0 <= j < self.reward_tiers@.len() && self.reward_tiers@[j].min_amount
                        <= self.contribution_of(user) ==> self.reward_tiers@[j].min_amount
                        <= self.reward_tiers@[i].min_amount) && (forall|j: int|
                    0 <= j < i && self.reward_tiers@[j].min_amount <= self.contribution_of(user)
                        ==> self.reward_tiers@[j].min_amount < self.reward_tiers@[i].min_amount),
    {
        proof {
            lemma_best_tier(self.reward_tiers@, self.contribution_of(user));
        }
        let c = self.contributions.balance_of(user);
        if c <= 0 {
            return None;
        }
        let tiers = &self.reward_tiers;
        let n = tiers.len();
        let mut best: Option<usize> = None;
        let mut i: usize = 0;
        while i < n
            invariant
                n == tiers@.len(),
                i <= n,
                match best {
                    Some(b) => best_tier(tiers@.subrange(0, i as int), c as int) == Some(b as int)
                        && b < i,
                    None => best_tier(tiers@.subrange(0, i as int), c as int) is None,
                },
            decreases n - i,
        {
            proof {
                assert(tiers@.subrange(0, i + 1).drop_last() =~= tiers@.subrange(0, i as int));
            }
            if tiers[i].min_amount <= c {
                let better = match best {
                    None => true,
                    Some(b) => tiers[i].min_amount > tiers[b].min_amount,
                };
                if better {
                    best = Some(i);
                }
            }
            i = i + 1;
        }
        proof {
            assert(tiers@.subrange(0, n as int) =~= tiers@);
        }
        match best {
            Some(b) => Some(tiers[b].name.clone()),
            None => None,
        }
    }

    /// Why `add_stretch_goal` is refused, if it is.
    pub open spec fn add_stretch_goal_failure(&self, caller: Address, milestone: i128) -> Option<
        Failure,
    > {
        if caller != self.creator {
            Some(Failure::Abort(Abort::NotAuthorized))
        } else if milestone <= self.goal {
            Some(Failure::Abort(Abort::StretchGoalTooLow))
        } else {
            None
        }
    }

    /// Appends a milestone above the primary goal. Creator only.
    pub fn add_stretch_goal(&mut self, caller: Address, milestone: i128) -> (r: Result<
        (),
        Failure,
    >)
        requires
            old(self).wf(),
            old(self).initialized,
        ensures
            final(self).wf(),
            match old(self).add_stretch_goal_failure(caller, milestone) {
                Some(f) => r == Err::<(), Failure>(f) && *final(self) == *old(self),
                None => {
                    &&& r is Ok
                    &&& final(self).stretch_goals@ == old(self).stretch_goals@.push(milestone)
                    &&& final(self).reward_tiers@ == old(self).reward_tiers@
                    &&& final(self).roadmap@ == old(self).roadmap@
                    &&& final(self).title@ == old(self).title@
                    &&& final(self).description@ == old(self).description@
                    &&& final(self).socials@ == old(self).socials@
                    &&& final(self).category@ == old(self).category@
                    &&& final(self).tags@ == old(self).tags@
                    &&& same_terms(*old(self), *final(self))
                    &&& same_funds(*old(self), *final(self))
                },
            },
    {
        if caller != self.creator {
            return Err(Failure::Abort(Abort::NotAuthorized));
        }
        if milestone <= self.goal {
            return Err(Failure::Abort(Abort::StretchGoalTooLow));
        }
        self.stretch_goals.push(milestone);
        Ok(())
    }

    /// The smallest stretch goal not yet reached, or zero when none is left.
    pub fn current_milestone(&self) -> (r: i128)
        requires
            self.wf(),
        ensures
            r == next_milestone(self.stretch_goals@, self.total_raised as int),
            r == 0 <==> forall|j: int|
                0 <= j < self.stretch_goals@.len() ==> self.stretch_goals@[j] <= self.total_raised,
            r != 0 ==> {
                &&& self.stretch_goals@.contains(r)
                &&& r > self.total_raised
                &&& forall|j: int|
                    0 <= j < self.stretch_goals@.len() && self.stretch_goals@[j]
                        > self.total_raised ==> r <= self.stretch_goals@[j]
            },
    {
        let goals = &self.stretch_goals;
        let raised = self.total_raised;
        let n = goals.len();
        let mut next: i128 = 0;
        let mut i: usize = 0;
        while i < n
            invariant
                n == goals@.len(),
                i <= n,
                next == next_milestone(goals@.subrange(0, i as int), raised as int),
            decreases n - i,
        {
            proof {
                assert(goals@.subrange(0, i + 1).drop_last() =~= goals@.subrange(0, i as int));
            }
            let m = goals[i];
            if m > raised && (next == 0 || m < next) {
                next = m;
            }
            i = i + 1;
        }
        proof {
            assert(goals@.subrange(0, n as int) =~= goals@);
            lemma_next_milestone(goals@, raised as int);
        }
        next
    }

    /// Why `add_roadmap_item` is refused, if it is.
    pub open spec fn add_roadmap_item_failure(
        &self,
        caller: Address,
        now: u64,
        date: u64,
        description: Seq<char>,
    ) -> Option<Failure> {
        if caller != self.creator {
            Some(Failure::Abort(Abort::NotAuthorized))
        } else if date <= now {
            Some(Failure::Abort(Abort::DateNotInFuture))
        } else if description.len() == 0 {
            Some(Failure::Abort(Abort::EmptyDescription))
        } else {
            None
        }
    }

    /// Appends a future milestone to the campaign's timeline. Creator only.
    pub fn add_roadmap_item(&mut self, caller: Address, now: u64, date: u64, description: String) -> (r:
        Result<(), Failure>)
        requires
            old(self).wf(),
            old(self).initialized,
        ensures
            final(self).wf(),
            match old(self).add_roadmap_item_failure(caller, now, date, description@) {
                Some(f) => r == Err::<(), Failure>(f) && *final(self) == *old(self),
                None => {
                    &&& r is Ok
                    &&& final(self).roadmap@ == old(self).roadmap@.push(
                        RoadmapItem { date, description },
                    )
                    &&& final(self).reward_tiers@ == old(self).reward_tiers@
                    &&& final(self).stretch_goals@ == old(self).stretch_goals@
                    &&& final(self).title@ == old(self).title@
                    &&& final(self).description@ == old(self).description@
                    &&& final(self).socials@ == old(self).socials@
                    &&& final(self).category@ == old(self).category@
                    &&& final(self).tags@ == old(self).tags@
                    &&& same_terms(*old(self), *final(self))
                    &&& same_funds(*old(self), *final(self))
                },
            },
    {
        if caller != self.creator {
            return Err(Failure::Abort(Abort::NotAuthorized));
        }
        if date <= now {
            return Err(Failure::Abort(Abort::DateNotInFuture));
        }
        if description.as_str().is_empty() {
            return Err(Failure::Abort(Abort::EmptyDescription));
        }
        self.roadmap.push(RoadmapItem { date, description });
        Ok(())
    }

    /// The roadmap, in the order it was written.
    pub fn roadmap(&self) -> (r: &Vec<RoadmapItem>)
        ensures
            r@ == self.roadmap@,
    {
        &self.roadmap
    }

    /// Why `update_metadata` is refused, if it is.
    pub open spec fn update_metadata_failure(&self, creator: Address) -> Option<Failure> {
        if self.status != Status::Active {
            Some(Failure::Abort(Abort::NotActive))
        } else if creator != self.creator {
            Some(Failure::Abort(Abort::NotAuthorized))
        } else {
            None
        }
    }

    /// Replaces whichever of title, description and social links is given.
    /// Creator only, while the campaign is active.
    pub fn update_metadata(
        &mut self,
        creator: Address,
        title: Option<String>,
        description: Option<String>,
        socials: Option<String>,
    ) -> (r: Result<(), Failure>)
        requires
            old(self).wf(),
            old(self).initialized,
        ensures
            final(self).wf(),
            match old(self).update_metadata_failure(creator) {
                Some(f) => r == Err::<(), Failure>(f) && *final(self) == *old(self),
                None => {
                    &&& r is Ok
                    &&& final(self).title@ == match title {
                        Some(t) => t@,
                        None => old(self).title@,
                    }
                    &&& final(self).description@ == match description {
                        Some(d) => d@,
                        None => old(self).description@,
                    }
                    &&& final(self).socials@ == match socials {
                        Some(s) => s@,
                        None => old(self).socials@,
                    }
                    &&& final(self).reward_tiers@ == old(self).reward_tiers@
                    &&& final(self).stretch_goals@ == old(self).stretch_goals@
                    &&& final(self).roadmap@ == old(self).roadmap@
                    &&& final(self).category@ == old(self).category@
                    &&& final(self).tags@ == old(self).tags@
                    &&& same_terms(*old(self), *final(self))
                    &&& same_funds(*old(self), *final(self))
                },
            },
    {
        if self.status != Status::Active {
            return Err(Failure::Abort(Abort::NotActive));
        }
        if creator != self.creator {
            return Err(Failure::Abort(Abort::NotAuthorized));
        }
        if let Some(t) = title {
            self.title = t;
        }
        if let Some(d) = description {
            self.description = d;
        }
        if let Some(s) = socials {
            self.socials = s;
        }
        Ok(())
    }

    /// Why `update_deadline` is refused, if it is.
    pub open spec fn update_deadline_failure(&self, caller: Address, new_deadline: u64) -> Option<
        Failure,
    > {
        if self.status != Status::Active {
            Some(Failure::Abort(Abort::NotActive))
        } else if caller != self.creator {
            Some(Failure::Abort(Abort::NotAuthorized))
        } else if new_deadline <= self.deadline {
            Some(Failure::Abort(Abort::DeadlineNotExtended))
        } else {
            None
        }
    }

    /// Moves the deadline later; it can never be brought forward. Creator only,
    /// while the campaign is active.
    pub fn update_deadline(&mut self, caller: Address, new_deadline: u64) -> (r: Result<
        (),
        Failure,
    >)
        requires
            old(self).wf(),
            old(self).initialized,
        ensures
            final(self).wf(),
            match old(self).update_deadline_failure(caller, new_deadline) {
                Some(f) => r == Err::<(), Failure>(f) && *final(self) == *old(self),
                None => r is Ok && *final(self) == CrowdfundContract {
                    deadline: new_deadline,
                    ..*old(self)
                },
            },
    {
        if self.status != Status::Active {
            return Err(Failure::Abort(Abort::NotActive));
        }
        if caller != self.creator {
            return Err(Failure::Abort(Abort::NotAuthorized));
        }
        if new_deadline <= self.deadline {
            return Err(Failure::Abort(Abort::DeadlineNotExtended));
        }
        self.deadline = new_deadline;
        Ok(())
    }

    /// Whether `caller` may replace the contract's code. The stored state
    /// carries over an upgrade unchanged.
    pub fn upgrade(&self, caller: Address) -> (r: Result<(), Failure>)
        ensures
            caller == self.admin <==> r is Ok,
            r is Err ==> r == Err::<(), Failure>(Failure::Abort(Abort::NotAuthorized)),
    {
        if caller != self.admin {
            return Err(Failure::Abort(Abort::NotAuthorized));
        }
        Ok(())
    }
}

} // verus!
