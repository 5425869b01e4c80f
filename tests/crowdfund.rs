use std::collections::HashMap;

use crowdfund::{
    Abort, Address, ContractError, CrowdfundContract, Entry, Failure, Status,
};

const NOW: u64 = 0;

/// Token balances outside the campaign, moved as the campaign's results say.
struct Bank {
    balances: HashMap<Address, i128>,
    escrow: i128,
}

impl Bank {
    fn new() -> Bank {
        Bank { balances: HashMap::new(), escrow: 0 }
    }

    fn mint(&mut self, to: Address, amount: i128) {
        *self.balances.entry(to).or_insert(0) += amount;
    }

    fn balance(&self, of: Address) -> i128 {
        *self.balances.get(&of).unwrap_or(&0)
    }

    fn pay_in(&mut self, from: Address, amount: i128) {
        let b = self.balances.entry(from).or_insert(0);
        assert!(*b >= amount, "insufficient balance");
        *b -= amount;
        self.escrow += amount;
    }

    fn pay_out(&mut self, payments: &[Entry]) {
        for p in payments {
            assert!(self.escrow >= p.amount);
            self.escrow -= p.amount;
            *self.balances.entry(p.account).or_insert(0) += p.amount;
        }
    }
}

struct Setup {
    campaign: CrowdfundContract,
    bank: Bank,
    creator: Address,
    token: Address,
    next: u64,
}

impl Setup {
    fn new() -> Setup {
        let creator = Address(1);
        let mut bank = Bank::new();
        bank.mint(creator, 10_000_000);
        Setup { campaign: CrowdfundContract::new(), bank, creator, token: Address(2), next: 100 }
    }

    fn generate(&mut self) -> Address {
        self.next += 1;
        Address(self.next)
    }

    fn init(&mut self, goal: i128, deadline: u64, min_contribution: i128) {
        let creator = self.creator;
        let token = self.token;
        self.campaign
            .initialize(creator, token, goal, goal * 2, deadline, min_contribution, None)
            .unwrap();
    }

    fn contribute(&mut self, who: Address, amount: i128, now: u64) -> Result<i128, Failure> {
        let r = self.campaign.contribute(who, amount, None, now);
        if let Ok(paid) = r {
            self.bank.pay_in(who, paid);
        }
        r
    }

    fn withdraw(&mut self, now: u64) -> Result<Vec<Entry>, Failure> {
        let creator = self.creator;
        let r = self.campaign.withdraw(creator, now);
        if let Ok(p) = &r {
            self.bank.pay_out(p);
        }
        r
    }

    fn refund(&mut self, now: u64) -> Result<Vec<Entry>, Failure> {
        let r = self.campaign.refund(now);
        if let Ok(p) = &r {
            self.bank.pay_out(p);
        }
        r
    }

    fn cancel(&mut self) -> Result<Vec<Entry>, Failure> {
        let creator = self.creator;
        let r = self.campaign.cancel(creator);
        if let Ok(p) = &r {
            self.bank.pay_out(p);
        }
        r
    }
}

fn err(e: ContractError) -> Failure {
    Failure::Error(e)
}

fn abort(a: Abort) -> Failure {
    Failure::Abort(a)
}

#[test]
fn test_initialize() {
    let mut s = Setup::new();
    let deadline = NOW + 3600;
    let goal: i128 = 1_000_000;
    let min_contribution: i128 = 1_000;
    s.init(goal, deadline, min_contribution);

    assert_eq!(s.campaign.goal(), goal);
    assert_eq!(s.campaign.deadline(), deadline);
    assert_eq!(s.campaign.min_contribution(), min_contribution);
    assert_eq!(s.campaign.total_raised(), 0);
}

#[test]
fn test_version() {
    let s = Setup::new();
    assert_eq!(s.campaign.version(), 1);
}

#[test]
fn test_double_initialize_panics() {
    let mut s = Setup::new();
    let deadline = NOW + 3600;
    let goal: i128 = 1_000_000;
    let min_contribution: i128 = 1_000;
    s.init(goal, deadline, min_contribution);
    let result =
        s.campaign.initialize(s.creator, s.token, goal, goal * 2, deadline, min_contribution, None);

    assert!(result.is_err());
    assert_eq!(result.unwrap_err(), err(ContractError::AlreadyInitialized));
}

#[test]
fn test_contribute() {
    let mut s = Setup::new();
    s.init(1_000_000, NOW + 3600, 1_000);
    let contributor = s.generate();
    s.bank.mint(contributor, 500_000);

    s.contribute(contributor, 500_000, NOW).unwrap();

    assert_eq!(s.campaign.total_raised(), 500_000);
    assert_eq!(s.campaign.contribution(contributor), 500_000);
}

#[test]
fn test_multiple_contributions() {
    let mut s = Setup::new();
    s.init(1_000_000, NOW + 3600, 1_000);
    let alice = s.generate();
    let bob = s.generate();
    s.bank.mint(alice, 600_000);
    s.bank.mint(bob, 400_000);

    s.contribute(alice, 300_000, NOW).unwrap();
    s.contribute(bob, 200_000, NOW).unwrap();

    assert_eq!(s.campaign.total_raised(), 500_000);
    assert_eq!(s.campaign.contribution(alice), 300_000);
    assert_eq!(s.campaign.contribution(bob), 200_000);
}

#[test]
fn test_contribute_after_deadline_panics() {
    let mut s = Setup::new();
    let deadline = NOW + 100;
    s.init(1_000_000, deadline, 1_000);
    let contributor = s.generate();
    s.bank.mint(contributor, 500_000);

    let result = s.contribute(contributor, 500_000, deadline + 1);

    assert!(result.is_err());
    assert_eq!(result.unwrap_err(), err(ContractError::CampaignEnded));
}

#[test]
fn test_withdraw_after_goal_met() {
    let mut s = Setup::new();
    let deadline = NOW + 3600;
    let goal: i128 = 1_000_000;
    s.init(goal, deadline, 1_000);
    let contributor = s.generate();
    s.bank.mint(contributor, 1_000_000);
    s.contribute(contributor, 1_000_000, NOW).unwrap();

    assert_eq!(s.campaign.total_raised(), goal);

    s.withdraw(deadline + 1).unwrap();

    assert_eq!(s.campaign.total_raised(), 0);
    assert_eq!(s.bank.balance(s.creator), 10_000_000 + 1_000_000);
}

#[test]
fn test_withdraw_before_deadline_panics() {
    let mut s = Setup::new();
    s.init(1_000_000, NOW + 3600, 1_000);
    let contributor = s.generate();
    s.bank.mint(contributor, 1_000_000);
    s.contribute(contributor, 1_000_000, NOW).unwrap();

    let result = s.withdraw(NOW);

    assert!(result.is_err());
    assert_eq!(result.unwrap_err(), err(ContractError::CampaignStillActive));
}

#[test]
fn test_withdraw_goal_not_reached_panics() {
    let mut s = Setup::new();
    let deadline = NOW + 3600;
    s.init(1_000_000, deadline, 1_000);
    let contributor = s.generate();
    s.bank.mint(contributor, 500_000);
    s.contribute(contributor, 500_000, NOW).unwrap();

    let result = s.withdraw(deadline + 1);

    assert!(result.is_err());
    assert_eq!(result.unwrap_err(), err(ContractError::GoalNotReached));
}

#[test]
fn test_refund_when_goal_not_met() {
    let mut s = Setup::new();
    let deadline = NOW + 3600;
    s.init(1_000_000, deadline, 1_000);
    let alice = s.generate();
    let bob = s.generate();
    s.bank.mint(alice, 300_000);
    s.bank.mint(bob, 200_000);
    s.contribute(alice, 300_000, NOW).unwrap();
    s.contribute(bob, 200_000, NOW).unwrap();

    s.refund(deadline + 1).unwrap();

    assert_eq!(s.bank.balance(alice), 300_000);
    assert_eq!(s.bank.balance(bob), 200_000);
    assert_eq!(s.campaign.total_raised(), 0);
}

#[test]
fn test_refund_when_goal_reached_panics() {
    let mut s = Setup::new();
    let deadline = NOW + 3600;
    s.init(1_000_000, deadline, 1_000);
    let contributor = s.generate();
    s.bank.mint(contributor, 1_000_000);
    s.contribute(contributor, 1_000_000, NOW).unwrap();

    let result = s.refund(deadline + 1);

    assert!(result.is_err());
    assert_eq!(result.unwrap_err(), err(ContractError::GoalReached));
}

#[test]
fn test_bug_condition_exploration_all_error_conditions_panic() {
    // Double initialization.
    {
        let mut s = Setup::new();
        let goal: i128 = 1_000_000;
        s.init(goal, NOW + 3600, 1_000);
        let result = s.campaign.initialize(s.creator, s.token, goal, goal * 2, NOW + 3600, 1_000, None);
        assert!(result.is_err());
        assert_eq!(result.unwrap_err(), err(ContractError::AlreadyInitialized));
    }
    // Late contribution.
    {
        let mut s = Setup::new();
        let deadline = NOW + 100;
        s.init(1_000_000, deadline, 1_000);
        let contributor = s.generate();
        s.bank.mint(contributor, 500_000);
        let result = s.contribute(contributor, 500_000, deadline + 1);
        assert!(result.is_err());
        assert_eq!(result.unwrap_err(), err(ContractError::CampaignEnded));
    }
    // Early withdrawal.
    {
        let mut s = Setup::new();
        s.init(1_000_000, NOW + 3600, 1_000);
        let contributor = s.generate();
        s.bank.mint(contributor, 1_000_000);
        s.contribute(contributor, 1_000_000, NOW).unwrap();
        let result = s.withdraw(NOW);
        assert!(result.is_err());
        assert_eq!(result.unwrap_err(), err(ContractError::CampaignStillActive));
    }
    // Withdrawal without goal.
    {
        let mut s = Setup::new();
        let deadline = NOW + 3600;
        s.init(1_000_000, deadline, 1_000);
        let contributor = s.generate();
        s.bank.mint(contributor, 500_000);
        s.contribute(contributor, 500_000, NOW).unwrap();
        let result = s.withdraw(deadline + 1);
        assert!(result.is_err());
        assert_eq!(result.unwrap_err(), err(ContractError::GoalNotReached));
    }
    // Early refund.
    {
        let mut s = Setup::new();
        s.init(1_000_000, NOW + 3600, 1_000);
        let contributor = s.generate();
        s.bank.mint(contributor, 500_000);
        s.contribute(contributor, 500_000, NOW).unwrap();
        let result = s.refund(NOW);
        assert!(result.is_err());
        assert_eq!(result.unwrap_err(), err(ContractError::CampaignStillActive));
    }
    // Refund after success.
    {
        let mut s = Setup::new();
        let deadline = NOW + 3600;
        s.init(1_000_000, deadline, 1_000);
        let contributor = s.generate();
        s.bank.mint(contributor, 1_000_000);
        s.contribute(contributor, 1_000_000, NOW).unwrap();
        let result = s.refund(deadline + 1);
        assert!(result.is_err());
        assert_eq!(result.unwrap_err(), err(ContractError::GoalReached));
    }
}

#[test]
fn test_cancel_with_no_contributions() {
    let mut s = Setup::new();
    s.init(1_000_000, NOW + 3600, 1_000);
    s.cancel().unwrap();
    assert_eq!(s.campaign.total_raised(), 0);
}

#[test]
fn test_cancel_with_contributions() {
    let mut s = Setup::new();
    s.init(1_000_000, NOW + 3600, 1_000);
    let alice = s.generate();
    let bob = s.generate();
    s.bank.mint(alice, 300_000);
    s.bank.mint(bob, 200_000);
    s.contribute(alice, 300_000, NOW).unwrap();
    s.contribute(bob, 200_000, NOW).unwrap();

    s.cancel().unwrap();

    assert_eq!(s.bank.balance(alice), 300_000);
    assert_eq!(s.bank.balance(bob), 200_000);
    assert_eq!(s.campaign.total_raised(), 0);
}

#[test]
fn test_contribute_exact_minimum() {
    let mut s = Setup::new();
    s.init(1_000_000, NOW + 3600, 10_000);
    let contributor = s.generate();
    s.bank.mint(contributor, 10_000);
    s.contribute(contributor, 10_000, NOW).unwrap();
    assert_eq!(s.campaign.total_raised(), 10_000);
    assert_eq!(s.campaign.contribution(contributor), 10_000);
}

#[test]
fn test_contribute_above_minimum() {
    let mut s = Setup::new();
    s.init(1_000_000, NOW + 3600, 10_000);
    let contributor = s.generate();
    s.bank.mint(contributor, 50_000);
    s.contribute(contributor, 50_000, NOW).unwrap();
    assert_eq!(s.campaign.total_raised(), 50_000);
    assert_eq!(s.campaign.contribution(contributor), 50_000);
}

fn three_tiers(s: &mut Setup) {
    let creator = s.creator;
    s.campaign.add_reward_tier(creator, "Bronze".to_string(), 10_000).unwrap();
    s.campaign.add_reward_tier(creator, "Silver".to_string(), 100_000).unwrap();
    s.campaign.add_reward_tier(creator, "Gold".to_string(), 500_000).unwrap();
}

#[test]
fn test_get_user_tier_bronze_level() {
    let mut s = Setup::new();
    s.init(1_000_000, NOW + 3600, 1_000);
    three_tiers(&mut s);
    let contributor = s.generate();
    s.bank.mint(contributor, 50_000);
    s.contribute(contributor, 50_000, NOW).unwrap();
    let tier = s.campaign.get_user_tier(contributor);
    assert!(tier.is_some());
    assert_eq!(tier.unwrap(), "Bronze");
}

#[test]
fn test_get_user_tier_gold_level() {
    let mut s = Setup::new();
    s.init(1_000_000, NOW + 3600, 1_000);
    three_tiers(&mut s);
    let contributor = s.generate();
    s.bank.mint(contributor, 600_000);
    s.contribute(contributor, 600_000, NOW).unwrap();
    let tier = s.campaign.get_user_tier(contributor);
    assert!(tier.is_some());
    assert_eq!(tier.unwrap(), "Gold");
}

#[test]
fn test_get_user_tier_non_contributor_returns_none() {
    let mut s = Setup::new();
    s.init(1_000_000, NOW + 3600, 1_000);
    let creator = s.creator;
    s.campaign.add_reward_tier(creator, "Bronze".to_string(), 10_000).unwrap();
    let non_contributor = s.generate();
    let tier = s.campaign.get_user_tier(non_contributor);
    assert!(tier.is_none());
}

#[test]
fn test_get_user_tier_no_tiers_defined_returns_none() {
    let mut s = Setup::new();
    s.init(1_000_000, NOW + 3600, 1_000);
    let contributor = s.generate();
    s.bank.mint(contributor, 500_000);
    s.contribute(contributor, 500_000, NOW).unwrap();
    let tier = s.campaign.get_user_tier(contributor);
    assert!(tier.is_none());
}

#[test]
fn test_get_user_tier_highest_qualifying_tier_returned() {
    let mut s = Setup::new();
    s.init(1_000_000, NOW + 3600, 1_000);
    three_tiers(&mut s);
    let contributor = s.generate();
    s.bank.mint(contributor, 1_000_000);
    s.contribute(contributor, 1_000_000, NOW).unwrap();
    let tier = s.campaign.get_user_tier(contributor);
    assert!(tier.is_some());
    assert_eq!(tier.unwrap(), "Gold");
}

#[test]
fn test_add_reward_tier_non_creator_rejected() {
    let mut s = Setup::new();
    s.init(1_000_000, NOW + 3600, 1_000);
    let non_creator = s.generate();
    let r = s.campaign.add_reward_tier(non_creator, "Bronze".to_string(), 10_000);
    assert_eq!(r, Err(abort(Abort::NotAuthorized)));
    assert_eq!(s.campaign.reward_tiers().len(), 0);
}

#[test]
fn test_add_reward_tier_rejects_zero_min_amount() {
    let mut s = Setup::new();
    s.init(1_000_000, NOW + 3600, 1_000);
    let creator = s.creator;
    let r = s.campaign.add_reward_tier(creator, "Bronze".to_string(), 0);
    assert_eq!(r, Err(abort(Abort::InvalidTierAmount)));
}

#[test]
fn test_reward_tiers_view() {
    let mut s = Setup::new();
    s.init(1_000_000, NOW + 3600, 1_000);
    assert_eq!(s.campaign.reward_tiers().len(), 0);
    let creator = s.creator;
    s.campaign.add_reward_tier(creator, "Bronze".to_string(), 10_000).unwrap();
    s.campaign.add_reward_tier(creator, "Silver".to_string(), 100_000).unwrap();
    let tiers = s.campaign.reward_tiers();
    assert_eq!(tiers.len(), 2);
    assert_eq!(tiers.get(0).unwrap().name, "Bronze");
    assert_eq!(tiers.get(0).unwrap().min_amount, 10_000);
    assert_eq!(tiers.get(1).unwrap().name, "Silver");
    assert_eq!(tiers.get(1).unwrap().min_amount, 100_000);
}

#[test]
fn test_add_single_roadmap_item() {
    let mut s = Setup::new();
    s.init(1_000_000, NOW + 3600, 1_000);
    let roadmap_date = NOW + 86400;
    let creator = s.creator;
    s.campaign.add_roadmap_item(creator, NOW, roadmap_date, "Beta release".to_string()).unwrap();
    let roadmap = s.campaign.roadmap();
    assert_eq!(roadmap.len(), 1);
    assert_eq!(roadmap.get(0).unwrap().date, roadmap_date);
    assert_eq!(roadmap.get(0).unwrap().description, "Beta release");
}

#[test]
fn test_add_multiple_roadmap_items_in_order() {
    let mut s = Setup::new();
    s.init(1_000_000, NOW + 3600, 1_000);
    let creator = s.creator;
    let date1 = NOW + 86400;
    let date2 = NOW + 172800;
    let date3 = NOW + 259200;
    s.campaign.add_roadmap_item(creator, NOW, date1, "Alpha release".to_string()).unwrap();
    s.campaign.add_roadmap_item(creator, NOW, date2, "Beta release".to_string()).unwrap();
    s.campaign.add_roadmap_item(creator, NOW, date3, "Production launch".to_string()).unwrap();
    let roadmap = s.campaign.roadmap();
    assert_eq!(roadmap.len(), 3);
    assert_eq!(roadmap.get(0).unwrap().date, date1);
    assert_eq!(roadmap.get(1).unwrap().date, date2);
    assert_eq!(roadmap.get(2).unwrap().date, date3);
    assert_eq!(roadmap.get(0).unwrap().description, "Alpha release");
    assert_eq!(roadmap.get(1).unwrap().description, "Beta release");
    assert_eq!(roadmap.get(2).unwrap().description, "Production launch");
}

#[test]
fn test_add_roadmap_item_with_past_date_panics() {
    let mut s = Setup::new();
    s.init(1_000_000, NOW + 3600, 1_000);
    let creator = s.creator;
    let later = NOW + 1000;
    let past_date = NOW + 500;
    let r = s.campaign.add_roadmap_item(creator, later, past_date, "Past milestone".to_string());
    assert_eq!(r, Err(abort(Abort::DateNotInFuture)));
}

#[test]
fn test_add_roadmap_item_with_current_date_panics() {
    let mut s = Setup::new();
    s.init(1_000_000, NOW + 3600, 1_000);
    let creator = s.creator;
    let r = s.campaign.add_roadmap_item(creator, NOW, NOW, "Current milestone".to_string());
    assert_eq!(r, Err(abort(Abort::DateNotInFuture)));
}

#[test]
fn test_add_roadmap_item_with_empty_description_panics() {
    let mut s = Setup::new();
    s.init(1_000_000, NOW + 3600, 1_000);
    let creator = s.creator;
    let r = s.campaign.add_roadmap_item(creator, NOW, NOW + 86400, String::new());
    assert_eq!(r, Err(abort(Abort::EmptyDescription)));
}

#[test]
fn test_add_roadmap_item_by_non_creator_panics() {
    let mut s = Setup::new();
    s.init(1_000_000, NOW + 3600, 1_000);
    let non_creator = s.generate();
    let r = s.campaign.add_roadmap_item(non_creator, NOW, NOW + 86400, "Milestone".to_string());
    assert_eq!(r, Err(abort(Abort::NotAuthorized)));
}

#[test]
fn test_roadmap_empty_after_initialization() {
    let mut s = Setup::new();
    s.init(1_000_000, NOW + 3600, 1_000);
    assert_eq!(s.campaign.roadmap().len(), 0);
}

#[test]
fn test_update_title() {
    let mut s = Setup::new();
    s.init(1_000_000, NOW + 3600, 1_000);
    let creator = s.creator;
    s.campaign
        .update_metadata(creator, Some("New Campaign Title".to_string()), None, None)
        .unwrap();
    assert_eq!(s.campaign.title(), "New Campaign Title");
}

#[test]
fn test_update_description() {
    let mut s = Setup::new();
    s.init(1_000_000, NOW + 3600, 1_000);
    let creator = s.creator;
    s.campaign
        .update_metadata(creator, None, Some("New campaign description".to_string()), None)
        .unwrap();
    assert_eq!(s.campaign.description(), "New campaign description");
}

#[test]
fn test_update_socials() {
    let mut s = Setup::new();
    s.init(1_000_000, NOW + 3600, 1_000);
    let creator = s.creator;
    s.campaign
        .update_metadata(creator, None, None, Some("https://twitter.com/campaign".to_string()))
        .unwrap();
    assert_eq!(s.campaign.socials(), "https://twitter.com/campaign");
}

#[test]
fn test_partial_update() {
    let mut s = Setup::new();
    s.init(1_000_000, NOW + 3600, 1_000);
    let creator = s.creator;
    s.campaign.update_metadata(creator, Some("Updated Title".to_string()), None, None).unwrap();
    s.campaign
        .update_metadata(creator, None, None, Some("https://twitter.com/new".to_string()))
        .unwrap();
    assert_eq!(s.campaign.title(), "Updated Title");
    assert_eq!(s.campaign.description(), "");
    assert_eq!(s.campaign.socials(), "https://twitter.com/new");
}

#[test]
fn test_update_metadata_when_not_active_panics() {
    let mut s = Setup::new();
    let deadline = NOW + 3600;
    s.init(1_000_000, deadline, 1_000);
    let contributor = s.generate();
    s.bank.mint(contributor, 1_000_000);
    s.contribute(contributor, 1_000_000, NOW).unwrap();
    s.withdraw(deadline + 1).unwrap();
    let creator = s.creator;
    let r = s.campaign.update_metadata(creator, Some("New Title".to_string()), None, None);
    assert_eq!(r, Err(abort(Abort::NotActive)));
}

#[test]
fn test_update_metadata_after_cancel_panics() {
    let mut s = Setup::new();
    s.init(1_000_000, NOW + 3600, 1_000);
    s.cancel().unwrap();
    let creator = s.creator;
    let r = s.campaign.update_metadata(creator, Some("New Title".to_string()), None, None);
    assert_eq!(r, Err(abort(Abort::NotActive)));
}

#[test]
fn test_update_deadline_extends_campaign() {
    let mut s = Setup::new();
    let deadline = NOW + 3600;
    s.init(1_000_000, deadline, 1_000);
    assert_eq!(s.campaign.deadline(), deadline);
    let new_deadline = deadline + 7200;
    let creator = s.creator;
    s.campaign.update_deadline(creator, new_deadline).unwrap();
    assert_eq!(s.campaign.deadline(), new_deadline);
}

#[test]
fn test_update_deadline_rejects_shortening() {
    let mut s = Setup::new();
    let deadline = NOW + 3600;
    s.init(1_000_000, deadline, 1_000);
    let creator = s.creator;
    let r = s.campaign.update_deadline(creator, deadline - 1800);
    assert_eq!(r, Err(abort(Abort::DeadlineNotExtended)));
    assert_eq!(s.campaign.deadline(), deadline);
}

#[test]
fn test_update_deadline_rejects_equal_deadline() {
    let mut s = Setup::new();
    let deadline = NOW + 3600;
    s.init(1_000_000, deadline, 1_000);
    let creator = s.creator;
    let r = s.campaign.update_deadline(creator, deadline);
    assert_eq!(r, Err(abort(Abort::DeadlineNotExtended)));
}

#[test]
fn test_update_deadline_when_not_active_panics() {
    let mut s = Setup::new();
    let deadline = NOW + 3600;
    s.init(1_000_000, deadline, 1_000);
    let _ = s.refund(deadline + 1);
    assert_eq!(s.campaign.status(), Status::Refunded);
    let creator = s.creator;
    let r = s.campaign.update_deadline(creator, deadline + 7200);
    assert_eq!(r, Err(abort(Abort::NotActive)));
}

#[test]
fn test_add_single_stretch_goal() {
    let mut s = Setup::new();
    s.init(1_000_000, NOW + 3600, 1_000);
    let stretch_milestone: i128 = 1_500_000;
    let creator = s.creator;
    s.campaign.add_stretch_goal(creator, stretch_milestone).unwrap();
    assert_eq!(s.campaign.current_milestone(), stretch_milestone);
}

#[test]
fn test_contribute_rejected_when_paused() {
    let mut s = Setup::new();
    s.init(1_000_000, NOW + 3600, 1_000);
    let creator = s.creator;
    s.campaign.set_paused(creator, true).unwrap();
    let contributor = s.generate();
    s.bank.mint(contributor, 5_000);
    let result = s.contribute(contributor, 5_000, NOW);
    assert!(result.is_err());
    assert_eq!(result.unwrap_err(), err(ContractError::ContractPaused));
}

#[test]
fn test_withdraw_rejected_when_paused() {
    let mut s = Setup::new();
    let deadline = NOW + 3600;
    let goal: i128 = 1_000_000;
    s.init(goal, deadline, 1_000);
    let contributor = s.generate();
    s.bank.mint(contributor, goal);
    s.contribute(contributor, goal, NOW).unwrap();
    let creator = s.creator;
    s.campaign.set_paused(creator, true).unwrap();
    let result = s.withdraw(deadline + 1);
    assert!(result.is_err());
    assert_eq!(result.unwrap_err(), err(ContractError::ContractPaused));
}

#[test]
fn test_refund_rejected_when_paused() {
    let mut s = Setup::new();
    let deadline = NOW + 3600;
    s.init(1_000_000, deadline, 1_000);
    let contributor = s.generate();
    s.bank.mint(contributor, 500_000);
    s.contribute(contributor, 500_000, NOW).unwrap();
    let creator = s.creator;
    s.campaign.set_paused(creator, true).unwrap();
    let result = s.refund(deadline + 1);
    assert!(result.is_err());
    assert_eq!(result.unwrap_err(), err(ContractError::ContractPaused));
}

#[test]
fn test_all_interactions_succeed_after_unpause() {
    let mut s = Setup::new();
    s.init(1_000_000, NOW + 3600, 1_000);
    let creator = s.creator;
    s.campaign.set_paused(creator, true).unwrap();
    s.campaign.set_paused(creator, false).unwrap();
    let contributor = s.generate();
    s.bank.mint(contributor, 5_000);
    s.contribute(contributor, 5_000, NOW).unwrap();
    assert_eq!(s.campaign.total_raised(), 5_000);
}

#[test]
fn test_set_paused_rejected_from_non_creator() {
    let mut s = Setup::new();
    s.init(1_000_000, NOW + 3600, 1_000);
    let non_creator = s.generate();
    let r = s.campaign.set_paused(non_creator, true);
    assert_eq!(r, Err(abort(Abort::NotAuthorized)));
    assert!(!s.campaign.is_paused());
}

#[test]
fn test_contributor_count_zero_before_contributions() {
    let mut s = Setup::new();
    s.init(1_000_000, NOW + 3600, 1_000);
    assert_eq!(s.campaign.contributor_count(), 0);
}

#[test]
fn test_contributor_count_one_after_single_contribution() {
    let mut s = Setup::new();
    s.init(1_000_000, NOW + 3600, 1_000);
    let contributor = s.generate();
    s.bank.mint(contributor, 500_000);
    s.contribute(contributor, 500_000, NOW).unwrap();
    assert_eq!(s.campaign.contributor_count(), 1);
}

#[test]
fn test_contributor_count_multiple_contributors() {
    let mut s = Setup::new();
    s.init(1_000_000, NOW + 3600, 1_000);
    let alice = s.generate();
    let bob = s.generate();
    let charlie = s.generate();
    s.bank.mint(alice, 300_000);
    s.bank.mint(bob, 200_000);
    s.bank.mint(charlie, 100_000);
    s.contribute(alice, 300_000, NOW).unwrap();
    assert_eq!(s.campaign.contributor_count(), 1);
    s.contribute(bob, 200_000, NOW).unwrap();
    assert_eq!(s.campaign.contributor_count(), 2);
    s.contribute(charlie, 100_000, NOW).unwrap();
    assert_eq!(s.campaign.contributor_count(), 3);
}
