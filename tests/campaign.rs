use crowdfunding::{Address, CampaignStats, CrowdfundingContract, CrowdfundingError};

const T: u64 = 1_700_000_000;

fn addr(key: &str) -> Address {
    Address::from_key(key.to_string())
}

fn started(goal: i128, deadline: u64) -> CrowdfundingContract {
    let mut c = CrowdfundingContract::new();
    c.initialize(addr("OWNER"), goal, deadline, addr("TOKEN"), "Technology".to_string());
    c
}

fn snapshot(c: &CrowdfundingContract) -> (i128, Vec<(String, i128)>, CampaignStats, Vec<String>, Vec<String>, Vec<String>) {
    let pairs = c
        .get_donations()
        .into_iter()
        .map(|(a, v)| (a.key().clone(), v))
        .collect();
    (
        c.get_total_raised(),
        pairs,
        c.get_campaign_stats(),
        c.get_updates(),
        c.get_comments(),
        c.get_milestones(),
    )
}

#[test]
fn fresh_campaign_reads_defaults() {
    let c = CrowdfundingContract::new();
    assert!(!c.get_is_already_init());
    assert_eq!(c.get_total_raised(), 0);
    assert_eq!(c.get_donation(&addr("A")), 0);
    assert_eq!(c.get_category(), "Uncategorized");
    assert_eq!(c.get_progress_percentage(), 0);
    assert!(!c.is_campaign_active(1));
    assert!(c.is_campaign_active(0));
    assert!(c.get_updates().is_empty());
    assert_eq!(c.get_update_count(), 0);
    assert_eq!(c.get_comment_count(), 0);
    assert!(c.get_milestones().is_empty());
    assert_eq!(
        c.get_campaign_stats(),
        CampaignStats { raised: 0, goal: 0, donors: 0, updates: 0, comments: 0 }
    );
}

#[test]
fn initialize_sets_settings() {
    let c = started(1000, T);
    assert!(c.get_is_already_init());
    assert_eq!(c.get_category(), "Technology");
    assert_eq!(c.get_goal(), 1000);
    assert_eq!(c.get_deadline(), T);
    assert_eq!(c.get_owner().key(), "OWNER");
    assert_eq!(c.get_token().key(), "TOKEN");
    assert_eq!(c.get_total_raised(), 0);
}

#[test]
fn initialize_again_resets_everything() {
    let mut c = started(1000, T);
    assert_eq!(c.donate(addr("A"), 300, T, true), Ok(()));
    assert_eq!(c.post_update(addr("OWNER"), "week one".to_string()), Ok(()));
    c.add_comment(addr("B"), "nice".to_string());
    assert_eq!(c.add_milestone(addr("OWNER"), "prototype".to_string()), Ok(()));
    c.initialize(addr("OTHER"), 50, T + 10, addr("TOKEN2"), "Art".to_string());
    assert_eq!(c.get_total_raised(), 0);
    assert_eq!(c.get_donation(&addr("A")), 0);
    assert!(c.get_updates().is_empty());
    assert!(c.get_comments().is_empty());
    assert!(c.get_milestones().is_empty());
    assert_eq!(c.get_update_count(), 0);
    assert_eq!(c.get_comment_count(), 0);
    assert_eq!(c.get_category(), "Art");
    assert_eq!(c.get_owner().key(), "OTHER");
}

#[test]
fn scenario_two_donors_exceed_goal() {
    let mut c = started(1000, T);
    assert_eq!(c.donate(addr("A"), 300, T - 100, true), Ok(()));
    assert_eq!(c.donate(addr("B"), 800, T, true), Ok(()));
    assert_eq!(c.get_total_raised(), 1100);
    assert_eq!(c.get_progress_percentage(), 100);
    assert_eq!(c.get_donation(&addr("A")), 300);
    assert_eq!(c.get_donation(&addr("B")), 800);
    assert_eq!(
        c.get_campaign_stats(),
        CampaignStats { raised: 1100, goal: 1000, donors: 2, updates: 0, comments: 0 }
    );
}

#[test]
fn scenario_donation_after_deadline_is_refused() {
    let mut c = started(1000, T);
    assert_eq!(c.donate(addr("A"), 300, T, true), Ok(()));
    let before = snapshot(&c);
    assert_eq!(c.donate(addr("B"), 500, T + 1, true), Err(CrowdfundingError::CampaignEnded));
    assert_eq!(snapshot(&c), before);
    assert!(!c.is_campaign_active(T + 1));
    assert!(c.is_campaign_active(T));
}

#[test]
fn totals_are_sums_of_donations() {
    let mut c = started(10_000, T);
    let run = [("A", 100), ("B", 250), ("A", 50), ("C", 1), ("B", 4), ("A", 7)];
    for (who, amount) in run {
        assert_eq!(c.donate(addr(who), amount, T, true), Ok(()));
    }
    assert_eq!(c.get_total_raised(), 412);
    assert_eq!(c.get_donation(&addr("A")), 157);
    assert_eq!(c.get_donation(&addr("B")), 254);
    assert_eq!(c.get_donation(&addr("C")), 1);
    assert_eq!(c.get_donation(&addr("D")), 0);
    assert_eq!(c.get_campaign_stats().donors, 3);
    let pairs: Vec<(String, i128)> = c
        .get_donations()
        .into_iter()
        .map(|(a, v)| (a.key().clone(), v))
        .collect();
    assert_eq!(
        pairs,
        vec![("A".to_string(), 157), ("B".to_string(), 254), ("C".to_string(), 1)]
    );
}

#[test]
fn donations_may_exceed_goal() {
    let mut c = started(100, T);
    assert_eq!(c.donate(addr("A"), 5000, T, true), Ok(()));
    assert_eq!(c.donate(addr("A"), 5000, T, true), Ok(()));
    assert_eq!(c.get_total_raised(), 10_000);
    assert_eq!(c.get_progress_percentage(), 100);
}

#[test]
fn non_positive_amount_is_refused() {
    let mut c = started(1000, T);
    assert_eq!(c.donate(addr("A"), 10, T, true), Ok(()));
    let before = snapshot(&c);
    assert_eq!(c.donate(addr("A"), 0, T, true), Err(CrowdfundingError::InvalidAmount));
    assert_eq!(c.donate(addr("B"), -5, T, true), Err(CrowdfundingError::InvalidAmount));
    assert_eq!(c.donate(addr("B"), i128::MIN, 0, true), Err(CrowdfundingError::InvalidAmount));
    assert_eq!(snapshot(&c), before);
}

#[test]
fn deadline_is_checked_before_amount() {
    let mut c = started(1000, T);
    assert_eq!(c.donate(addr("A"), 0, T + 1, true), Err(CrowdfundingError::CampaignEnded));
    assert_eq!(c.check_donation(-1, T + 1), Err(CrowdfundingError::CampaignEnded));
    assert_eq!(c.check_donation(-1, T), Err(CrowdfundingError::InvalidAmount));
    assert_eq!(c.check_donation(1, T), Ok(()));
}

#[test]
fn failed_transfer_changes_nothing() {
    let mut c = started(1000, T);
    assert_eq!(c.donate(addr("A"), 40, T, true), Ok(()));
    let before = snapshot(&c);
    assert_eq!(c.donate(addr("A"), 60, T, false), Err(CrowdfundingError::TransferFailure));
    assert_eq!(c.donate(addr("B"), 60, T, false), Err(CrowdfundingError::TransferFailure));
    assert_eq!(snapshot(&c), before);
    assert_eq!(c.get_donation(&addr("A")), 40);
}

#[test]
fn only_owner_posts_updates() {
    let mut c = started(1000, T);
    assert_eq!(
        c.post_update(addr("MALLORY"), "fake".to_string()),
        Err(CrowdfundingError::Unauthorized)
    );
    assert!(c.get_updates().is_empty());
    assert_eq!(c.get_update_count(), 0);
    assert_eq!(c.post_update(addr("OWNER"), "first".to_string()), Ok(()));
    assert_eq!(c.post_update(addr("OWNER"), "second".to_string()), Ok(()));
    assert_eq!(c.get_updates(), vec!["first".to_string(), "second".to_string()]);
    assert_eq!(c.get_update_count(), 2);
    assert_eq!(c.get_campaign_stats().updates, 2);
}

#[test]
fn only_owner_adds_milestones() {
    let mut c = started(1000, T);
    assert_eq!(
        c.add_milestone(addr("MALLORY"), "fake".to_string()),
        Err(CrowdfundingError::Unauthorized)
    );
    assert!(c.get_milestones().is_empty());
    assert_eq!(c.add_milestone(addr("OWNER"), "alpha".to_string()), Ok(()));
    assert_eq!(c.get_milestones(), vec!["alpha".to_string()]);
    assert_eq!(c.get_update_count(), 0);
}

#[test]
fn anyone_comments() {
    let mut c = started(1000, T);
    c.add_comment(addr("A"), "good luck".to_string());
    c.add_comment(addr("OWNER"), "thanks".to_string());
    assert_eq!(c.get_comments(), vec!["good luck".to_string(), "thanks".to_string()]);
    assert_eq!(c.get_comment_count(), 2);
    assert_eq!(c.get_campaign_stats().comments, 2);
}

#[test]
fn progress_is_floor_of_percentage() {
    let mut c = started(1000, T);
    assert_eq!(c.get_progress_percentage(), 0);
    assert_eq!(c.donate(addr("A"), 333, T, true), Ok(()));
    assert_eq!(c.get_progress_percentage(), 33);
    assert_eq!(c.donate(addr("B"), 666, T, true), Ok(()));
    assert_eq!(c.get_progress_percentage(), 99);
    assert_eq!(c.donate(addr("B"), 1, T, true), Ok(()));
    assert_eq!(c.get_progress_percentage(), 100);
}

#[test]
fn progress_with_zero_or_negative_goal_is_zero() {
    let mut c = started(0, T);
    assert_eq!(c.donate(addr("A"), 500, T, true), Ok(()));
    assert_eq!(c.get_progress_percentage(), 0);
    let mut n = started(-10, T);
    assert_eq!(n.donate(addr("A"), 500, T, true), Ok(()));
    assert_eq!(n.get_progress_percentage(), 0);
}

#[test]
fn progress_with_huge_amounts() {
    let mut c = started(i128::MAX, T);
    assert_eq!(c.donate(addr("A"), i128::MAX / 2, T, true), Ok(()));
    assert_eq!(c.get_progress_percentage(), 49);
    assert_eq!(c.donate(addr("B"), i128::MAX / 2, T, true), Ok(()));
    assert_eq!(c.get_progress_percentage(), 99);
    assert_eq!(c.donate(addr("B"), 1, T, true), Ok(()));
    assert_eq!(c.get_total_raised(), i128::MAX);
    assert_eq!(c.get_progress_percentage(), 100);
}

#[test]
fn restore_rebuilds_state() {
    let c = CrowdfundingContract::restore(
        addr("OWNER"),
        1000,
        T,
        addr("TOKEN"),
        "Social".to_string(),
        true,
        vec![(addr("A"), 300), (addr("B"), 800), (addr("A"), 5)],
        vec!["u".to_string()],
        vec!["c1".to_string(), "c2".to_string()],
        vec![],
    )
    .unwrap();
    assert_eq!(c.get_total_raised(), 1105);
    assert_eq!(c.get_donation(&addr("A")), 305);
    assert_eq!(c.get_update_count(), 1);
    assert_eq!(c.get_comment_count(), 2);
    assert_eq!(c.get_category(), "Social");
    assert_eq!(
        c.get_campaign_stats(),
        CampaignStats { raised: 1105, goal: 1000, donors: 2, updates: 1, comments: 2 }
    );
}

#[test]
fn restore_refuses_bad_ledgers() {
    let bad_amount = CrowdfundingContract::restore(
        addr("OWNER"),
        1000,
        T,
        addr("TOKEN"),
        "Social".to_string(),
        true,
        vec![(addr("A"), 300), (addr("B"), 0)],
        vec![],
        vec![],
        vec![],
    );
    assert!(bad_amount.is_none());
    let too_much = CrowdfundingContract::restore(
        addr("OWNER"),
        1000,
        T,
        addr("TOKEN"),
        "Social".to_string(),
        true,
        vec![(addr("A"), i128::MAX), (addr("B"), 1)],
        vec![],
        vec![],
        vec![],
    );
    assert!(too_much.is_none());
}

#[test]
fn addresses_compare_by_key() {
    assert!(addr("A") == addr("A"));
    assert!(addr("A") != addr("B"));
    assert!(addr("A").same_as(&addr("A").duplicate()));
}
