use greenchain::credit::{calculate_carbon_credits, platform_fee};
use greenchain::guard::{has_role, is_valid_evidence_hash, same_principal, update_is_fresh, Role};
use greenchain::lifecycle::{next_status, LifecycleEvent};
use greenchain::registry::initialize_platform;
use greenchain::tier::{
    ai_score_bonus, bonus_multiplier, calculate_investment_tier, calculate_user_level,
    tier_admits, tier_base_multiplier, tier_minimum_amount, BRONZE_MINIMUM,
};
use greenchain::types::{InvestmentTier, Principal, ProjectStatus};

#[test]
fn tier_minimums_are_multiples_of_bronze() {
    assert_eq!(BRONZE_MINIMUM, 1_000_000);
    assert_eq!(tier_minimum_amount(InvestmentTier::Bronze), BRONZE_MINIMUM);
    assert_eq!(tier_minimum_amount(InvestmentTier::Silver), 5 * BRONZE_MINIMUM);
    assert_eq!(tier_minimum_amount(InvestmentTier::Gold), 10 * BRONZE_MINIMUM);
    assert_eq!(tier_minimum_amount(InvestmentTier::Platinum), 50 * BRONZE_MINIMUM);
    assert_eq!(tier_minimum_amount(InvestmentTier::Diamond), 100 * BRONZE_MINIMUM);
}

#[test]
fn tier_admits_at_minimum_not_below() {
    assert!(tier_admits(InvestmentTier::Silver, 5_000_000));
    assert!(!tier_admits(InvestmentTier::Silver, 4_999_999));
    assert!(tier_admits(InvestmentTier::Diamond, 100_000_000));
    assert!(!tier_admits(InvestmentTier::Diamond, 99_999_999));
}

#[test]
fn base_multipliers_and_score_bonus() {
    assert_eq!(tier_base_multiplier(InvestmentTier::Bronze), 100);
    assert_eq!(tier_base_multiplier(InvestmentTier::Silver), 110);
    assert_eq!(tier_base_multiplier(InvestmentTier::Gold), 125);
    assert_eq!(tier_base_multiplier(InvestmentTier::Platinum), 150);
    assert_eq!(tier_base_multiplier(InvestmentTier::Diamond), 200);
    assert_eq!(ai_score_bonus(90, 95), 20);
    assert_eq!(ai_score_bonus(89, 99), 10);
    assert_eq!(ai_score_bonus(90, 94), 10);
    assert_eq!(ai_score_bonus(80, 85), 10);
    assert_eq!(ai_score_bonus(79, 100), 0);
    assert_eq!(ai_score_bonus(100, 84), 0);
    assert_eq!(bonus_multiplier(InvestmentTier::Bronze, 95, 96), 120);
    assert_eq!(bonus_multiplier(InvestmentTier::Diamond, 80, 85), 210);
}

#[test]
fn investment_tier_of_cumulative_totals() {
    assert_eq!(calculate_investment_tier(0), InvestmentTier::Bronze);
    assert_eq!(calculate_investment_tier(1000), InvestmentTier::Bronze);
    assert_eq!(calculate_investment_tier(1001), InvestmentTier::Silver);
    assert_eq!(calculate_investment_tier(5000), InvestmentTier::Silver);
    assert_eq!(calculate_investment_tier(5001), InvestmentTier::Gold);
    assert_eq!(calculate_investment_tier(25000), InvestmentTier::Gold);
    assert_eq!(calculate_investment_tier(25001), InvestmentTier::Platinum);
    assert_eq!(calculate_investment_tier(100000), InvestmentTier::Platinum);
    assert_eq!(calculate_investment_tier(100001), InvestmentTier::Diamond);
    assert_eq!(calculate_investment_tier(u64::MAX), InvestmentTier::Diamond);
}

#[test]
fn user_levels() {
    assert_eq!(calculate_user_level(0, 0), 1);
    assert_eq!(calculate_user_level(99_999, 99), 1);
    assert_eq!(calculate_user_level(100_000, 0), 2);
    assert_eq!(calculate_user_level(0, 50_000), 3);
    assert_eq!(calculate_user_level(1_000_000, 0), 4);
    assert_eq!(calculate_user_level(2_500_000, 0), 5);
    assert_eq!(calculate_user_level(5_000_000, 0), 6);
    assert_eq!(calculate_user_level(10_000_000, 0), 7);
    assert_eq!(calculate_user_level(20_000_000, 0), 8);
    assert_eq!(calculate_user_level(50_000_000, 0), 9);
    assert_eq!(calculate_user_level(99_999_000, 99), 9);
    assert_eq!(calculate_user_level(100_000_000, 0), 10);
    assert_eq!(calculate_user_level(u64::MAX, u64::MAX), 10);
}

#[test]
fn fee_is_rounded_down() {
    assert_eq!(platform_fee(2_000_000, 250), 50_000);
    assert_eq!(platform_fee(399, 250), 9);
    assert_eq!(platform_fee(1_000, 0), 0);
    assert_eq!(platform_fee(1_000, 10_000), 1_000);
    assert_eq!(platform_fee(u64::MAX, 10_000), u64::MAX);
}

#[test]
fn credit_formula_values() {
    assert_eq!(calculate_carbon_credits(1_000_000, 2_000_000, 200, 120), Some(24_000));
    assert_eq!(calculate_carbon_credits(1_000_000, 2_000_000, 95, 120), Some(0));
    assert_eq!(calculate_carbon_credits(1_000_000, 2_000_000, 129, 120), Some(0));
    assert_eq!(calculate_carbon_credits(1_000_000, 2_000_000, 130, 120), Some(24_000));
    assert_eq!(calculate_carbon_credits(333, 3_000, 255, 110), Some(0));
    assert_eq!(calculate_carbon_credits(3_333_333, 3_000_000, 255, 110), Some(109_999));
    assert_eq!(calculate_carbon_credits(u64::MAX, u64::MAX, 255, 200), None);
    assert_eq!(calculate_carbon_credits(u64::MAX, u64::MAX, 0, 200), Some(0));
}

#[test]
fn principals_compare_by_key() {
    let a = Principal { key: [3; 32] };
    let mut b = a;
    assert!(same_principal(&a, &b));
    b.key[31] = 4;
    assert!(!same_principal(&a, &b));
}

#[test]
fn roles_are_held_by_registry_identities() {
    let authority = Principal { key: [1; 32] };
    let oracle = Principal { key: [2; 32] };
    let mut slot = None;
    initialize_platform(&mut slot, authority, Principal { key: [9; 32] }, 0, oracle, 80, 60).unwrap();
    let p = slot.unwrap();
    assert!(has_role(&p, &authority, Role::Authority));
    assert!(!has_role(&p, &authority, Role::Oracle));
    assert!(has_role(&p, &oracle, Role::Oracle));
}

#[test]
fn freshness_and_evidence_checks() {
    assert!(update_is_fresh(3_600, 0, 3_600));
    assert!(!update_is_fresh(3_599, 0, 3_600));
    assert!(!update_is_fresh(i64::MIN, i64::MAX, 0));
    assert!(update_is_fresh(i64::MAX, i64::MIN, u64::MAX));
    assert!(is_valid_evidence_hash(&"f".repeat(64)));
    assert!(!is_valid_evidence_hash(&"f".repeat(65)));
    assert!(!is_valid_evidence_hash(&String::new()));
}

#[test]
fn lifecycle_table() {
    let funding = |fills_target| LifecycleEvent::Funding { fills_target };
    let progress = |reaches_target| LifecycleEvent::Progress { reaches_target };
    assert_eq!(next_status(ProjectStatus::Active, funding(false)), Some(ProjectStatus::Active));
    assert_eq!(next_status(ProjectStatus::Active, funding(true)), Some(ProjectStatus::Funded));
    assert_eq!(next_status(ProjectStatus::Funded, funding(false)), None);
    assert_eq!(next_status(ProjectStatus::Completed, funding(false)), None);
    assert_eq!(next_status(ProjectStatus::Active, progress(true)), Some(ProjectStatus::Completed));
    assert_eq!(next_status(ProjectStatus::Funded, progress(false)), Some(ProjectStatus::Funded));
    assert_eq!(next_status(ProjectStatus::Suspended, progress(true)), None);
    assert_eq!(next_status(ProjectStatus::Funded, LifecycleEvent::Escalation), Some(ProjectStatus::Suspended));
    assert_eq!(next_status(ProjectStatus::Completed, LifecycleEvent::Escalation), Some(ProjectStatus::Completed));
}
