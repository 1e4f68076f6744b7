//! Tier policy: the smallest amount that each investment tier admits, its base
//! multiplier, the bonus for well-scored projects, and the reputation level of
//! an investor.
use vstd::prelude::*;
use crate::types::InvestmentTier;

verus! {

/// The smallest amount that the Bronze tier admits; every other tier's
/// minimum is a multiple of it.
pub const BRONZE_MINIMUM: u64 = 1000000;

/// The smallest amount that an investment in `tier` may carry.
pub open spec fn tier_minimum(tier: InvestmentTier) -> nat {
    match tier {
        InvestmentTier::Bronze => BRONZE_MINIMUM as nat,
        InvestmentTier::Silver => 5 * BRONZE_MINIMUM as nat,
        InvestmentTier::Gold => 10 * BRONZE_MINIMUM as nat,
        InvestmentTier::Platinum => 50 * BRONZE_MINIMUM as nat,
        InvestmentTier::Diamond => 100 * BRONZE_MINIMUM as nat,
    }
}

/// The base bonus multiplier of `tier`, in percent.
pub open spec fn tier_multiplier(tier: InvestmentTier) -> nat {
    match tier {
        InvestmentTier::Bronze => 100,
        InvestmentTier::Silver => 110,
        InvestmentTier::Gold => 125,
        InvestmentTier::Platinum => 150,
        InvestmentTier::Diamond => 200,
    }
}

/// The extra multiplier, in percent, earned by a project's current scores.
pub open spec fn score_bonus(health: u8, confidence: u8) -> nat {
    if health >= 90 && confidence >= 95 {
        20
    } else if health >= 80 && confidence >= 85 {
        10
    } else {
        0
    }
}

/// Position of a tier in the order Bronze < Silver < Gold < Platinum < Diamond.
pub open spec fn tier_rank(tier: InvestmentTier) -> nat {
    match tier {
        InvestmentTier::Bronze => 0,
        InvestmentTier::Silver => 1,
        InvestmentTier::Gold => 2,
        InvestmentTier::Platinum => 3,
        InvestmentTier::Diamond => 4,
    }
}

/// The standing tier of an investor with `total` invested so far: Bronze up
/// to 1000, Silver up to 5000, Gold up to 25000, Platinum up to 100000, Diamond
/// above. (This ranks cumulative totals; the minimum of a single investment in
/// a tier is `tier_minimum`.)
pub open spec fn tier_for_total(total: nat) -> InvestmentTier {
    if total <= 1000 {
        InvestmentTier::Bronze
    } else if total <= 5000 {
        InvestmentTier::Silver
    } else if total <= 25000 {
        InvestmentTier::Gold
    } else if total <= 100000 {
        InvestmentTier::Platinum
    } else {
        InvestmentTier::Diamond
    }
}

/// Reputation score of an investor: one point per thousand units invested and
/// one per hundred units of carbon offset.
pub open spec fn reputation_score(total_invested: u64, carbon_offset: u64) -> nat {
    (total_invested / 1000 + carbon_offset / 100) as nat
}

/// Reputation level (1 to 10) of a reputation score.
pub open spec fn level_for_score(score: nat) -> u8 {
    if score < 100 {
        1
    } else if score < 500 {
        2
    } else if score < 1000 {
        3
    } else if score < 2500 {
        4
    } else if score < 5000 {
        5
    } else if score < 10000 {
        6
    } else if score < 20000 {
        7
    } else if score < 50000 {
        8
    } else if score < 100000 {
        9
    } else {
        10
    }
}

/// The smallest amount that an investment in `tier` may carry.
pub fn tier_minimum_amount(tier: InvestmentTier) -> (r: u64)
    ensures
        r == tier_minimum(tier),
{
    match tier {
        InvestmentTier::Bronze => BRONZE_MINIMUM,
        InvestmentTier::Silver => 5 * BRONZE_MINIMUM,
        InvestmentTier::Gold => 10 * BRONZE_MINIMUM,
        InvestmentTier::Platinum => 50 * BRONZE_MINIMUM,
        InvestmentTier::Diamond => 100 * BRONZE_MINIMUM,
    }
}

/// The base bonus multiplier of `tier`, in percent.
pub fn tier_base_multiplier(tier: InvestmentTier) -> (r: u16)
    ensures
        r == tier_multiplier(tier),
{
    match tier {
        InvestmentTier::Bronze => 100,
        InvestmentTier::Silver => 110,
        InvestmentTier::Gold => 125,
        InvestmentTier::Platinum => 150,
        InvestmentTier::Diamond => 200,
    }
}

/// The extra multiplier, in percent, for a project scored `health` with
/// `confidence`: 20 at health 90 and confidence 95 or more, else 10 at health 80
/// and confidence 85 or more, else nothing.
pub fn ai_score_bonus(health: u8, confidence: u8) -> (r: u16)
    ensures
        r == score_bonus(health, confidence),
{
    if health >= 90 && confidence >= 95 {
        20
    } else if health >= 80 && confidence >= 85 {
        10
    } else {
        0
    }
}

/// Whether `amount` reaches the minimum of `tier`.
pub fn tier_admits(tier: InvestmentTier, amount: u64) -> (r: bool)
    ensures
        r == (amount >= tier_minimum(tier)),
{
    amount >= tier_minimum_amount(tier)
}

/// The effective multiplier of a new investment in `tier` into a project with
/// the given scores: the tier's base multiplier plus the score bonus.
pub fn bonus_multiplier(tier: InvestmentTier, health: u8, confidence: u8) -> (r: u16)
    ensures
        r == tier_multiplier(tier) + score_bonus(health, confidence),
{
    tier_base_multiplier(tier) + ai_score_bonus(health, confidence)
}

/// The standing tier of an investor with `total_invested` so far: Bronze up
/// to 1000, Silver up to 5000, Gold up to 25000, Platinum up to 100000, Diamond
/// above.
pub fn calculate_investment_tier(total_invested: u64) -> (r: InvestmentTier)
    ensures
        r == tier_for_total(total_invested as nat),
{
    if total_invested <= 1000 {
        InvestmentTier::Bronze
    } else if total_invested <= 5000 {
        InvestmentTier::Silver
    } else if total_invested <= 25000 {
        InvestmentTier::Gold
    } else if total_invested <= 100000 {
        InvestmentTier::Platinum
    } else {
        InvestmentTier::Diamond
    }
}

/// The reputation level (1 to 10) of an investor with the given totals.
pub fn calculate_user_level(total_invested: u64, carbon_offset: u64) -> (r: u8)
    ensures
        r == level_for_score(reputation_score(total_invested, carbon_offset)),
        1 <= r <= 10,
{
    let score: u64 = total_invested / 1000 + carbon_offset / 100;
    if score < 100 {
        1
    } else if score < 500 {
        2
    } else if score < 1000 {
        3
    } else if score < 2500 {
        4
    } else if score < 5000 {
        5
    } else if score < 10000 {
        6
    } else if score < 20000 {
        7
    } else if score < 50000 {
        8
    } else if score < 100000 {
        9
    } else {
        10
    }
}

} // verus!
