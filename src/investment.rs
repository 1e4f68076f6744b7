//! The investment ledger: opening a position in a project and claiming its
//! carbon credits once the project is completed.
use vstd::prelude::*;
use crate::credit::{calculate_carbon_credits, credit_total, fee_of, platform_fee};
use crate::guard::same_principal;
use crate::lifecycle::status_may_follow;
use crate::project::{funded, record_funding};
use crate::tier::{
    bonus_multiplier, calculate_investment_tier, calculate_user_level, level_for_score,
    reputation_score, score_bonus, tier_admits, tier_for_total, tier_minimum, tier_multiplier,
};
use crate::types::{
    CarbonCreditsClaimed, ErrorCode, Investment, InvestmentMade, InvestmentStatus, InvestmentTier,
    PlatformState, Principal, Project, ProjectStatus, UserProfile,
};

verus! {

/// The principal that an investment of `amount` adds to a project: the amount
/// less the platform fee.
pub open spec fn principal_of(platform: PlatformState, amount: u64) -> nat {
    (amount - fee_of(amount as nat, platform.investment_fee_bps as nat)) as nat
}

/// Why `invest_in_project` refuses, checked in this order.
pub open spec fn invest_failure(
    platform: PlatformState,
    project: Project,
    profile: UserProfile,
    position: Option<Investment>,
    investor: Principal,
    amount: u64,
    tier: InvestmentTier,
) -> Option<ErrorCode> {
    let principal = principal_of(platform, amount);
    if platform.emergency_pause {
        Some(ErrorCode::PlatformPaused)
    } else if amount == 0 {
        Some(ErrorCode::InvalidInvestmentAmount)
    } else if project.status != ProjectStatus::Active {
        Some(ErrorCode::ProjectNotActive)
    } else if amount < tier_minimum(tier) {
        Some(ErrorCode::InsufficientTierAmount)
    } else if project.current_funding + principal > project.target_funding {
        Some(ErrorCode::ExceedsTargetFunding)
    } else if profile.owner != investor {
        Some(ErrorCode::NotInvestor)
    } else if position is Some {
        Some(ErrorCode::InvestmentAlreadyExists)
    } else if platform.total_investments + principal > u64::MAX {
        Some(ErrorCode::MathOverflow)
    } else if profile.total_invested + principal > u64::MAX {
        Some(ErrorCode::MathOverflow)
    } else if profile.projects_supported == u32::MAX {
        Some(ErrorCode::MathOverflow)
    } else if project.investor_count == u64::MAX {
        Some(ErrorCode::MathOverflow)
    } else {
        None
    }
}

/// The position that an accepted investment opens.
pub open spec fn opened_position(
    project: Project,
    investor: Principal,
    principal: u64,
    tier: InvestmentTier,
    now: i64,
) -> Investment {
    Investment {
        investor,
        project_id: project.id,
        amount: principal,
        tier,
        bonus_multiplier: (tier_multiplier(tier) + score_bonus(
            project.health_score,
            project.confidence_score,
        )) as u16,
        timestamp: now,
        status: InvestmentStatus::Active,
        carbon_credits_earned: 0,
    }
}

/// The investor's totals after `principal` more is invested.
pub open spec fn profile_after_investment(profile: UserProfile, principal: u64) -> UserProfile {
    let total = (profile.total_invested + principal) as u64;
    UserProfile {
        total_invested: total,
        projects_supported: (profile.projects_supported + 1) as u32,
        investment_tier: tier_for_total(total as nat),
        level: level_for_score(reputation_score(total, profile.carbon_offset)),
        ..profile
    }
}

/// Opens the position of `investor` in `project` with `amount` at `tier`. The
/// platform fee is split off; the rest is recorded as the project's funding and
/// as the position's amount. The position's multiplier is fixed now, from the
/// tier and the project's current scores. An investor holds at most one
/// position per project: a filled `position` is refused.
pub fn invest_in_project(
    platform: &mut PlatformState,
    project: &mut Project,
    profile: &mut UserProfile,
    position: &mut Option<Investment>,
    investor: &Principal,
    amount: u64,
    tier: InvestmentTier,
    now: i64,
) -> (r: Result<InvestmentMade, ErrorCode>)
    requires
        old(platform).wf(),
        old(project).wf(),
    ensures
        match r {
            Ok(event) => {
                let principal = principal_of(*old(platform), amount) as u64;
                &&& invest_failure(
                    *old(platform),
                    *old(project),
                    *old(profile),
                    *old(position),
                    *investor,
                    amount,
                    tier,
                ) is None
                &&& *final(project) == (Project {
                    investor_count: (old(project).investor_count + 1) as u64,
                    ..funded(*old(project), principal)
                })
                &&& *final(platform) == (PlatformState {
                    total_investments: (old(platform).total_investments + principal) as u64,
                    ..*old(platform)
                })
                &&& *final(profile) == profile_after_investment(*old(profile), principal)
                &&& *final(position) == Some(
                    opened_position(*old(project), *investor, principal, tier, now),
                )
                &&& event == (InvestmentMade {
                    investor: *investor,
                    project_id: old(project).id,
                    amount: principal,
                    fee: fee_of(amount as nat, old(platform).investment_fee_bps as nat) as u64,
                    tier,
                    total_project_funding: final(project).current_funding,
                    bonus_multiplier: final(position).unwrap().bonus_multiplier,
                    status: final(project).status,
                })
                &&& final(project).current_funding == old(project).current_funding + amount
                    - fee_of(amount as nat, old(platform).investment_fee_bps as nat)
            },
            Err(e) => {
                &&& invest_failure(
                    *old(platform),
                    *old(project),
                    *old(profile),
                    *old(position),
                    *investor,
                    amount,
                    tier,
                ) == Some(e)
                &&& *final(platform) == *old(platform)
                &&& *final(project) == *old(project)
                &&& *final(profile) == *old(profile)
                &&& *final(position) == *old(position)
            },
        },
        final(project).wf(),
        final(project).current_funding <= final(project).target_funding,
        status_may_follow(old(project).status, final(project).status),
{
    if platform.emergency_pause {
        return Err(ErrorCode::PlatformPaused);
    }
    if amount == 0 {
        return Err(ErrorCode::InvalidInvestmentAmount);
    }
    if project.status != ProjectStatus::Active {
        return Err(ErrorCode::ProjectNotActive);
    }
    if !tier_admits(tier, amount) {
        return Err(ErrorCode::InsufficientTierAmount);
    }
    let fee = platform_fee(amount, platform.investment_fee_bps);
    let principal = amount - fee;
    if principal > project.target_funding - project.current_funding {
        return Err(ErrorCode::ExceedsTargetFunding);
    }
    if !same_principal(&profile.owner, investor) {
        return Err(ErrorCode::NotInvestor);
    }
    if position.is_some() {
        return Err(ErrorCode::InvestmentAlreadyExists);
    }
    let total_investments = match platform.total_investments.checked_add(principal) {
        Some(total) => total,
        None => {
            return Err(ErrorCode::MathOverflow);
        },
    };
    let total_invested = match profile.total_invested.checked_add(principal) {
        Some(total) => total,
        None => {
            return Err(ErrorCode::MathOverflow);
        },
    };
    if profile.projects_supported == u32::MAX {
        return Err(ErrorCode::MathOverflow);
    }
    if project.investor_count == u64::MAX {
        return Err(ErrorCode::MathOverflow);
    }
    let multiplier = bonus_multiplier(tier, project.health_score, project.confidence_score);
    let status = match record_funding(project, principal) {
        Ok(status) => status,
        Err(e) => {
            return Err(e);
        },
    };
    project.investor_count = project.investor_count + 1;
    platform.total_investments = total_investments;
    profile.total_invested = total_invested;
    profile.projects_supported = profile.projects_supported + 1;
    profile.investment_tier = calculate_investment_tier(total_invested);
    profile.level = calculate_user_level(total_invested, profile.carbon_offset);
    *position = Some(
        Investment {
            investor: *investor,
            project_id: project.id,
            amount: principal,
            tier,
            bonus_multiplier: multiplier,
            timestamp: now,
            status: InvestmentStatus::Active,
            carbon_credits_earned: 0,
        },
    );
    Ok(
        InvestmentMade {
            investor: *investor,
            project_id: project.id,
            amount: principal,
            fee,
            tier,
            total_project_funding: project.current_funding,
            bonus_multiplier: multiplier,
            status,
        },
    )
}

/// The credits that `investment` earns in `project`.
pub open spec fn credits_earned(project: Project, investment: Investment) -> nat {
    credit_total(
        investment.amount as nat,
        project.co2_per_tree as nat,
        project.health_score as nat,
        investment.bonus_multiplier as nat,
    )
}

/// Why `claim_carbon_credits` refuses, checked in this order.
pub open spec fn claim_failure(
    platform: PlatformState,
    project: Project,
    investment: Investment,
    profile: UserProfile,
    claimant: Principal,
) -> Option<ErrorCode> {
    let total = credits_earned(project, investment);
    if platform.emergency_pause {
        Some(ErrorCode::PlatformPaused)
    } else if investment.investor != claimant || profile.owner != claimant {
        Some(ErrorCode::NotInvestor)
    } else if investment.project_id != project.id {
        Some(ErrorCode::ProjectMismatch)
    } else if project.status != ProjectStatus::Completed {
        Some(ErrorCode::ProjectNotCompleted)
    } else if investment.status != InvestmentStatus::Active {
        Some(ErrorCode::InvestmentNotActive)
    } else if total > u64::MAX {
        Some(ErrorCode::MathOverflow)
    } else if platform.total_carbon_credits + total > u64::MAX {
        Some(ErrorCode::MathOverflow)
    } else if profile.carbon_offset + total > u64::MAX {
        Some(ErrorCode::MathOverflow)
    } else {
        None
    }
}

/// The investor's totals after a claim of `credits` at time `now`.
pub open spec fn profile_after_claim(profile: UserProfile, credits: u64, now: i64) -> UserProfile {
    let offset = (profile.carbon_offset + credits) as u64;
    UserProfile {
        carbon_offset: offset,
        level: level_for_score(reputation_score(profile.total_invested, offset)),
        last_claim: now,
        ..profile
    }
}

/// Issues the carbon credits of an active position in a completed project and
/// closes the position, which can then never be claimed again. The credits
/// depend on the position's amount and multiplier and on the project's yield
/// and health alone. The project record is only read.
pub fn claim_carbon_credits(
    platform: &mut PlatformState,
    project: &Project,
    investment: &mut Investment,
    profile: &mut UserProfile,
    claimant: &Principal,
    now: i64,
) -> (r: Result<CarbonCreditsClaimed, ErrorCode>)
    ensures
        match r {
            Ok(event) => {
                let total = credits_earned(*project, *old(investment)) as u64;
                &&& claim_failure(
                    *old(platform),
                    *project,
                    *old(investment),
                    *old(profile),
                    *claimant,
                ) is None
                &&& *final(investment) == (Investment {
                    status: InvestmentStatus::Claimed,
                    carbon_credits_earned: total,
                    ..*old(investment)
                })
                &&& *final(platform) == (PlatformState {
                    total_carbon_credits: (old(platform).total_carbon_credits + total) as u64,
                    ..*old(platform)
                })
                &&& *final(profile) == profile_after_claim(*old(profile), total, now)
                &&& event == (CarbonCreditsClaimed {
                    user: *claimant,
                    project_id: project.id,
                    amount: total,
                    total_offset: final(profile).carbon_offset,
                    investment_tier: old(investment).tier,
                })
            },
            Err(e) => {
                &&& claim_failure(
                    *old(platform),
                    *project,
                    *old(investment),
                    *old(profile),
                    *claimant,
                ) == Some(e)
                &&& *final(platform) == *old(platform)
                &&& *final(investment) == *old(investment)
                &&& *final(profile) == *old(profile)
            },
        },
{
    if platform.emergency_pause {
        return Err(ErrorCode::PlatformPaused);
    }
    if !same_principal(&investment.investor, claimant) || !same_principal(&profile.owner, claimant) {
        return Err(ErrorCode::NotInvestor);
    }
    if investment.project_id != project.id {
        return Err(ErrorCode::ProjectMismatch);
    }
    if project.status != ProjectStatus::Completed {
        return Err(ErrorCode::ProjectNotCompleted);
    }
    if investment.status != InvestmentStatus::Active {
        return Err(ErrorCode::InvestmentNotActive);
    }
    let total = match calculate_carbon_credits(
        investment.amount,
        project.co2_per_tree,
        project.health_score,
        investment.bonus_multiplier,
    ) {
        Some(total) => total,
        None => {
            return Err(ErrorCode::MathOverflow);
        },
    };
    let platform_credits = match platform.total_carbon_credits.checked_add(total) {
        Some(sum) => sum,
        None => {
            return Err(ErrorCode::MathOverflow);
        },
    };
    let offset = match profile.carbon_offset.checked_add(total) {
        Some(sum) => sum,
        None => {
            return Err(ErrorCode::MathOverflow);
        },
    };
    platform.total_carbon_credits = platform_credits;
    investment.status = InvestmentStatus::Claimed;
    investment.carbon_credits_earned = total;
    profile.carbon_offset = offset;
    profile.level = calculate_user_level(profile.total_invested, offset);
    profile.last_claim = now;
    Ok(
        CarbonCreditsClaimed {
            user: *claimant,
            project_id: project.id,
            amount: total,
            total_offset: offset,
            investment_tier: investment.tier,
        },
    )
}

} // verus!
