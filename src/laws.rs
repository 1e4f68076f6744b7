//! Properties that hold across operations, each proved from the operations'
//! contracts.
use vstd::prelude::*;
use crate::credit::credit_total;
use crate::investment::{claim_failure, credits_earned, invest_failure, principal_of};
use crate::lifecycle::{lifecycle_step, status_may_follow, LifecycleEvent};
use crate::project::{create_failure, growth, progress_failure};
use crate::tier::tier_minimum;
use crate::types::{
    AIPredictionData, AIVerificationData, ErrorCode, Investment, InvestmentStatus, InvestmentTier,
    PlatformState, Principal, Project, ProjectLocation, ProjectStatus, UserProfile,
};

verus! {

/// Every status that the lifecycle table allows may follow the one before it:
/// the project stays, moves forward along `Active → Funded → Completed`, or is
/// suspended from `Active` or `Funded`.
pub proof fn lemma_lifecycle_step_monotonic(status: ProjectStatus, event: LifecycleEvent)
    ensures
        lifecycle_step(status, event) matches Some(next) ==> status_may_follow(status, next),
{
}

/// Allowed moves compose into allowed moves, so no sequence of operations
/// leads a project back along its lifecycle, nor out of `Suspended`.
pub proof fn lemma_status_may_follow_transitive(a: ProjectStatus, b: ProjectStatus, c: ProjectStatus)
    requires
        status_may_follow(a, b),
        status_may_follow(b, c),
    ensures
        status_may_follow(a, c),
{
}

/// A closed project (`Completed` or `Suspended`) takes no more capital: an
/// investment that passes the checks before the status check is refused with
/// `ProjectNotActive`.
pub proof fn lemma_closed_project_takes_no_capital(
    platform: PlatformState,
    project: Project,
    profile: UserProfile,
    position: Option<Investment>,
    investor: Principal,
    amount: u64,
    tier: InvestmentTier,
)
    requires
        project.status == ProjectStatus::Completed || project.status == ProjectStatus::Suspended,
        !platform.emergency_pause,
        amount > 0,
    ensures
        invest_failure(platform, project, profile, position, investor, amount, tier) == Some(
            ErrorCode::ProjectNotActive,
        ),
{
}

/// A position is claimed at most once: once a claim has gone through, the same
/// claim on the records it left (the project is never changed by a claim) is
/// refused with `InvestmentNotActive`.
pub proof fn lemma_claim_at_most_once(
    platform: PlatformState,
    project: Project,
    investment: Investment,
    profile: UserProfile,
    claimant: Principal,
    platform_after: PlatformState,
    investment_after: Investment,
    profile_after: UserProfile,
)
    requires
        claim_failure(platform, project, investment, profile, claimant) is None,
        platform_after == (PlatformState {
            total_carbon_credits: platform_after.total_carbon_credits,
            ..platform
        }),
        investment_after == (Investment {
            status: InvestmentStatus::Claimed,
            carbon_credits_earned: investment_after.carbon_credits_earned,
            ..investment
        }),
        profile_after.owner == profile.owner,
    ensures
        claim_failure(platform_after, project, investment_after, profile_after, claimant)
            == Some(ErrorCode::InvestmentNotActive),
{
}

/// The minimum of each tier is exact: an amount equal to it passes the tier
/// check, one unit less is refused with `InsufficientTierAmount`, for an
/// investment that passes every check before the tier check.
pub proof fn lemma_tier_minimum_is_exact(
    platform: PlatformState,
    project: Project,
    profile: UserProfile,
    position: Option<Investment>,
    investor: Principal,
    tier: InvestmentTier,
)
    requires
        !platform.emergency_pause,
        project.status == ProjectStatus::Active,
    ensures
        invest_failure(
            platform,
            project,
            profile,
            position,
            investor,
            tier_minimum(tier) as u64,
            tier,
        ) != Some(ErrorCode::InsufficientTierAmount),
        invest_failure(
            platform,
            project,
            profile,
            position,
            investor,
            (tier_minimum(tier) - 1) as u64,
            tier,
        ) == Some(ErrorCode::InsufficientTierAmount),
{
}

/// The credits of a claim are a function of four integers alone: the
/// position's amount and multiplier and the project's yield and health.
/// Records that agree on those four earn the same whole number of credits.
pub proof fn lemma_credit_issuance_deterministic(
    project_a: Project,
    investment_a: Investment,
    project_b: Project,
    investment_b: Investment,
)
    requires
        investment_a.amount == investment_b.amount,
        investment_a.bonus_multiplier == investment_b.bonus_multiplier,
        project_a.co2_per_tree == project_b.co2_per_tree,
        project_a.health_score == project_b.health_score,
    ensures
        credits_earned(project_a, investment_a) == credits_earned(project_b, investment_b),
        credits_earned(project_a, investment_a) == credit_total(
            investment_a.amount as nat,
            project_a.co2_per_tree as nat,
            project_a.health_score as nat,
            investment_a.bonus_multiplier as nat,
        ),
{
}

/// A project that would push the registry's project count past `u64` is
/// refused with `MathOverflow` (and a refused operation changes nothing).
pub proof fn lemma_project_count_overflow_refused(
    platform: PlatformState,
    name: Seq<char>,
    description: Seq<char>,
    location: ProjectLocation,
    target_trees: u64,
    target_funding: u64,
    prediction: AIPredictionData,
)
    requires
        create_failure(
            PlatformState { total_projects: 0, ..platform },
            name,
            description,
            location,
            target_trees,
            target_funding,
            prediction,
        ) is None,
        platform.total_projects == u64::MAX,
    ensures
        create_failure(
            platform,
            name,
            description,
            location,
            target_trees,
            target_funding,
            prediction,
        ) == Some(ErrorCode::MathOverflow),
{
}

/// An investment that would push the registry's invested total past `u64` is
/// refused with `MathOverflow`.
pub proof fn lemma_investment_total_overflow_refused(
    platform: PlatformState,
    project: Project,
    profile: UserProfile,
    position: Option<Investment>,
    investor: Principal,
    amount: u64,
    tier: InvestmentTier,
)
    requires
        invest_failure(
            PlatformState { total_investments: 0, ..platform },
            project,
            profile,
            position,
            investor,
            amount,
            tier,
        ) is None,
        platform.total_investments + principal_of(platform, amount) > u64::MAX,
    ensures
        invest_failure(platform, project, profile, position, investor, amount, tier) == Some(
            ErrorCode::MathOverflow,
        ),
{
}

/// A progress report that would push the registry's tree or CO2 total past
/// `u64` is refused with `MathOverflow`.
pub proof fn lemma_progress_total_overflow_refused(
    platform: PlatformState,
    project: Project,
    caller: Principal,
    trees_planted: u64,
    verification: AIVerificationData,
    satellite_data_hash: Seq<char>,
    now: i64,
)
    requires
        progress_failure(
            PlatformState { total_trees_planted: 0, total_co2_offset: 0, ..platform },
            project,
            caller,
            trees_planted,
            verification,
            satellite_data_hash,
            now,
        ) is None,
        platform.total_trees_planted + growth(trees_planted, project.trees_planted) > u64::MAX
            || platform.total_co2_offset + growth(
            verification.co2_sequestered,
            project.total_co2_offset,
        ) > u64::MAX,
    ensures
        progress_failure(
            platform,
            project,
            caller,
            trees_planted,
            verification,
            satellite_data_hash,
            now,
        ) == Some(ErrorCode::MathOverflow),
{
}

/// A claim that would push the registry's credit total past `u64` is refused
/// with `MathOverflow`.
pub proof fn lemma_credit_total_overflow_refused(
    platform: PlatformState,
    project: Project,
    investment: Investment,
    profile: UserProfile,
    claimant: Principal,
)
    requires
        claim_failure(
            PlatformState { total_carbon_credits: 0, ..platform },
            project,
            investment,
            profile,
            claimant,
        ) is None,
        platform.total_carbon_credits + credits_earned(project, investment) > u64::MAX,
    ensures
        claim_failure(platform, project, investment, profile, claimant) == Some(
            ErrorCode::MathOverflow,
        ),
{
}

} // verus!
