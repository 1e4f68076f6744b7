//! Records, enums, errors and notifications of the platform.
use vstd::prelude::*;

verus! {

/// An authenticated identity (an account key of 32 bytes).
#[derive(Clone, Copy, Debug, PartialEq, Eq)]
pub struct Principal {
    pub key: [u8; 32],
}

impl View for Principal {
    type V = Seq<u8>;

    open spec fn view(&self) -> Seq<u8> {
        self.key@
    }
}

/// Lifecycle of a project. `Active` and `Funded` accept further work;
/// `Completed` and `Suspended` close the project to new capital.
#[derive(Clone, Copy, Debug, PartialEq, Eq, Structural)]
pub enum ProjectStatus {
    Active,
    Funded,
    Completed,
    Suspended,
}

/// Capital bracket of an investment, which fixes its base bonus multiplier.
#[derive(Clone, Copy, Debug, PartialEq, Eq, Structural)]
pub enum InvestmentTier {
    Bronze,
    Silver,
    Gold,
    Platinum,
    Diamond,
}

/// Whether an investment position may still be claimed.
#[derive(Clone, Copy, Debug, PartialEq, Eq, Structural)]
pub enum InvestmentStatus {
    Active,
    Claimed,
}

/// Every way an operation can be refused.
#[derive(Clone, Copy, Debug, PartialEq, Eq, Structural)]
pub enum ErrorCode {
    AlreadyInitialized,
    InvalidFeeBasisPoints,
    InvalidConfidenceThreshold,
    NameTooLong,
    DescriptionTooLong,
    LocationTooLong,
    InvalidTargetTrees,
    InvalidTargetFunding,
    InsufficientAIConfidence,
    InsufficientHealthScore,
    ExcessiveRiskScore,
    InvalidEvidenceHash,
    InvalidInvestmentAmount,
    InsufficientTierAmount,
    InvestmentAlreadyExists,
    ProjectNotActive,
    ExceedsTargetFunding,
    ExceedsTargetTrees,
    TooFrequentUpdate,
    InvalidSeverity,
    NotInvestor,
    ProjectMismatch,
    ProjectNotCompleted,
    InvestmentNotActive,
    Unauthorized,
    UnauthorizedOracle,
    PlatformPaused,
    MathOverflow,
}

/// The platform registry: policy, trusted identities and aggregate counters.
#[derive(Clone, Debug)]
pub struct PlatformState {
    pub authority: Principal,
    pub carbon_token_mint: Principal,
    pub ai_oracle_authority: Principal,
    /// Fee taken from each investment, in basis points (at most 10000).
    pub investment_fee_bps: u16,
    /// Lowest acceptable oracle confidence score (at most 100).
    pub min_ai_confidence: u8,
    /// Seconds that must pass between two progress updates of a project.
    pub min_update_interval: u64,
    pub total_projects: u64,
    pub total_investments: u64,
    pub total_carbon_credits: u64,
    pub total_trees_planted: u64,
    pub total_co2_offset: u64,
    pub emergency_pause: bool,
}

impl PlatformState {
    /// The registry's configuration is within its documented ranges.
    pub open spec fn wf(&self) -> bool {
        &&& self.investment_fee_bps <= 10000
        &&& self.min_ai_confidence <= 100
    }
}

/// Where a project is. Coordinates are in millionths of a degree.
#[derive(Clone, Debug, PartialEq, Eq)]
pub struct ProjectLocation {
    pub country: String,
    pub region: String,
    pub latitude_micro: i64,
    pub longitude_micro: i64,
    pub area_hectares: u32,
}

/// The assessment of a site that a project is created with.
#[derive(Clone, Debug, PartialEq, Eq)]
pub struct AIPredictionData {
    pub health_score: u8,
    pub confidence_score: u8,
    pub risk_score: u8,
    /// Digest of the evidence behind the assessment: 64 characters.
    pub evidence_hash: String,
    /// Expected CO2 yield per tree.
    pub co2_per_tree: u64,
}

/// How a project asks to be verified.
#[derive(Clone, Copy, Debug, PartialEq, Eq)]
pub struct VerificationRequirements {
    pub satellite_monitoring: bool,
    pub ground_verification: bool,
    pub third_party_audit: bool,
    pub community_reporting: bool,
    pub verification_frequency_days: u16,
}

/// Scores that the oracle reports with a progress update.
#[derive(Clone, Copy, Debug, PartialEq, Eq)]
pub struct AIVerificationData {
    pub health_score: u8,
    pub confidence_score: u8,
    /// Cumulative CO2 sequestered by the project so far.
    pub co2_sequestered: u64,
}

/// A detailed forest analysis submitted by the oracle.
#[derive(Clone, Copy, Debug, PartialEq, Eq)]
pub struct ForestAnalysisData {
    pub health_score: u8,
    pub biodiversity_index: u8,
    pub deforestation_risk: u8,
    pub canopy_coverage: u8,
    pub soil_carbon_content: u16,
    pub water_stress_level: u8,
}

/// One reforestation project and its funding and planting progress.
#[derive(Clone, Debug)]
pub struct Project {
    pub id: u64,
    pub creator: Principal,
    pub name: String,
    pub description: String,
    pub location: ProjectLocation,
    pub target_trees: u64,
    pub target_funding: u64,
    pub current_funding: u64,
    pub trees_planted: u64,
    pub status: ProjectStatus,
    pub created_at: i64,
    pub last_verification: i64,
    pub health_score: u8,
    pub confidence_score: u8,
    pub risk_score: u8,
    pub evidence_hash: String,
    /// Expected CO2 yield per tree, used to issue credits.
    pub co2_per_tree: u64,
    pub project_tier: InvestmentTier,
    pub verification_requirements: VerificationRequirements,
    pub carbon_credits_issued: u64,
    pub total_co2_offset: u64,
    pub investor_count: u64,
}

impl Project {
    /// Funding never passes its target, nor planting its target.
    pub open spec fn wf(&self) -> bool {
        &&& self.current_funding <= self.target_funding
        &&& self.trees_planted <= self.target_trees
    }
}

/// The running totals of one investor.
#[derive(Clone, Copy, Debug, PartialEq, Eq)]
pub struct UserProfile {
    pub owner: Principal,
    pub total_invested: u64,
    pub carbon_offset: u64,
    pub projects_supported: u32,
    pub investment_tier: InvestmentTier,
    pub level: u8,
    pub last_claim: i64,
}

/// The position of one investor in one project.
#[derive(Clone, Copy, Debug, PartialEq, Eq)]
pub struct Investment {
    pub investor: Principal,
    pub project_id: u64,
    /// The principal recorded as funding, after the platform fee.
    pub amount: u64,
    pub tier: InvestmentTier,
    /// Tier multiplier plus the bonus for the project's scores, in percent.
    pub bonus_multiplier: u16,
    pub timestamp: i64,
    pub status: InvestmentStatus,
    pub carbon_credits_earned: u64,
}

/// A stored forest analysis of a project.
#[derive(Clone, Debug, PartialEq, Eq)]
pub struct AIAnalysis {
    pub project_id: u64,
    pub timestamp: i64,
    pub analysis_data: ForestAnalysisData,
    pub prediction_data: AIPredictionData,
}

/// Notification of a new registry.
#[derive(Clone, Copy, Debug, PartialEq, Eq)]
pub struct PlatformInitialized {
    pub authority: Principal,
    pub carbon_token_mint: Principal,
    pub ai_oracle_authority: Principal,
}

/// Notification of a new project.
#[derive(Clone, Debug, PartialEq, Eq)]
pub struct ProjectCreated {
    pub project_id: u64,
    pub creator: Principal,
    pub name: String,
    pub target_funding: u64,
    pub target_trees: u64,
    pub ai_confidence: u8,
    pub location: ProjectLocation,
}

/// Notification of an investment, with the two amounts to transfer.
#[derive(Clone, Copy, Debug, PartialEq, Eq)]
pub struct InvestmentMade {
    pub investor: Principal,
    pub project_id: u64,
    /// Principal that goes to the project.
    pub amount: u64,
    /// Fee that goes to the platform.
    pub fee: u64,
    pub tier: InvestmentTier,
    pub total_project_funding: u64,
    pub bonus_multiplier: u16,
    pub status: ProjectStatus,
}

/// Notification of a progress update.
#[derive(Clone, Debug, PartialEq, Eq)]
pub struct ProjectProgressUpdated {
    pub project_id: u64,
    pub trees_planted: u64,
    pub new_trees: u64,
    pub co2_offset: u64,
    pub new_co2_offset: u64,
    pub ai_confidence: u8,
    pub health_score: u8,
    pub satellite_data_hash: String,
    pub status: ProjectStatus,
}

/// Notification of a stored forest analysis.
#[derive(Clone, Copy, Debug, PartialEq, Eq)]
pub struct AIAnalysisSubmitted {
    pub project_id: u64,
    pub health_score: u8,
    pub biodiversity_index: u8,
    pub deforestation_risk: u8,
    pub confidence_score: u8,
}

/// Notification of an anomaly report and its effect.
#[derive(Clone, Copy, Debug, PartialEq, Eq)]
pub struct AnomalyReported {
    pub project_id: u64,
    pub anomaly_type: u8,
    pub severity: u8,
    pub health_score: u8,
    pub status: ProjectStatus,
}

/// Notification of credits issued to an investor.
#[derive(Clone, Copy, Debug, PartialEq, Eq)]
pub struct CarbonCreditsClaimed {
    pub user: Principal,
    pub project_id: u64,
    pub amount: u64,
    pub total_offset: u64,
    pub investment_tier: InvestmentTier,
}

/// Notification that the platform was paused.
#[derive(Clone, Copy, Debug, PartialEq, Eq)]
pub struct EmergencyPause {
    pub timestamp: i64,
}

/// Notification that the platform was resumed.
#[derive(Clone, Copy, Debug, PartialEq, Eq)]
pub struct EmergencyResume {
    pub timestamp: i64,
}

/// Notification that the oracle identity was replaced.
#[derive(Clone, Copy, Debug, PartialEq, Eq)]
pub struct OracleUpdated {
    pub previous: Principal,
    pub current: Principal,
}

} // verus!
