//! The project ledger: creation, funding, oracle progress updates, anomaly
//! reports and stored analyses.
use vstd::prelude::*;
use crate::guard::{has_role, is_valid_evidence_hash, update_is_fresh, fresh_enough, Role,
    EVIDENCE_HASH_LEN};
use crate::lifecycle::{lifecycle_step, next_status, status_may_follow, LifecycleEvent};
use crate::types::{
    AIAnalysis, AIAnalysisSubmitted, AIPredictionData, AIVerificationData, AnomalyReported,
    ErrorCode, ForestAnalysisData, InvestmentTier, PlatformState, Principal, Project,
    ProjectCreated, ProjectLocation, ProjectProgressUpdated, ProjectStatus,
    VerificationRequirements,
};

verus! {

/// Longest project name, in characters.
pub const MAX_NAME_LEN: usize = 100;

/// Longest project description, in characters.
pub const MAX_DESCRIPTION_LEN: usize = 500;

/// Longest country or region of a location, in characters.
pub const MAX_PLACE_LEN: usize = 50;

/// Lowest health score that a new project may have.
pub const MIN_CREATION_HEALTH: u8 = 60;

/// Highest risk score that a new project may have.
pub const MAX_CREATION_RISK: u8 = 40;

/// Lowest confidence of an anomaly report.
pub const MIN_ANOMALY_CONFIDENCE: u8 = 90;

/// Anomalies from this severity on suspend an open project.
pub const SUSPENSION_SEVERITY: u8 = 80;

/// Anomalies from this severity on (and below suspension) lower the health score.
pub const PENALTY_SEVERITY: u8 = 50;

/// How far `new` passes `old`, or zero where it does not.
pub open spec fn growth(new: u64, old: u64) -> nat {
    if new > old {
        (new - old) as nat
    } else {
        0
    }
}

/// Why `create_project` refuses, checked in this order.
pub open spec fn create_failure(
    platform: PlatformState,
    name: Seq<char>,
    description: Seq<char>,
    location: ProjectLocation,
    target_trees: u64,
    target_funding: u64,
    prediction: AIPredictionData,
) -> Option<ErrorCode> {
    if platform.emergency_pause {
        Some(ErrorCode::PlatformPaused)
    } else if name.len() > MAX_NAME_LEN {
        Some(ErrorCode::NameTooLong)
    } else if description.len() > MAX_DESCRIPTION_LEN {
        Some(ErrorCode::DescriptionTooLong)
    } else if location.country@.len() > MAX_PLACE_LEN || location.region@.len() > MAX_PLACE_LEN {
        Some(ErrorCode::LocationTooLong)
    } else if target_trees == 0 {
        Some(ErrorCode::InvalidTargetTrees)
    } else if target_funding == 0 {
        Some(ErrorCode::InvalidTargetFunding)
    } else if prediction.confidence_score < platform.min_ai_confidence {
        Some(ErrorCode::InsufficientAIConfidence)
    } else if prediction.health_score < MIN_CREATION_HEALTH {
        Some(ErrorCode::InsufficientHealthScore)
    } else if prediction.risk_score > MAX_CREATION_RISK {
        Some(ErrorCode::ExcessiveRiskScore)
    } else if prediction.evidence_hash@.len() != EVIDENCE_HASH_LEN {
        Some(ErrorCode::InvalidEvidenceHash)
    } else if platform.total_projects == u64::MAX {
        Some(ErrorCode::MathOverflow)
    } else {
        None
    }
}

/// An `Active` project with no funding, progress or credits yet.
pub open spec fn new_project(
    project_id: u64,
    creator: Principal,
    name: String,
    description: String,
    location: ProjectLocation,
    target_trees: u64,
    target_funding: u64,
    prediction: AIPredictionData,
    project_tier: InvestmentTier,
    verification_requirements: VerificationRequirements,
    now: i64,
) -> Project {
    Project {
        id: project_id,
        creator,
        name,
        description,
        location,
        target_trees,
        target_funding,
        current_funding: 0,
        trees_planted: 0,
        status: ProjectStatus::Active,
        created_at: now,
        last_verification: 0,
        health_score: prediction.health_score,
        confidence_score: prediction.confidence_score,
        risk_score: prediction.risk_score,
        evidence_hash: prediction.evidence_hash,
        co2_per_tree: prediction.co2_per_tree,
        project_tier,
        verification_requirements,
        carbon_credits_issued: 0,
        total_co2_offset: 0,
        investor_count: 0,
    }
}

/// A copy of `location`.
fn copy_location(location: &ProjectLocation) -> (r: ProjectLocation)
    ensures
        r == *location,
{
    ProjectLocation {
        country: location.country.clone(),
        region: location.region.clone(),
        latitude_micro: location.latitude_micro,
        longitude_micro: location.longitude_micro,
        area_hectares: location.area_hectares,
    }
}

/// Creates a project after checking the platform, its description and its
/// initial assessment; counts it in the registry.
pub fn create_project(
    platform: &mut PlatformState,
    creator: Principal,
    project_id: u64,
    name: String,
    description: String,
    location: ProjectLocation,
    target_trees: u64,
    target_funding: u64,
    prediction: AIPredictionData,
    project_tier: InvestmentTier,
    verification_requirements: VerificationRequirements,
    now: i64,
) -> (r: Result<(Project, ProjectCreated), ErrorCode>)
    ensures
        match r {
            Ok((project, event)) => {
                &&& create_failure(
                    *old(platform),
                    name@,
                    description@,
                    location,
                    target_trees,
                    target_funding,
                    prediction,
                ) is None
                &&& project == new_project(
                    project_id,
                    creator,
                    name,
                    description,
                    location,
                    target_trees,
                    target_funding,
                    prediction,
                    project_tier,
                    verification_requirements,
                    now,
                )
                &&& project.wf()
                &&& *final(platform) == (PlatformState {
                    total_projects: (old(platform).total_projects + 1) as u64,
                    ..*old(platform)
                })
                &&& event == (ProjectCreated {
                    project_id,
                    creator,
                    name,
                    target_funding,
                    target_trees,
                    ai_confidence: prediction.confidence_score,
                    location,
                })
            },
            Err(e) => {
                &&& create_failure(
                    *old(platform),
                    name@,
                    description@,
                    location,
                    target_trees,
                    target_funding,
                    prediction,
                ) == Some(e)
                &&& *final(platform) == *old(platform)
            },
        },
{
    if platform.emergency_pause {
        return Err(ErrorCode::PlatformPaused);
    }
    if name.as_str().unicode_len() > MAX_NAME_LEN {
        return Err(ErrorCode::NameTooLong);
    }
    if description.as_str().unicode_len() > MAX_DESCRIPTION_LEN {
        return Err(ErrorCode::DescriptionTooLong);
    }
    if location.country.as_str().unicode_len() > MAX_PLACE_LEN
        || location.region.as_str().unicode_len() > MAX_PLACE_LEN {
        return Err(ErrorCode::LocationTooLong);
    }
    if target_trees == 0 {
        return Err(ErrorCode::InvalidTargetTrees);
    }
    if target_funding == 0 {
        return Err(ErrorCode::InvalidTargetFunding);
    }
    if prediction.confidence_score < platform.min_ai_confidence {
        return Err(ErrorCode::InsufficientAIConfidence);
    }
    if prediction.health_score < MIN_CREATION_HEALTH {
        return Err(ErrorCode::InsufficientHealthScore);
    }
    if prediction.risk_score > MAX_CREATION_RISK {
        return Err(ErrorCode::ExcessiveRiskScore);
    }
    if !is_valid_evidence_hash(&prediction.evidence_hash) {
        return Err(ErrorCode::InvalidEvidenceHash);
    }
    if platform.total_projects == u64::MAX {
        return Err(ErrorCode::MathOverflow);
    }
    platform.total_projects = platform.total_projects + 1;
    let event = ProjectCreated {
        project_id,
        creator,
        name: name.clone(),
        target_funding,
        target_trees,
        ai_confidence: prediction.confidence_score,
        location: copy_location(&location),
    };
    let project = Project {
        id: project_id,
        creator,
        name,
        description,
        location,
        target_trees,
        target_funding,
        current_funding: 0,
        trees_planted: 0,
        status: ProjectStatus::Active,
        created_at: now,
        last_verification: 0,
        health_score: prediction.health_score,
        confidence_score: prediction.confidence_score,
        risk_score: prediction.risk_score,
        evidence_hash: prediction.evidence_hash,
        co2_per_tree: prediction.co2_per_tree,
        project_tier,
        verification_requirements,
        carbon_credits_issued: 0,
        total_co2_offset: 0,
        investor_count: 0,
    };
    Ok((project, event))
}

/// Why `record_funding` refuses, checked in this order.
pub open spec fn funding_failure(project: Project, amount: u64) -> Option<ErrorCode> {
    if lifecycle_step(project.status, LifecycleEvent::Funding { fills_target: false }) is None {
        Some(ErrorCode::ProjectNotActive)
    } else if project.current_funding + amount > project.target_funding {
        Some(ErrorCode::ExceedsTargetFunding)
    } else {
        None
    }
}

/// The project after `amount` more funding: `Funded` once the target is met.
pub open spec fn funded(project: Project, amount: u64) -> Project {
    let total = (project.current_funding + amount) as u64;
    Project {
        current_funding: total,
        status: lifecycle_step(
            project.status,
            LifecycleEvent::Funding { fills_target: total == project.target_funding },
        ).unwrap(),
        ..project
    }
}

/// Adds `amount` to the funding of an `Active` project, never past its target;
/// the project becomes `Funded` when the target is met.
pub fn record_funding(project: &mut Project, amount: u64) -> (r: Result<ProjectStatus, ErrorCode>)
    requires
        old(project).wf(),
    ensures
        match r {
            Ok(status) => {
                &&& funding_failure(*old(project), amount) is None
                &&& *final(project) == funded(*old(project), amount)
                &&& status == final(project).status
            },
            Err(e) => {
                &&& funding_failure(*old(project), amount) == Some(e)
                &&& *final(project) == *old(project)
            },
        },
        final(project).wf(),
        status_may_follow(old(project).status, final(project).status),
{
    if project.status != ProjectStatus::Active {
        return Err(ErrorCode::ProjectNotActive);
    }
    if amount > project.target_funding - project.current_funding {
        return Err(ErrorCode::ExceedsTargetFunding);
    }
    let total = project.current_funding + amount;
    let fills_target = total == project.target_funding;
    match next_status(project.status, LifecycleEvent::Funding { fills_target }) {
        Some(status) => {
            project.current_funding = total;
            project.status = status;
            Ok(status)
        },
        None => Err(ErrorCode::ProjectNotActive),
    }
}

/// Why `update_project_progress` refuses, checked in this order.
pub open spec fn progress_failure(
    platform: PlatformState,
    project: Project,
    caller: Principal,
    trees_planted: u64,
    verification: AIVerificationData,
    satellite_data_hash: Seq<char>,
    now: i64,
) -> Option<ErrorCode> {
    if platform.emergency_pause {
        Some(ErrorCode::PlatformPaused)
    } else if caller != platform.ai_oracle_authority {
        Some(ErrorCode::UnauthorizedOracle)
    } else if verification.confidence_score < platform.min_ai_confidence {
        Some(ErrorCode::InsufficientAIConfidence)
    } else if satellite_data_hash.len() != EVIDENCE_HASH_LEN {
        Some(ErrorCode::InvalidEvidenceHash)
    } else if lifecycle_step(project.status, LifecycleEvent::Progress { reaches_target: false })
        is None {
        Some(ErrorCode::ProjectNotActive)
    } else if !fresh_enough(now, project.last_verification, platform.min_update_interval) {
        Some(ErrorCode::TooFrequentUpdate)
    } else if trees_planted > project.target_trees {
        Some(ErrorCode::ExceedsTargetTrees)
    } else if platform.total_trees_planted + growth(trees_planted, project.trees_planted)
        > u64::MAX {
        Some(ErrorCode::MathOverflow)
    } else if platform.total_co2_offset + growth(
        verification.co2_sequestered,
        project.total_co2_offset,
    ) > u64::MAX {
        Some(ErrorCode::MathOverflow)
    } else {
        None
    }
}

/// The project after an accepted progress report: the cumulative figures,
/// scores, evidence and time of the report are stored, and the project is
/// `Completed` once every target tree is planted.
pub open spec fn progressed(
    project: Project,
    trees_planted: u64,
    verification: AIVerificationData,
    satellite_data_hash: String,
    now: i64,
) -> Project {
    Project {
        trees_planted,
        total_co2_offset: verification.co2_sequestered,
        health_score: verification.health_score,
        confidence_score: verification.confidence_score,
        evidence_hash: satellite_data_hash,
        last_verification: now,
        status: lifecycle_step(
            project.status,
            LifecycleEvent::Progress { reaches_target: trees_planted >= project.target_trees },
        ).unwrap(),
        ..project
    }
}

/// Records an oracle's progress report. `trees_planted` and the CO2 figure are
/// cumulative; the registry's totals grow by how far each passes the value
/// stored before (nothing where it fell).
pub fn update_project_progress(
    platform: &mut PlatformState,
    project: &mut Project,
    caller: &Principal,
    trees_planted: u64,
    verification: AIVerificationData,
    satellite_data_hash: String,
    now: i64,
) -> (r: Result<ProjectProgressUpdated, ErrorCode>)
    requires
        old(project).wf(),
    ensures
        match r {
            Ok(event) => {
                &&& progress_failure(
                    *old(platform),
                    *old(project),
                    *caller,
                    trees_planted,
                    verification,
                    satellite_data_hash@,
                    now,
                ) is None
                &&& *final(project) == progressed(
                    *old(project),
                    trees_planted,
                    verification,
                    satellite_data_hash,
                    now,
                )
                &&& *final(platform) == (PlatformState {
                    total_trees_planted: (old(platform).total_trees_planted + growth(
                        trees_planted,
                        old(project).trees_planted,
                    )) as u64,
                    total_co2_offset: (old(platform).total_co2_offset + growth(
                        verification.co2_sequestered,
                        old(project).total_co2_offset,
                    )) as u64,
                    ..*old(platform)
                })
                &&& event == (ProjectProgressUpdated {
                    project_id: old(project).id,
                    trees_planted,
                    new_trees: growth(trees_planted, old(project).trees_planted) as u64,
                    co2_offset: verification.co2_sequestered,
                    new_co2_offset: growth(
                        verification.co2_sequestered,
                        old(project).total_co2_offset,
                    ) as u64,
                    ai_confidence: verification.confidence_score,
                    health_score: verification.health_score,
                    satellite_data_hash,
                    status: final(project).status,
                })
            },
            Err(e) => {
                &&& progress_failure(
                    *old(platform),
                    *old(project),
                    *caller,
                    trees_planted,
                    verification,
                    satellite_data_hash@,
                    now,
                ) == Some(e)
                &&& *final(platform) == *old(platform)
                &&& *final(project) == *old(project)
            },
        },
        final(project).wf(),
        status_may_follow(old(project).status, final(project).status),
{
    if platform.emergency_pause {
        return Err(ErrorCode::PlatformPaused);
    }
    if !has_role(platform, caller, Role::Oracle) {
        return Err(ErrorCode::UnauthorizedOracle);
    }
    if verification.confidence_score < platform.min_ai_confidence {
        return Err(ErrorCode::InsufficientAIConfidence);
    }
    if !is_valid_evidence_hash(&satellite_data_hash) {
        return Err(ErrorCode::InvalidEvidenceHash);
    }
    let reaches_target = trees_planted >= project.target_trees;
    let status = match next_status(project.status, LifecycleEvent::Progress { reaches_target }) {
        Some(status) => status,
        None => {
            return Err(ErrorCode::ProjectNotActive);
        },
    };
    if !update_is_fresh(now, project.last_verification, platform.min_update_interval) {
        return Err(ErrorCode::TooFrequentUpdate);
    }
    if trees_planted > project.target_trees {
        return Err(ErrorCode::ExceedsTargetTrees);
    }
    let new_trees: u64 = if trees_planted > project.trees_planted {
        trees_planted - project.trees_planted
    } else {
        0
    };
    let new_co2: u64 = if verification.co2_sequestered > project.total_co2_offset {
        verification.co2_sequestered - project.total_co2_offset
    } else {
        0
    };
    let total_trees = match platform.total_trees_planted.checked_add(new_trees) {
        Some(total) => total,
        None => {
            return Err(ErrorCode::MathOverflow);
        },
    };
    let total_co2 = match platform.total_co2_offset.checked_add(new_co2) {
        Some(total) => total,
        None => {
            return Err(ErrorCode::MathOverflow);
        },
    };
    platform.total_trees_planted = total_trees;
    platform.total_co2_offset = total_co2;
    let event = ProjectProgressUpdated {
        project_id: project.id,
        trees_planted,
        new_trees,
        co2_offset: verification.co2_sequestered,
        new_co2_offset: new_co2,
        ai_confidence: verification.confidence_score,
        health_score: verification.health_score,
        satellite_data_hash: satellite_data_hash.clone(),
        status,
    };
    project.trees_planted = trees_planted;
    project.total_co2_offset = verification.co2_sequestered;
    project.health_score = verification.health_score;
    project.confidence_score = verification.confidence_score;
    project.evidence_hash = satellite_data_hash;
    project.last_verification = now;
    project.status = status;
    Ok(event)
}

/// Why `report_anomaly` refuses, checked in this order.
pub open spec fn anomaly_failure(
    platform: PlatformState,
    caller: Principal,
    severity: u8,
    confidence: u8,
    evidence_hash: Seq<char>,
) -> Option<ErrorCode> {
    if caller != platform.ai_oracle_authority {
        Some(ErrorCode::UnauthorizedOracle)
    } else if confidence < MIN_ANOMALY_CONFIDENCE {
        Some(ErrorCode::InsufficientAIConfidence)
    } else if evidence_hash.len() != EVIDENCE_HASH_LEN {
        Some(ErrorCode::InvalidEvidenceHash)
    } else if severity > 100 {
        Some(ErrorCode::InvalidSeverity)
    } else {
        None
    }
}

/// `health` lowered by `penalty`, but not below zero.
pub open spec fn lowered(health: u8, penalty: u8) -> u8 {
    if health > penalty {
        (health - penalty) as u8
    } else {
        0
    }
}

/// The project after an accepted anomaly report of `severity`: suspended from
/// severity 80 on (a closed project stays as it is), its health lowered by half
/// the severity from 50 on, unchanged below.
pub open spec fn after_anomaly(project: Project, severity: u8) -> Project {
    if severity >= SUSPENSION_SEVERITY {
        Project {
            status: lifecycle_step(project.status, LifecycleEvent::Escalation).unwrap(),
            ..project
        }
    } else if severity >= PENALTY_SEVERITY {
        Project { health_score: lowered(project.health_score, severity / 2), ..project }
    } else {
        project
    }
}

/// Records an oracle's anomaly report and applies its automatic response. Each
/// report applies its penalty again, also when it repeats an earlier one.
pub fn report_anomaly(
    platform: &PlatformState,
    project: &mut Project,
    caller: &Principal,
    anomaly_type: u8,
    severity: u8,
    confidence: u8,
    evidence_hash: &String,
) -> (r: Result<AnomalyReported, ErrorCode>)
    ensures
        match r {
            Ok(event) => {
                &&& anomaly_failure(*platform, *caller, severity, confidence, evidence_hash@) is None
                &&& *final(project) == after_anomaly(*old(project), severity)
                &&& event == (AnomalyReported {
                    project_id: old(project).id,
                    anomaly_type,
                    severity,
                    health_score: final(project).health_score,
                    status: final(project).status,
                })
            },
            Err(e) => {
                &&& anomaly_failure(*platform, *caller, severity, confidence, evidence_hash@)
                    == Some(e)
                &&& *final(project) == *old(project)
            },
        },
        old(project).wf() ==> final(project).wf(),
        status_may_follow(old(project).status, final(project).status),
{
    if !has_role(platform, caller, Role::Oracle) {
        return Err(ErrorCode::UnauthorizedOracle);
    }
    if confidence < MIN_ANOMALY_CONFIDENCE {
        return Err(ErrorCode::InsufficientAIConfidence);
    }
    if !is_valid_evidence_hash(evidence_hash) {
        return Err(ErrorCode::InvalidEvidenceHash);
    }
    if severity > 100 {
        return Err(ErrorCode::InvalidSeverity);
    }
    if severity >= SUSPENSION_SEVERITY {
        match next_status(project.status, LifecycleEvent::Escalation) {
            Some(status) => {
                project.status = status;
            },
            None => {},
        }
    } else if severity >= PENALTY_SEVERITY {
        let penalty = severity / 2;
        project.health_score = if project.health_score > penalty {
            project.health_score - penalty
        } else {
            0
        };
    }
    Ok(
        AnomalyReported {
            project_id: project.id,
            anomaly_type,
            severity,
            health_score: project.health_score,
            status: project.status,
        },
    )
}

/// Why `submit_ai_analysis` refuses, checked in this order.
pub open spec fn analysis_failure(platform: PlatformState, caller: Principal) -> Option<ErrorCode> {
    if platform.emergency_pause {
        Some(ErrorCode::PlatformPaused)
    } else if caller != platform.ai_oracle_authority {
        Some(ErrorCode::UnauthorizedOracle)
    } else {
        None
    }
}

/// Stores an oracle's forest analysis of a project as a record of its own; the
/// project itself is left as it is.
pub fn submit_ai_analysis(
    platform: &PlatformState,
    project: &Project,
    caller: &Principal,
    analysis_data: ForestAnalysisData,
    prediction_data: AIPredictionData,
    now: i64,
) -> (r: Result<(AIAnalysis, AIAnalysisSubmitted), ErrorCode>)
    ensures
        match r {
            Ok((analysis, event)) => {
                &&& analysis_failure(*platform, *caller) is None
                &&& analysis == (AIAnalysis {
                    project_id: project.id,
                    timestamp: now,
                    analysis_data,
                    prediction_data,
                })
                &&& event == (AIAnalysisSubmitted {
                    project_id: project.id,
                    health_score: analysis_data.health_score,
                    biodiversity_index: analysis_data.biodiversity_index,
                    deforestation_risk: analysis_data.deforestation_risk,
                    confidence_score: prediction_data.confidence_score,
                })
            },
            Err(e) => analysis_failure(*platform, *caller) == Some(e),
        },
{
    if platform.emergency_pause {
        return Err(ErrorCode::PlatformPaused);
    }
    if !has_role(platform, caller, Role::Oracle) {
        return Err(ErrorCode::UnauthorizedOracle);
    }
    let event = AIAnalysisSubmitted {
        project_id: project.id,
        health_score: analysis_data.health_score,
        biodiversity_index: analysis_data.biodiversity_index,
        deforestation_risk: analysis_data.deforestation_risk,
        confidence_score: prediction_data.confidence_score,
    };
    let analysis = AIAnalysis { project_id: project.id, timestamp: now, analysis_data, prediction_data };
    Ok((analysis, event))
}

} // verus!
