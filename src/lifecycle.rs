//! The project lifecycle as one table from status and event to the next status.
use vstd::prelude::*;
use crate::types::ProjectStatus;

verus! {

/// What can happen to a project.
#[derive(Clone, Copy, Debug, PartialEq, Eq, Structural)]
pub enum LifecycleEvent {
    /// Capital is recorded; `fills_target` when funding then equals its target.
    Funding { fills_target: bool },
    /// Planting progress is recorded; `reaches_target` when all target trees stand.
    Progress { reaches_target: bool },
    /// A severe anomaly is reported.
    Escalation,
}

/// The next status after `event`, or `None` where the status refuses the event.
/// Funding needs an `Active` project, progress an `Active` or `Funded` one. An
/// escalation suspends an `Active` or `Funded` project and leaves a closed one as
/// it is.
pub open spec fn lifecycle_step(status: ProjectStatus, event: LifecycleEvent) -> Option<ProjectStatus> {
    match event {
        LifecycleEvent::Funding { fills_target } => match status {
            ProjectStatus::Active => Some(
                if fills_target {
                    ProjectStatus::Funded
                } else {
                    ProjectStatus::Active
                },
            ),
            _ => None,
        },
        LifecycleEvent::Progress { reaches_target } => match status {
            ProjectStatus::Active | ProjectStatus::Funded => Some(
                if reaches_target {
                    ProjectStatus::Completed
                } else {
                    status
                },
            ),
            _ => None,
        },
        LifecycleEvent::Escalation => match status {
            ProjectStatus::Active | ProjectStatus::Funded => Some(ProjectStatus::Suspended),
            _ => Some(status),
        },
    }
}

/// Position along the forward path `Active → Funded → Completed`.
pub open spec fn forward_rank(status: ProjectStatus) -> nat {
    match status {
        ProjectStatus::Active => 0,
        ProjectStatus::Funded => 1,
        ProjectStatus::Completed => 2,
        ProjectStatus::Suspended => 3,
    }
}

/// Whether a project may go from `from` to `to`: it stays, moves forward along
/// `Active → Funded → Completed`, or is suspended from `Active` or `Funded`.
pub open spec fn status_may_follow(from: ProjectStatus, to: ProjectStatus) -> bool {
    ||| from == to
    ||| (to != ProjectStatus::Suspended && from != ProjectStatus::Suspended && forward_rank(from)
        <= forward_rank(to))
    ||| (to == ProjectStatus::Suspended && (from == ProjectStatus::Active || from
        == ProjectStatus::Funded))
}

/// The next status after `event`, or `None` where the status refuses it.
pub fn next_status(status: ProjectStatus, event: LifecycleEvent) -> (r: Option<ProjectStatus>)
    ensures
        r == lifecycle_step(status, event),
{
    match event {
        LifecycleEvent::Funding { fills_target } => match status {
            ProjectStatus::Active => Some(
                if fills_target {
                    ProjectStatus::Funded
                } else {
                    ProjectStatus::Active
                },
            ),
            _ => None,
        },
        LifecycleEvent::Progress { reaches_target } => match status {
            ProjectStatus::Active | ProjectStatus::Funded => Some(
                if reaches_target {
                    ProjectStatus::Completed
                } else {
                    status
                },
            ),
            _ => None,
        },
        LifecycleEvent::Escalation => match status {
            ProjectStatus::Active | ProjectStatus::Funded => Some(ProjectStatus::Suspended),
            _ => Some(status),
        },
    }
}

} // verus!
