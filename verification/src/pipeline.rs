//! The per-site pipeline: its fixed stage order, the short-circuit on the
//! first failed stage, and the outcome a site contributes to the run.

use vstd::prelude::*;

use crate::error::AppError;

verus! {

/// The stages of one site's pipeline, in their fixed order, and the two
/// terminal states.
#[derive(Clone, Copy, PartialEq, Eq, Structural, Debug)]
pub enum PipelineStage {
    Authenticate,
    ComputeWindow,
    AssembleData,
    Render,
    Deliver,
    Succeeded,
    Failed,
}

impl PipelineStage {
    /// Whether work remains at this stage.
    pub open spec fn is_active(&self) -> bool {
        !(self is Succeeded || self is Failed)
    }

    /// The stage that follows a successful step.
    pub open spec fn spec_next(&self) -> PipelineStage {
        match self {
            PipelineStage::Authenticate => PipelineStage::ComputeWindow,
            PipelineStage::ComputeWindow => PipelineStage::AssembleData,
            PipelineStage::AssembleData => PipelineStage::Render,
            PipelineStage::Render => PipelineStage::Deliver,
            PipelineStage::Deliver => PipelineStage::Succeeded,
            _ => PipelineStage::Succeeded,
        }
    }
}

/// Advances the pipeline by one step: a successful step moves to the next
/// stage in the fixed order, a failed step short-circuits every remaining
/// stage.
pub fn pipeline_advance(stage: &PipelineStage, step_ok: bool) -> (r: PipelineStage)
    requires
        stage.is_active(),
    ensures
        step_ok ==> r == stage.spec_next(),
        !step_ok ==> r is Failed,
{
    if !step_ok {
        PipelineStage::Failed
    } else {
        match stage {
            PipelineStage::Authenticate => PipelineStage::ComputeWindow,
            PipelineStage::ComputeWindow => PipelineStage::AssembleData,
            PipelineStage::AssembleData => PipelineStage::Render,
            PipelineStage::Render => PipelineStage::Deliver,
            PipelineStage::Deliver => PipelineStage::Succeeded,
            PipelineStage::Succeeded => PipelineStage::Succeeded,
            PipelineStage::Failed => PipelineStage::Succeeded,
        }
    }
}

/// What one site contributed to the run: success, or failure with its error.
pub enum PipelineOutcome {
    Success { site: String },
    Failure { site: String, error: AppError },
}

impl PipelineOutcome {
    /// The identifier of the site the outcome belongs to.
    pub open spec fn spec_site(&self) -> Seq<char> {
        match self {
            PipelineOutcome::Success { site } => site@,
            PipelineOutcome::Failure { site, .. } => site@,
        }
    }

    /// Whether the site's pipeline failed.
    pub open spec fn is_failure(&self) -> bool {
        self is Failure
    }
}

/// The outcome of a finished pipeline: success in the `Succeeded` state,
/// failure carrying the stage's error otherwise.
pub fn pipeline_outcome(site: &str, stage: &PipelineStage, error: Option<AppError>) -> (r:
    PipelineOutcome)
    requires
        !stage.is_active(),
        stage is Failed ==> error is Some,
    ensures
        r.spec_site() == site@,
        r.is_failure() <==> stage is Failed,
        r matches PipelineOutcome::Failure { error: e, .. } ==> error matches Some(e2) && e == e2,
{
    match stage {
        PipelineStage::Succeeded => PipelineOutcome::Success { site: site.to_owned() },
        _ => match error {
            Some(e) => PipelineOutcome::Failure { site: site.to_owned(), error: e },
            None => vstd::pervasive::unreached(),
        },
    }
}

} // verus!
