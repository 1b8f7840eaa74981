//! The orchestrator's state machine: a linear, non-branching pipeline.
//!
//! Each stage's outside work (the clone, the checkout, the commit, the
//! push, the pull-request call) happens outside the library; its outcome
//! comes back as an event, and [`advance`] decides the next stage. A
//! failure at any stage ends the run at once — there is no retry and no
//! backward transition — and nothing already done is rolled back.

use crate::errors::PipelineError;
use vstd::prelude::*;

verus! {

/// The stages of one run, in the order they happen. `Done` and `Failed`
/// are terminal.
#[derive(Clone, Debug)]
pub enum Stage {
    /// Resolve the run's configuration.
    ResolveParameters,
    /// Clone the remote repository into the working copy.
    CloneRepo,
    /// Create the branch, check it out, and rewrite the candidate files.
    BranchAndRewrite,
    /// Stage everything and write the one commit.
    Commit,
    /// Push the branch to the remote.
    Push,
    /// Open the pull request.
    OpenPullRequest,
    /// Every stage succeeded.
    Done,
    /// A stage failed; the run ended there.
    Failed(PipelineError),
}

/// What one stage's outside work reported.
#[derive(Clone, Debug)]
pub enum StepOutcome {
    /// The stage's work succeeded.
    Succeeded,
    /// The stage's work failed with this error.
    FailedWith(PipelineError),
}

/// The position of a stage in the run's order.
pub open spec fn stage_index(s: Stage) -> int {
    match s {
        Stage::ResolveParameters => 0,
        Stage::CloneRepo => 1,
        Stage::BranchAndRewrite => 2,
        Stage::Commit => 3,
        Stage::Push => 4,
        Stage::OpenPullRequest => 5,
        Stage::Done => 6,
        Stage::Failed(_) => 7,
    }
}

/// Whether a stage ends the run.
pub open spec fn is_terminal(s: Stage) -> bool {
    s is Done || s is Failed
}

/// The stage that follows a stage when its work succeeds.
pub open spec fn next_stage(s: Stage) -> Stage {
    match s {
        Stage::ResolveParameters => Stage::CloneRepo,
        Stage::CloneRepo => Stage::BranchAndRewrite,
        Stage::BranchAndRewrite => Stage::Commit,
        Stage::Commit => Stage::Push,
        Stage::Push => Stage::OpenPullRequest,
        Stage::OpenPullRequest => Stage::Done,
        Stage::Done => Stage::Done,
        Stage::Failed(e) => Stage::Failed(e),
    }
}

/// What [`advance`] returns: the spec-level transition of the pipeline.
pub open spec fn advance_spec(stage: Stage, outcome: StepOutcome) -> Stage {
    if is_terminal(stage) {
        stage
    } else {
        match outcome {
            StepOutcome::Succeeded => next_stage(stage),
            StepOutcome::FailedWith(e) => Stage::Failed(e),
        }
    }
}

/// Moves the run forward by one stage: on success to the next stage in the
/// fixed order, on failure straight to `Failed` with that stage's error. A
/// terminal stage stays where it is.
pub fn advance(stage: Stage, outcome: StepOutcome) -> (r: Stage)
    ensures
        r == advance_spec(stage, outcome),
{
    match stage {
        Stage::Done => Stage::Done,
        Stage::Failed(e) => Stage::Failed(e),
        _ => match outcome {
            StepOutcome::FailedWith(e) => Stage::Failed(e),
            StepOutcome::Succeeded => match stage {
                Stage::ResolveParameters => Stage::CloneRepo,
                Stage::CloneRepo => Stage::BranchAndRewrite,
                Stage::BranchAndRewrite => Stage::Commit,
                Stage::Commit => Stage::Push,
                Stage::Push => Stage::OpenPullRequest,
                Stage::OpenPullRequest => Stage::Done,
                Stage::Done => Stage::Done,
                Stage::Failed(e) => Stage::Failed(e),
            },
        },
    }
}

/// The pipeline is linear and never moves backward: every transition out
/// of a non-terminal stage strictly increases the stage's position, and a
/// run that has ended does not move again.
pub proof fn lemma_pipeline_linear(stage: Stage, outcome: StepOutcome)
    ensures
        !is_terminal(stage) ==> stage_index(advance_spec(stage, outcome)) > stage_index(stage),
        is_terminal(stage) ==> advance_spec(stage, outcome) == stage,
{
}

/// A failing stage ends the run at once with exactly that stage's error:
/// no stage is retried, and in particular a rejected push is never answered
/// with a second attempt.
pub proof fn lemma_failure_aborts(stage: Stage, e: PipelineError)
    ensures
        !is_terminal(stage) ==> advance_spec(stage, StepOutcome::FailedWith(e))
            == Stage::Failed(e),
        advance_spec(Stage::Failed(e), StepOutcome::Succeeded) == Stage::Failed(e),
{
}

/// How a failure while rewriting one file is handled: under
/// `ContinueOnError` the walk goes on to the next file, under
/// `AbortOnError` the run ends with that failure.
#[derive(Clone, Copy, PartialEq, Eq, Structural, Debug)]
pub enum ErrorPolicy {
    /// Log the file's failure and continue with the remaining files.
    ContinueOnError,
    /// End the run at the first file that fails.
    AbortOnError,
}

/// Decides whether one file's failure ends the run: never under
/// `ContinueOnError`, always — with that very failure — under
/// `AbortOnError`.
pub fn resolve_file_failure(policy: ErrorPolicy, error: PipelineError) -> (r: Option<
    PipelineError,
>)
    ensures
        policy is ContinueOnError ==> r is None,
        policy is AbortOnError ==> r == Option::Some(error),
{
    match policy {
        ErrorPolicy::ContinueOnError => Option::None,
        ErrorPolicy::AbortOnError => Option::Some(error),
    }
}

} // verus!
