use repo_updater::errors::{
    classify_branch_failure, classify_push_failure, GitErrorCode, PipelineError,
};
use repo_updater::pipeline::{
    advance, resolve_file_failure, ErrorPolicy, Stage, StepOutcome,
};

#[test]
fn successful_run_walks_every_stage_once() {
    let mut stage = Stage::ResolveParameters;
    stage = advance(stage, StepOutcome::Succeeded);
    assert!(matches!(stage, Stage::CloneRepo));
    stage = advance(stage, StepOutcome::Succeeded);
    assert!(matches!(stage, Stage::BranchAndRewrite));
    stage = advance(stage, StepOutcome::Succeeded);
    assert!(matches!(stage, Stage::Commit));
    stage = advance(stage, StepOutcome::Succeeded);
    assert!(matches!(stage, Stage::Push));
    stage = advance(stage, StepOutcome::Succeeded);
    assert!(matches!(stage, Stage::OpenPullRequest));
    stage = advance(stage, StepOutcome::Succeeded);
    assert!(matches!(stage, Stage::Done));
    // Done is terminal: nothing moves the run further.
    stage = advance(stage, StepOutcome::Succeeded);
    assert!(matches!(stage, Stage::Done));
}

#[test]
fn empty_repository_fails_branch_creation_with_no_commits() {
    // Reading HEAD of a repository without commits fails with the
    // unborn-branch code; the run must end in the no-commits class.
    let err = classify_branch_failure(GitErrorCode::UnbornBranch, "HEAD unborn".to_string());
    assert!(matches!(err, PipelineError::NoCommits));
    let stage = advance(Stage::BranchAndRewrite, StepOutcome::FailedWith(err));
    assert!(matches!(stage, Stage::Failed(PipelineError::NoCommits)));
}

#[test]
fn existing_branch_is_reported_as_such() {
    let err = classify_branch_failure(GitErrorCode::Exists, "ref exists".to_string());
    assert!(matches!(err, PipelineError::BranchExists));
}

#[test]
fn diverged_remote_fails_push_without_retry() {
    let err = classify_push_failure(
        GitErrorCode::NonFastForward,
        "cannot fast-forward".to_string(),
    );
    match &err {
        PipelineError::PushRejected(m) => assert_eq!(m, "cannot fast-forward"),
        _ => panic!("expected a rejected push"),
    }
    // The failure ends the run at once: no second attempt at the push.
    let stage = advance(Stage::Push, StepOutcome::FailedWith(err));
    assert!(matches!(stage, Stage::Failed(PipelineError::PushRejected(_))));
    let stage = advance(stage, StepOutcome::Succeeded);
    assert!(matches!(stage, Stage::Failed(PipelineError::PushRejected(_))));
}

#[test]
fn rejected_credentials_fail_push_as_auth_failure() {
    let err = classify_push_failure(GitErrorCode::Auth, "bad token".to_string());
    assert!(matches!(err, PipelineError::AuthFailed(_)));
    let err = classify_push_failure(GitErrorCode::Certificate, "bad cert".to_string());
    assert!(matches!(err, PipelineError::AuthFailed(_)));
}

#[test]
fn unnamed_codes_collapse_to_the_generic_class() {
    let err = classify_push_failure(GitErrorCode::Other, "locked".to_string());
    assert!(matches!(err, PipelineError::GitFailed(_)));
    let err = classify_branch_failure(GitErrorCode::Other, "locked".to_string());
    assert!(matches!(err, PipelineError::GitFailed(_)));
}

#[test]
fn file_failures_follow_the_chosen_policy() {
    let e = PipelineError::FileIoFailed("permission denied".to_string());
    assert!(resolve_file_failure(ErrorPolicy::ContinueOnError, e.clone()).is_none());
    let aborted = resolve_file_failure(ErrorPolicy::AbortOnError, e);
    assert!(matches!(aborted, Some(PipelineError::FileIoFailed(_))));
}

#[test]
fn failure_descriptions_carry_the_detail() {
    let e = PipelineError::PushRejected("remote said no".to_string());
    assert_eq!(e.describe(), "push rejected: remote said no");
    assert_eq!(PipelineError::NoCommits.describe(), "repository has no commits");
    assert_eq!(
        PipelineError::BranchExists.describe(),
        "branch already exists"
    );
    assert_eq!(
        PipelineError::IdentityMissing.describe(),
        "author identity is not configured"
    );
}

#[test]
fn every_failure_class_has_a_description() {
    assert_eq!(
        PipelineError::CloneFailed("timed out".to_string()).describe(),
        "clone failed: timed out"
    );
    assert_eq!(
        PipelineError::CommitFailed("bad tree".to_string()).describe(),
        "commit failed: bad tree"
    );
    assert_eq!(
        PipelineError::AuthFailed("bad token".to_string()).describe(),
        "authentication failed: bad token"
    );
    assert_eq!(
        PipelineError::FileIoFailed("permission denied".to_string()).describe(),
        "file rewrite failed: permission denied"
    );
    assert_eq!(
        PipelineError::NetworkFailed("no route".to_string()).describe(),
        "network failure: no route"
    );
    assert_eq!(
        PipelineError::GitFailed("index locked".to_string()).describe(),
        "git operation failed: index locked"
    );
}
