//! The error taxonomy of the pipeline, and the classifiers that map a
//! version-control failure code to the class the run reports.
//!
//! The version-control library reports failures as an error code plus a
//! message; the caller converts the code to [`GitErrorCode`], and the
//! classifiers here decide which class of the taxonomy the run fails with.

use vstd::prelude::*;
use vstd::string::StringExecFns;

verus! {

/// The failure codes of the version-control library that the pipeline's
/// decisions read. Every code the decisions do not distinguish maps to
/// `Other`.
#[derive(Clone, Copy, PartialEq, Eq, Structural, Debug)]
pub enum GitErrorCode {
    /// A reference with the requested name already exists.
    Exists,
    /// HEAD points at a branch with no commit yet.
    UnbornBranch,
    /// The requested object or reference was not found.
    NotFound,
    /// The remote rejected the update because it is not a fast-forward.
    NonFastForward,
    /// Authentication was rejected.
    Auth,
    /// The server certificate was rejected.
    Certificate,
    /// Any other failure code.
    Other,
}

/// Everything that can end a run early. Each stage of the pipeline fails
/// with the classes listed for it; failures outside the named classes
/// collapse into the generic `GitFailed`.
#[derive(Clone, Debug)]
pub enum PipelineError {
    /// Cloning the remote repository failed.
    CloneFailed(String),
    /// A branch with the requested name already exists.
    BranchExists,
    /// The repository has no commit for the new branch to point at.
    NoCommits,
    /// Writing the commit failed.
    CommitFailed(String),
    /// The author or committer identity is not configured.
    IdentityMissing,
    /// The remote rejected the push (a non-fast-forward update).
    PushRejected(String),
    /// The remote rejected the credentials.
    AuthFailed(String),
    /// Reading or writing a file during the rewrite failed.
    FileIoFailed(String),
    /// The pull-request endpoint answered with a non-success status;
    /// the response body is kept for diagnostics.
    ApiRejected(u16, String),
    /// The pull-request request could not be sent at all.
    NetworkFailed(String),
    /// A version-control failure outside the named classes.
    GitFailed(String),
}

impl PipelineError {
    /// The diagnostic line printed for this failure. Where the failure
    /// carries detail (a message, a response body), the detail is appended
    /// whole, so nothing the remote said is lost.
    pub fn describe(&self) -> (r: String)
        ensures
            self matches PipelineError::CloneFailed(m) ==> r@ == "clone failed: "@ + m@,
            self is BranchExists ==> r@ == "branch already exists"@,
            self is NoCommits ==> r@ == "repository has no commits"@,
            self matches PipelineError::CommitFailed(m) ==> r@ == "commit failed: "@ + m@,
            self is IdentityMissing ==> r@ == "author identity is not configured"@,
            self matches PipelineError::PushRejected(m) ==> r@ == "push rejected: "@ + m@,
            self matches PipelineError::AuthFailed(m) ==> r@ == "authentication failed: "@
                + m@,
            self matches PipelineError::FileIoFailed(m) ==> r@ == "file rewrite failed: "@
                + m@,
            self matches PipelineError::ApiRejected(_, body) ==> r@
                == "pull request rejected: "@ + body@,
            self matches PipelineError::NetworkFailed(m) ==> r@ == "network failure: "@ + m@,
            self matches PipelineError::GitFailed(m) ==> r@ == "git operation failed: "@ + m@,
    {
        match self {
            PipelineError::CloneFailed(m) => {
                let mut s = String::from_str("clone failed: ");
                s.append(m.as_str());
                s
            },
            PipelineError::BranchExists => String::from_str("branch already exists"),
            PipelineError::NoCommits => String::from_str("repository has no commits"),
            PipelineError::CommitFailed(m) => {
                let mut s = String::from_str("commit failed: ");
                s.append(m.as_str());
                s
            },
            PipelineError::IdentityMissing => String::from_str(
                "author identity is not configured",
            ),
            PipelineError::PushRejected(m) => {
                let mut s = String::from_str("push rejected: ");
                s.append(m.as_str());
                s
            },
            PipelineError::AuthFailed(m) => {
                let mut s = String::from_str("authentication failed: ");
                s.append(m.as_str());
                s
            },
            PipelineError::FileIoFailed(m) => {
                let mut s = String::from_str("file rewrite failed: ");
                s.append(m.as_str());
                s
            },
            PipelineError::ApiRejected(_, body) => {
                let mut s = String::from_str("pull request rejected: ");
                s.append(body.as_str());
                s
            },
            PipelineError::NetworkFailed(m) => {
                let mut s = String::from_str("network failure: ");
                s.append(m.as_str());
                s
            },
            PipelineError::GitFailed(m) => {
                let mut s = String::from_str("git operation failed: ");
                s.append(m.as_str());
                s
            },
        }
    }
}

/// Classifies a failure of the branch-creation step. Reading HEAD of an
/// empty repository fails with `UnbornBranch` (or `NotFound`), which is the
/// no-commits case; creating a ref that already exists fails with `Exists`.
pub fn classify_branch_failure(code: GitErrorCode, message: String) -> (r: PipelineError)
    ensures
        r is BranchExists <==> code is Exists,
        r is NoCommits <==> (code is UnbornBranch || code is NotFound),
        !(code is Exists || code is UnbornBranch || code is NotFound) ==> r
            == PipelineError::GitFailed(message),
{
    match code {
        GitErrorCode::Exists => PipelineError::BranchExists,
        GitErrorCode::UnbornBranch => PipelineError::NoCommits,
        GitErrorCode::NotFound => PipelineError::NoCommits,
        _ => PipelineError::GitFailed(message),
    }
}

/// Classifies a failure of the push step. A non-fast-forward rejection is
/// `PushRejected` and nothing else is: the run never answers such a
/// rejection with a retry or a force-push.
pub fn classify_push_failure(code: GitErrorCode, message: String) -> (r: PipelineError)
    ensures
        r is PushRejected <==> code is NonFastForward,
        r is AuthFailed <==> (code is Auth || code is Certificate),
        code is NonFastForward ==> r == PipelineError::PushRejected(message),
        (code is Auth || code is Certificate) ==> r == PipelineError::AuthFailed(message),
        !(code is NonFastForward || code is Auth || code is Certificate) ==> r
            == PipelineError::GitFailed(message),
{
    match code {
        GitErrorCode::NonFastForward => PipelineError::PushRejected(message),
        GitErrorCode::Auth => PipelineError::AuthFailed(message),
        GitErrorCode::Certificate => PipelineError::AuthFailed(message),
        _ => PipelineError::GitFailed(message),
    }
}

} // verus!
