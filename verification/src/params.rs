//! Run parameters: the immutable configuration of one run, resolved once at
//! startup, and the derived strings (clone URL, destination path, push
//! refspec) that the pipeline uses.

use crate::errors::PipelineError;
use vstd::prelude::*;
use vstd::string::StringExecFns;

verus! {

/// Everything one run needs, resolved once at startup and immutable
/// afterwards.
pub struct RunParameters {
    /// The repository's short name inside the organization.
    pub repo: String,
    /// The branch the run creates and pushes.
    pub branch: String,
    /// The message of the one commit the run writes.
    pub commit_message: String,
    /// The search pattern applied to every candidate file.
    pub search_pattern: String,
    /// The text that replaces each match.
    pub replace_with: String,
    /// The personal-access token used for clone, push and the pull request.
    pub token: String,
    /// The account name the token belongs to.
    pub username: String,
    /// The author email for the commit.
    pub email: String,
}

/// The author and committer identity of the one commit the run writes.
pub struct AuthorIdentity {
    /// The author's name.
    pub name: String,
    /// The author's email address.
    pub email: String,
}

/// Resolves the run's configuration from the values the surrounding process
/// found (command-line flags and the environment). The run starts only when
/// every required value is present; one absent value fails the whole run.
pub fn resolve_parameters(
    repo: Option<String>,
    branch: Option<String>,
    commit_message: Option<String>,
    search_pattern: Option<String>,
    replace_with: Option<String>,
    token: Option<String>,
    username: Option<String>,
    email: Option<String>,
) -> (r: Option<RunParameters>)
    ensures
        r is Some <==> (repo is Some && branch is Some && commit_message is Some
            && search_pattern is Some && replace_with is Some && token is Some
            && username is Some && email is Some),
        r matches Some(p) ==> p.repo == repo.unwrap() && p.branch == branch.unwrap()
            && p.commit_message == commit_message.unwrap() && p.search_pattern
            == search_pattern.unwrap() && p.replace_with == replace_with.unwrap() && p.token
            == token.unwrap() && p.username == username.unwrap() && p.email == email.unwrap(),
{
    match (repo, branch, commit_message, search_pattern, replace_with, token, username, email) {
        (
            Option::Some(repo),
            Option::Some(branch),
            Option::Some(commit_message),
            Option::Some(search_pattern),
            Option::Some(replace_with),
            Option::Some(token),
            Option::Some(username),
            Option::Some(email),
        ) => Option::Some(
            RunParameters {
                repo,
                branch,
                commit_message,
                search_pattern,
                replace_with,
                token,
                username,
                email,
            },
        ),
        _ => Option::None,
    }
}

/// The commit identity for the run: present exactly when both the account
/// name and the email were configured; anything less is the
/// identity-missing failure.
pub fn resolve_identity(name: Option<String>, email: Option<String>) -> (r: Result<
    AuthorIdentity,
    PipelineError,
>)
    ensures
        r is Ok <==> (name is Some && email is Some),
        r matches Ok(id) ==> id.name == name.unwrap() && id.email == email.unwrap(),
        r is Err ==> r == Result::<AuthorIdentity, PipelineError>::Err(
            PipelineError::IdentityMissing,
        ),
{
    match (name, email) {
        (Option::Some(name), Option::Some(email)) => Result::Ok(AuthorIdentity { name, email }),
        _ => Result::Err(PipelineError::IdentityMissing),
    }
}

/// The account name offered to the remote: the name the remote's URL
/// carries where it carries one, else the configured fallback.
pub fn resolve_username(from_url: Option<String>, fallback: &str) -> (r: String)
    ensures
        from_url matches Some(u) ==> r == u,
        from_url is None ==> r@ == fallback@,
{
    match from_url {
        Option::Some(u) => u,
        Option::None => fallback.to_owned(),
    }
}

/// The clone URL of a repository of the organization.
pub fn repo_url(repo: &str) -> (r: String)
    ensures
        r@ == "https://github.com/republik-io/"@ + repo@ + ".git"@,
{
    let mut s = String::from_str("https://github.com/republik-io/");
    s.append(repo);
    s.append(".git");
    s
}

/// The local path the repository is cloned into, relative to the
/// invocation directory.
pub fn clone_destination(repo: &str) -> (r: String)
    ensures
        r@ == "../repos/"@ + repo@,
{
    let mut s = String::from_str("../repos/");
    s.append(repo);
    s
}

/// The refspec pushed to the remote: `refs/heads/<branch>:refs/heads/<branch>`.
/// It never begins with `+`, so the push is never a force-push.
pub fn push_refspec(branch: &str) -> (r: String)
    ensures
        r@ == "refs/heads/"@ + branch@ + ":refs/heads/"@ + branch@,
        r@.len() > 0 && r@[0] != '+',
{
    proof {
        reveal_strlit("refs/heads/");
        reveal_strlit(":refs/heads/");
    }
    let mut s = String::from_str("refs/heads/");
    s.append(branch);
    s.append(":refs/heads/");
    s.append(branch);
    s
}

} // verus!
