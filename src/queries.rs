//! The values that the two queries, pull requests of a repository and members
//! of a team, hand back, and the arguments that they take.
use vstd::prelude::*;
use crate::time::DateTime;

verus! {

/// Arguments of one page request for the merged pull requests of a repository.
#[derive(Debug)]
pub struct PRsArguments {
    pub repo_name: String,
    pub repo_owner: String,
    /// Where the page starts: `None` for the first page, else the end cursor
    /// that the previous page reported.
    pub pr_cursor: Option<String>,
    pub page_size: i32,
}

impl PRsArguments {
    /// A copy with equal fields.
    pub fn duplicate(&self) -> (r: PRsArguments)
        ensures
            r == *self,
    {
        let pr_cursor = match &self.pr_cursor {
            Some(c) => Some(c.clone()),
            None => None,
        };
        PRsArguments {
            repo_name: self.repo_name.clone(),
            repo_owner: self.repo_owner.clone(),
            pr_cursor,
            page_size: self.page_size,
        }
    }
}

/// Result of the pull-request query.
#[derive(Debug)]
pub struct PRs {
    pub repository: Option<Repository>,
}

#[derive(Debug)]
pub struct Repository {
    pub pull_requests: PullRequestConnection,
}

/// One page of merged pull requests.
#[derive(Debug)]
pub struct PullRequestConnection {
    pub total_count: i32,
    pub page_info: PageInfo,
    pub nodes: Vec<PullRequest>,
}

#[derive(Debug)]
pub struct PullRequest {
    pub commits: PullRequestCommitConnection,
    pub merge_commit: Option<Commit>,
    pub author: Option<Actor>,
}

/// Who opened a pull request: a user with a login, or another kind of actor.
#[derive(Debug)]
pub enum Actor {
    User(User),
    Other,
}

impl Actor {
    /// The login of a user; `None` for any other actor.
    pub fn login(&self) -> (r: Option<&str>)
        ensures
            match self {
                Actor::User(u) => r matches Some(l) && l@ == u.login@,
                Actor::Other => r is None,
            },
    {
        match self {
            Actor::User(user) => Some(user.login.as_str()),
            _ => None,
        }
    }
}

#[derive(Debug)]
pub struct PullRequestCommitConnection {
    pub nodes: Vec<PullRequestCommit>,
}

#[derive(Debug)]
pub struct PullRequestCommit {
    pub commit: Commit2,
}

/// Continuation state of a page.
#[derive(Debug)]
pub struct PageInfo {
    pub end_cursor: Option<String>,
    pub has_next_page: bool,
}

/// The merge commit of a pull request, with its check suites.
#[derive(Debug)]
pub struct Commit {
    pub message_headline: String,
    pub authored_date: DateTime,
    pub check_suites: Option<CheckSuiteConnection>,
}

/// A commit of a pull request.
#[derive(Debug)]
pub struct Commit2 {
    pub message_headline: String,
    pub authored_date: DateTime,
}

#[derive(Debug)]
pub struct CheckSuiteConnection {
    pub nodes: Vec<CheckSuite>,
}

/// Summary of one CI run on a commit.
#[derive(Debug)]
pub struct CheckSuite {
    pub status: CheckStatusState,
    pub conclusion: Option<CheckConclusionState>,
    pub updated_at: DateTime,
}

#[derive(Clone, Copy, Debug, PartialEq, Eq, Structural)]
pub enum CheckConclusionState {
    ActionRequired,
    Cancelled,
    Failure,
    Neutral,
    Skipped,
    Stale,
    Success,
    TimedOut,
}

#[derive(Clone, Copy, Debug, PartialEq, Eq, Structural)]
pub enum CheckStatusState {
    Completed,
    InProgress,
    Queued,
    Requested,
}

#[derive(Clone, Copy, Debug, PartialEq, Eq, Structural)]
pub enum PullRequestState {
    Closed,
    Merged,
    Open,
}

/// Arguments of the team-members query.
#[derive(Debug)]
pub struct TeamMembersArguments {
    pub org: String,
    pub team: String,
}

/// Result of the team-members query.
#[derive(Debug)]
pub struct TeamMembers {
    pub organization: Option<Organization>,
}

#[derive(Debug)]
pub struct Organization {
    pub team: Option<Team>,
}

#[derive(Debug)]
pub struct Team {
    pub members: TeamMemberConnection,
}

#[derive(Debug)]
pub struct TeamMemberConnection {
    pub nodes: Vec<User>,
}

#[derive(Debug)]
pub struct User {
    pub login: String,
}

/// A calendar date as the API writes it.
#[derive(Debug)]
pub struct Date(pub String);

/// A Git object id in hexadecimal.
#[derive(Debug)]
pub struct GitObjectID(pub String);

/// A fully qualified Git reference name.
#[derive(Debug)]
pub struct GitRefname(pub String);

/// A Git remote reachable over SSH.
#[derive(Debug)]
pub struct GitSSHRemote(pub String);

/// A timestamp as Git records it.
#[derive(Debug)]
pub struct GitTimestamp(pub String);

/// A fragment of HTML.
#[derive(Debug)]
pub struct Html(pub String);

/// A timestamp with sub-second precision, as written by the API.
#[derive(Debug)]
pub struct PreciseDateTime(pub String);

/// A URI.
#[derive(Debug)]
pub struct Uri(pub String);

/// A PEM-encoded certificate.
#[derive(Debug)]
pub struct X509Certificate(pub String);

} // verus!
