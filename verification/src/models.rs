//! The parts of GitBucket API objects that the client's decisions read.
use vstd::prelude::*;

verus! {

/// A repository, as far as fork and remote matching read it.
pub struct Repository {
    /// `OWNER/NAME`.
    pub full_name: String,
    /// The clone URL the API reports, if any.
    pub clone_url: Option<String>,
    /// The browser URL, if any.
    pub html_url: Option<String>,
    /// Whether the repository is a fork.
    pub fork: bool,
    /// `full_name` of the parent repository of a fork.
    pub parent_full_name: Option<String>,
    /// `full_name` of the source repository of a fork.
    pub source_full_name: Option<String>,
    pub description: Option<String>,
    pub is_private: bool,
    pub default_branch: Option<String>,
    pub watchers_count: Option<u64>,
    pub forks_count: Option<u64>,
    pub open_issues_count: Option<u64>,
}

/// One side (head or base) of a pull request.
pub struct PullRequestRef {
    /// The branch name (`ref` in the API).
    pub ref_name: String,
    /// `OWNER:BRANCH`, when reported.
    pub label: Option<String>,
    /// The repository the branch lives in, when reported.
    pub repo: Option<Repository>,
}

/// A pull request, as far as the client's decisions read it.
pub struct PullRequest {
    pub number: u64,
    pub title: String,
    pub state: String,
    /// Whether the pull request was merged, when reported.
    pub merged: Option<bool>,
    pub body: Option<String>,
    /// Login of the author, when reported.
    pub user_login: Option<String>,
    pub created_at: Option<String>,
    pub html_url: Option<String>,
    pub diff_url: Option<String>,
    pub patch_url: Option<String>,
    pub head: Option<PullRequestRef>,
    pub base: Option<PullRequestRef>,
}

/// A milestone reference on an issue.
pub struct MilestoneRef {
    pub title: String,
    pub number: u64,
}

/// An issue, as far as viewing and editing read it.
pub struct Issue {
    pub number: u64,
    pub title: String,
    pub state: String,
    pub body: Option<String>,
    /// Login of the author, when reported.
    pub user_login: Option<String>,
    pub created_at: Option<String>,
    /// Label names, in the order the API lists them.
    pub labels: Vec<String>,
    /// Assignee logins, in the order the API lists them.
    pub assignees: Vec<String>,
    pub milestone: Option<MilestoneRef>,
    pub html_url: Option<String>,
}

/// A milestone, as far as viewing and editing read it.
pub struct Milestone {
    pub number: u64,
    pub title: String,
    pub state: String,
    pub description: Option<String>,
    /// The stored due date, as the API reports it.
    pub due_on: Option<String>,
    pub open_issues: Option<u64>,
    pub closed_issues: Option<u64>,
    pub html_url: Option<String>,
}

/// A comment: its id and the login of its author, when reported.
pub struct Comment {
    pub id: u64,
    pub user_login: Option<String>,
    pub created_at: Option<String>,
    pub body: Option<String>,
}

} // verus!
