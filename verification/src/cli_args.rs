//! The parsed command line of `gb`: what each command and subcommand carries.
use vstd::prelude::*;

verus! {

/// The whole command line.
pub struct Cli {
    pub command: Commands,
    /// GitBucket host or base URL.
    pub hostname: Option<String>,
    /// Target repository in OWNER/REPO format.
    pub repo: Option<String>,
}

/// The top-level commands.
pub enum Commands {
    Api(ApiArgs),
    Auth(AuthArgs),
    Repo(RepoArgs),
    Config(ConfigArgs),
    Completion(CompletionArgs),
    Issue(IssueArgs),
    Label(LabelArgs),
    Milestone(MilestoneArgs),
    Pr(PrArgs),
    Browse,
}

/// `gb api`.
pub struct ApiArgs {
    /// API endpoint path relative to /api/v3, or a full URL under the API base.
    pub endpoint: String,
    /// HTTP method.
    pub method: Option<String>,
    /// JSON request body file path, or `-` for standard input.
    pub input: Option<String>,
}

/// `gb auth`.
pub struct AuthArgs {
    pub command: AuthCommand,
}

/// The `gb auth` subcommands.
pub enum AuthCommand {
    Login { hostname: Option<String>, token: Option<String>, protocol: String },
    Logout { hostname: Option<String> },
    Status { json: bool },
    Token { hostname: Option<String> },
}

/// `gb completion`.
pub struct CompletionArgs {
    pub shell: CompletionShell,
}

/// The shells completions can be generated for.
#[derive(Clone, Copy, PartialEq, Eq, Structural, Debug)]
pub enum CompletionShell {
    Bash,
    Zsh,
    Fish,
    PowerShell,
}

/// `gb config`.
pub struct ConfigArgs {
    pub command: ConfigCommand,
}

/// The `gb config` subcommands.
pub enum ConfigCommand {
    Path,
    List { json: bool },
    Get { key: ConfigGetKey },
    SetValue { key: ConfigSetKey },
    Unset { key: ConfigUnsetKey },
}

/// What `gb config get` reads.
pub enum ConfigGetKey {
    DefaultHost,
    DefaultProfile,
    Host { host: String, field: Option<HostField>, json: bool },
    Profile { name: String, json: bool },
}

/// What `gb config set` updates.
pub enum ConfigSetKey {
    DefaultHost { hostname: String },
    DefaultProfile { name: String },
    Host { host: String, user: Option<String>, protocol: Option<String>, default: bool },
    Profile { name: String, default_host: Option<String>, default_repo: Option<String> },
}

/// Which field of a saved host `gb config get host` prints.
#[derive(Clone, Copy, PartialEq, Eq, Structural, Debug)]
pub enum HostField {
    User,
    Protocol,
    HasToken,
}

/// What `gb config unset` clears.
pub enum ConfigUnsetKey {
    DefaultHost,
    DefaultProfile,
}

/// `gb issue`.
pub struct IssueArgs {
    pub command: IssueCommand,
}

/// The `gb issue` subcommands.
pub enum IssueCommand {
    List { state: String, json: bool, no_pager: bool },
    View { number: u64, comments: bool, web: bool, json: bool, no_pager: bool },
    Create { title: Option<String>, body: Option<String>, label: Vec<String>, assignee: Vec<String> },
    Edit {
        number: u64,
        title: Option<String>,
        body: Option<String>,
        add_label: Vec<String>,
        remove_label: Vec<String>,
        add_assignee: Vec<String>,
        remove_assignee: Vec<String>,
        milestone: Option<u64>,
        remove_milestone: bool,
        state: Option<String>,
    },
    Close { number: u64 },
    Reopen { number: u64 },
    Comment { number: u64, body: Option<String>, edit_last: bool },
}

/// `gb label`.
pub struct LabelArgs {
    pub command: LabelCommand,
}

/// The `gb label` subcommands.
pub enum LabelCommand {
    List { json: bool },
    View { name: String },
    Create { name: Option<String>, color: Option<String>, description: Option<String> },
    Edit {
        name: String,
        new_name: Option<String>,
        color: Option<String>,
        description: Option<String>,
        remove_description: bool,
    },
    Delete { name: String, yes: bool },
}

/// `gb milestone`.
pub struct MilestoneArgs {
    pub command: MilestoneCommand,
}

/// The `gb milestone` subcommands.
pub enum MilestoneCommand {
    List { state: String, json: bool },
    View { number: u64 },
    Create { title: Option<String>, description: Option<String>, due_on: Option<String> },
    Edit {
        number: u64,
        title: Option<String>,
        description: Option<String>,
        due_on: Option<String>,
        state: Option<String>,
    },
    Delete { number: u64, yes: bool },
}

/// `gb pr`.
pub struct PrArgs {
    pub command: PrCommand,
}

/// The `gb pr` subcommands.
pub enum PrCommand {
    List { state: String, json: bool },
    View { number: u64, comments: bool, web: bool, json: bool },
    Create {
        title: Option<String>,
        body: Option<String>,
        head: Option<String>,
        head_owner: Option<String>,
        base: Option<String>,
        json: bool,
        detect_existing: bool,
    },
    Edit {
        number: u64,
        title: Option<String>,
        body: Option<String>,
        add_assignee: Vec<String>,
        remove_assignee: Vec<String>,
        state: Option<String>,
        web: bool,
    },
    Close { number: u64 },
    Merge { number: u64, message: Option<String> },
    Checkout { number: u64 },
    Diff { number: u64, no_pager: bool },
    Comment(PrCommentArgs),
}

/// `gb pr comment`: add or edit a comment, or list them.
pub struct PrCommentArgs {
    pub command: Option<PrCommentCommand>,
    pub number: Option<u64>,
    pub body: Option<String>,
    pub edit_last: bool,
    pub json: bool,
}

/// The `gb pr comment` subcommands.
pub enum PrCommentCommand {
    List { number: u64, json: bool },
}

/// `gb repo`.
pub struct RepoArgs {
    pub command: RepoCommand,
}

/// The `gb repo` subcommands.
pub enum RepoCommand {
    List { owner: Option<String>, json: bool },
    View { target_repo: Option<String>, repo: Option<String>, web: bool },
    Create {
        name: Option<String>,
        description: Option<String>,
        private: bool,
        add_readme: bool,
        group: Option<String>,
    },
    Clone { repo: String, directory: Option<String> },
    Delete { target_repo: Option<String>, yes: bool, repo: Option<String> },
    Fork { target_repo: Option<String>, repo: Option<String>, group: Option<String> },
}

} // verus!
