//! Local git plumbing for pull requests: where to fetch from, the refs used,
//! and how failures of the git commands are reported.
use vstd::prelude::*;

use crate::api_url::{is_absolute, is_absolute_http};
use crate::common::{
    normalize_str_vec, parse_git_url, parse_owner_repo, spec_normalize_str_vec, spec_parse_git_url,
    spec_parse_owner_repo, strs,
};
use crate::error::{opt_view, other, str_result, Failure, GbError};
use crate::models::{PullRequest, Repository};
use crate::pull_request::holds_view;
use crate::text::{
    chars_of, decimal, decimal_of, eq, first_lines, first_three_lines, push_all, push_str,
    split_on, split_pieces, string_of, trim, trimmed,
};
use crate::weburl::{add_url_credentials, url_set_credentials, url_size_ok};

verus! {

// ---------------------------------------------------------------------------
// Fetch sources
// ---------------------------------------------------------------------------

/// The stored user name and token of a host, when the host has credentials.
pub open spec fn creds_view(stored: Option<(String, String)>) -> Option<(Seq<char>, Seq<char>)> {
    match stored {
        Some((u, t)) => Some((u@, t@)),
        None => None,
    }
}

/// Credentials short enough to embed in a URL of length `n`.
pub open spec fn creds_fit(n: nat, stored: Option<(Seq<char>, Seq<char>)>) -> bool {
    match stored {
        Some((u, t)) => url_size_ok(n + u.len() + t.len()),
        None => true,
    }
}

/// An HTTP(S) remote URL with the stored user and token embedded, when there are
/// stored credentials with a user name.
pub open spec fn spec_credentialed_git_http_url(url: Seq<char>, stored: Option<(Seq<char>, Seq<char>)>) -> Option<
    Seq<char>,
> {
    if !is_absolute_http(url) {
        None
    } else {
        match stored {
            None => None,
            Some((user, token)) => if user.len() == 0 {
                None
            } else {
                url_set_credentials(url, user, token)
            },
        }
    }
}

/// An HTTP(S) remote URL with the host's stored user and token embedded.
pub fn credentialed_git_http_url(url: &str, stored: &Option<(String, String)>) -> (r: Option<String>)
    requires
        creds_fit(url@.len(), creds_view(*stored)),
    ensures
        opt_view(r) == spec_credentialed_git_http_url(url@, creds_view(*stored)),
{
    let u = chars_of(url);
    if !is_absolute(&u) {
        return None;
    }
    match stored {
        None => None,
        Some((user, token)) => {
            if chars_of(user.as_str()).len() == 0 {
                None
            } else {
                add_url_credentials(url, user.as_str(), token.as_str())
            }
        },
    }
}

/// The source that `git fetch` is given and the one shown to the user.
pub struct GitFetchSource {
    pub command_source: String,
    pub display_source: String,
}

/// The (command, display) sources for fetching from `source`: an HTTP(S) URL
/// gets credentials embedded; a remote name whose URL can carry credentials is
/// replaced by that credentialed URL; anything else is used as it is.
pub open spec fn spec_resolve_git_fetch_source(
    source: Seq<char>,
    remote_url: Option<Seq<char>>,
    stored: Option<(Seq<char>, Seq<char>)>,
) -> (Seq<char>, Seq<char>) {
    if is_absolute_http(source) {
        match spec_credentialed_git_http_url(source, stored) {
            Some(c) => (c, source),
            None => (source, source),
        }
    } else {
        match remote_url {
            Some(ru) => match spec_credentialed_git_http_url(ru, stored) {
                Some(c) => (c, source),
                None => (source, source),
            },
            None => (source, source),
        }
    }
}

/// Where `git fetch` takes `source` from; `remote_url` is the configured URL of
/// the remote named `source`, if any.
pub fn resolve_git_fetch_source(
    source: &str,
    remote_url: Option<String>,
    stored: &Option<(String, String)>,
) -> (r: GitFetchSource)
    requires
        creds_fit(source@.len(), creds_view(*stored)),
        remote_url matches Some(ru) ==> creds_fit(ru@.len(), creds_view(*stored)),
    ensures
        (r.command_source@, r.display_source@) == spec_resolve_git_fetch_source(
            source@,
            opt_view(remote_url),
            creds_view(*stored),
        ),
{
    let s = chars_of(source);
    let display = string_of(&s);
    if is_absolute(&s) {
        let command_source = match credentialed_git_http_url(source, stored) {
            Some(c) => c,
            None => string_of(&s),
        };
        return GitFetchSource { command_source, display_source: display };
    }
    if let Some(ru) = &remote_url {
        if let Some(c) = credentialed_git_http_url(ru.as_str(), stored) {
            return GitFetchSource { command_source: c, display_source: display };
        }
    }
    GitFetchSource { command_source: string_of(&s), display_source: display }
}

/// The remote URL points at `repo`: it is the reported clone URL, or it names
/// the same owner and repository.
pub open spec fn spec_remote_matches(repo: Repository, url: Seq<char>) -> bool {
    ||| holds_view(repo.clone_url, url)
    ||| match (spec_parse_owner_repo(repo.full_name@), spec_parse_git_url(url)) {
        (Ok(expected), Ok(found)) => expected == found,
        _ => false,
    }
}

/// The views of (remote name, remote URL) pairs.
pub open spec fn remotes_view(remotes: Seq<(String, Option<String>)>) -> Seq<(Seq<char>, Option<Seq<char>>)> {
    remotes.map_values(|p: (String, Option<String>)| (p.0@, opt_view(p.1)))
}

/// The first remote whose URL points at `repo`.
pub open spec fn spec_matching_remote_name(repo: Repository, remotes: Seq<(Seq<char>, Option<Seq<char>>)>) -> Option<
    Seq<char>,
>
    decreases remotes.len(),
{
    if remotes.len() == 0 {
        None
    } else {
        match remotes[0].1 {
            Some(url) if spec_remote_matches(repo, url) => Some(remotes[0].0),
            _ => spec_matching_remote_name(repo, remotes.drop_first()),
        }
    }
}

/// Whether the remote URL points at `repo`.
fn remote_matches(repo: &Repository, url: &String) -> (r: bool)
    ensures
        r == spec_remote_matches(*repo, url@),
{
    if let Some(c) = &repo.clone_url {
        if eq(&chars_of(c.as_str()), &chars_of(url.as_str())) {
            return true;
        }
    }
    match (parse_owner_repo(repo.full_name.as_str()), parse_git_url(url.as_str())) {
        (Ok((eo, er)), Ok((o, r))) => {
            eq(&chars_of(o.as_str()), &chars_of(eo.as_str())) && eq(
                &chars_of(r.as_str()),
                &chars_of(er.as_str()),
            )
        },
        _ => false,
    }
}

/// The first git remote (name, URL) whose URL points at `repo`.
pub fn matching_remote_name(repo: &Repository, remotes: &Vec<(String, Option<String>)>) -> (r: Option<
    String,
>)
    ensures
        opt_view(r) == spec_matching_remote_name(*repo, remotes_view(remotes@)),
{
    let ghost all = remotes_view(remotes@);
    assert(all.skip(0) =~= all);
    let mut i: usize = 0;
    while i < remotes.len()
        invariant
            i <= remotes@.len(),
            all == remotes_view(remotes@),
            spec_matching_remote_name(*repo, all) == spec_matching_remote_name(
                *repo,
                all.skip(i as int),
            ),
        decreases remotes.len() - i,
    {
        assert(all.skip(i as int)[0] == all[i as int]);
        assert(all.skip(i as int).drop_first() =~= all.skip(i + 1));
        if let Some(url) = &remotes[i].1 {
            if remote_matches(repo, url) {
                return Some(string_of(&chars_of(remotes[i].0.as_str())));
            }
        }
        i += 1;
    }
    assert(all.skip(remotes@.len() as int).len() == 0);
    None
}

/// Where to fetch a pull request's branch from: a matching local remote, else
/// the repository's clone URL, else `origin`.
pub open spec fn spec_pr_repo_fetch_source(repo: Option<Repository>, remotes: Seq<(Seq<char>, Option<Seq<char>>)>) -> Seq<
    char,
> {
    match repo {
        Some(r) => match spec_matching_remote_name(r, remotes) {
            Some(n) => n,
            None => match r.clone_url {
                Some(c) => c@,
                None => "origin"@,
            },
        },
        None => "origin"@,
    }
}

/// Where to fetch a branch of the given repository from.
pub fn pr_repo_fetch_source(repo: &Option<Repository>, remotes: &Vec<(String, Option<String>)>) -> (r:
    String)
    ensures
        r@ == spec_pr_repo_fetch_source(*repo, remotes_view(remotes@)),
{
    match repo {
        Some(rp) => match matching_remote_name(rp, remotes) {
            Some(n) => n,
            None => match &rp.clone_url {
                Some(c) => string_of(&chars_of(c.as_str())),
                None => string_of(&chars_of("origin")),
            },
        },
        None => string_of(&chars_of("origin")),
    }
}

/// The repository of a pull request's head.
pub open spec fn head_repo(pr: PullRequest) -> Option<Repository> {
    match pr.head {
        Some(h) => h.repo,
        None => None,
    }
}

/// The repository of a pull request's base.
pub open spec fn base_repo(pr: PullRequest) -> Option<Repository> {
    match pr.base {
        Some(b) => b.repo,
        None => None,
    }
}

/// Where to fetch a pull request's head branch from.
pub fn pr_head_fetch_source(pr: &PullRequest, remotes: &Vec<(String, Option<String>)>) -> (r: String)
    ensures
        r@ == spec_pr_repo_fetch_source(head_repo(*pr), remotes_view(remotes@)),
{
    match &pr.head {
        Some(h) => pr_repo_fetch_source(&h.repo, remotes),
        None => pr_repo_fetch_source(&None, remotes),
    }
}

/// Where to fetch a pull request's base branch from.
pub fn pr_base_fetch_source(pr: &PullRequest, remotes: &Vec<(String, Option<String>)>) -> (r: String)
    ensures
        r@ == spec_pr_repo_fetch_source(base_repo(*pr), remotes_view(remotes@)),
{
    match &pr.base {
        Some(b) => pr_repo_fetch_source(&b.repo, remotes),
        None => pr_repo_fetch_source(&None, remotes),
    }
}

// ---------------------------------------------------------------------------
// Refs and command output
// ---------------------------------------------------------------------------

/// The local ref that holds side `side` (`head` or `base`) of pull request `number`.
pub open spec fn spec_pr_local_ref(number: u64, side: Seq<char>) -> Seq<char> {
    "refs/gb/pr/"@ + decimal(number as nat) + "/"@ + side
}

/// The local ref for one side of a pull request.
pub fn pr_local_ref(number: u64, side: &str) -> (r: String)
    ensures
        r@ == spec_pr_local_ref(number, side@),
{
    let mut out = chars_of("refs/gb/pr/");
    push_all(&mut out, &decimal_of(number));
    push_str(&mut out, "/");
    push_str(&mut out, side);
    string_of(&out)
}

/// The refspec that fetches `branch` into the local ref for one side of a pull request.
pub fn pr_fetch_refspec(branch: &str, number: u64, side: &str) -> (r: String)
    ensures
        r@ == branch@ + ":"@ + spec_pr_local_ref(number, side@),
{
    let mut out = chars_of(branch);
    push_str(&mut out, ":");
    let local = pr_local_ref(number, side);
    push_str(&mut out, local.as_str());
    string_of(&out)
}

/// A summary of a failed git command's standard error: its first three lines.
pub open spec fn spec_command_stderr(stderr: Seq<char>) -> Seq<char> {
    let t = trim(stderr);
    if t.len() == 0 {
        "git did not provide stderr details."@
    } else {
        first_three_lines(t)
    }
}

/// A summary of a failed git command's standard error.
pub fn command_stderr(stderr: &str) -> (r: String)
    ensures
        r@ == spec_command_stderr(stderr@),
{
    let t = trimmed(&chars_of(stderr));
    if t.len() == 0 {
        string_of(&chars_of("git did not provide stderr details."))
    } else {
        string_of(&first_lines(&t))
    }
}

/// A summary of a failed command: the first lines of standard error, else of
/// standard output, else a fixed note.
pub open spec fn spec_command_output_summary(stderr: Seq<char>, stdout: Seq<char>) -> Seq<char> {
    if trim(stderr).len() > 0 {
        first_three_lines(trim(stderr))
    } else if trim(stdout).len() > 0 {
        first_three_lines(trim(stdout))
    } else {
        "command did not provide output details."@
    }
}

/// A summary of a failed command's output.
pub fn command_output_summary(stderr: &str, stdout: &str) -> (r: String)
    ensures
        r@ == spec_command_output_summary(stderr@, stdout@),
{
    let e = trimmed(&chars_of(stderr));
    if e.len() > 0 {
        return string_of(&first_lines(&e));
    }
    let o = trimmed(&chars_of(stdout));
    if o.len() > 0 {
        return string_of(&first_lines(&o));
    }
    string_of(&chars_of("command did not provide output details."))
}

// ---------------------------------------------------------------------------
// Live diffs
// ---------------------------------------------------------------------------

/// Why a live diff of a pull request's branches could not be produced.
pub struct DiffFailure {
    pub cause: String,
    pub message: String,
}

/// The abstract value of a diff failure.
pub open spec fn failure_view(f: DiffFailure) -> (Seq<char>, Seq<char>) {
    (f.cause@, f.message@)
}

fn diff_failure(cause: &str, message: Vec<char>) -> (f: DiffFailure)
    ensures
        failure_view(f) == (cause@, message@),
{
    DiffFailure { cause: string_of(&chars_of(cause)), message: string_of(&message) }
}

/// The head and base branch names of a pull request, or which one is missing.
pub open spec fn spec_pr_diff_branches(pr: PullRequest) -> Result<(Seq<char>, Seq<char>), (Seq<char>, Seq<char>)> {
    match pr.head {
        None => Err(("missing_head_ref"@, "API response does not include a head ref."@)),
        Some(h) => match pr.base {
            None => Err(("missing_base_ref"@, "API response does not include a base ref."@)),
            Some(b) => Ok((h.ref_name@, b.ref_name@)),
        },
    }
}

/// The head and base branch names of a pull request.
pub fn pr_diff_branches(pr: &PullRequest) -> (r: Result<(String, String), DiffFailure>)
    ensures
        match r {
            Ok((h, b)) => spec_pr_diff_branches(*pr) == Ok::<(Seq<char>, Seq<char>), (Seq<char>, Seq<char>)>((h@, b@)),
            Err(f) => spec_pr_diff_branches(*pr) == Err::<(Seq<char>, Seq<char>), (Seq<char>, Seq<char>)>(failure_view(f)),
        },
{
    let h = match &pr.head {
        None => return Err(
            diff_failure("missing_head_ref", chars_of("API response does not include a head ref.")),
        ),
        Some(h) => h,
    };
    let b = match &pr.base {
        None => return Err(
            diff_failure("missing_base_ref", chars_of("API response does not include a base ref.")),
        ),
        Some(b) => b,
    };
    Ok((string_of(&chars_of(h.ref_name.as_str())), string_of(&chars_of(b.ref_name.as_str()))))
}

/// The failure reported when `git fetch` of one side could not run.
pub open spec fn spec_fetch_spawn_failure(is_base: bool, branch: Seq<char>, error: Seq<char>) -> (Seq<char>, Seq<char>) {
    if is_base {
        ("base_fetch_failed"@, "failed to run git fetch for base branch '"@ + branch + "': "@ + error)
    } else {
        ("head_fetch_failed"@, "failed to run git fetch for head branch '"@ + branch + "': "@ + error)
    }
}

/// The failure reported when `git fetch` of one side could not run.
pub fn fetch_spawn_failure(is_base: bool, branch: &str, error: &str) -> (f: DiffFailure)
    ensures
        failure_view(f) == spec_fetch_spawn_failure(is_base, branch@, error@),
{
    let mut msg = if is_base {
        chars_of("failed to run git fetch for base branch '")
    } else {
        chars_of("failed to run git fetch for head branch '")
    };
    push_str(&mut msg, branch);
    push_str(&mut msg, "': ");
    push_str(&mut msg, error);
    if is_base {
        diff_failure("base_fetch_failed", msg)
    } else {
        diff_failure("head_fetch_failed", msg)
    }
}

/// The failure reported when `git fetch` of one side exited unsuccessfully.
pub open spec fn spec_fetch_failure(is_base: bool, branch: Seq<char>, display_source: Seq<char>, stderr: Seq<char>) -> (
    Seq<char>,
    Seq<char>,
) {
    if is_base {
        (
            "base_fetch_failed"@,
            "base branch '"@ + branch + "' could not be fetched from "@ + display_source + ". "@
                + spec_command_stderr(stderr),
        )
    } else {
        (
            "head_fetch_failed"@,
            "head branch '"@ + branch + "' could not be fetched from "@ + display_source
                + "; it may have been deleted or the fork may be inaccessible. "@
                + spec_command_stderr(stderr),
        )
    }
}

/// The failure reported when `git fetch` of one side exited unsuccessfully.
pub fn fetch_failure(is_base: bool, branch: &str, display_source: &str, stderr: &str) -> (f:
    DiffFailure)
    ensures
        failure_view(f) == spec_fetch_failure(is_base, branch@, display_source@, stderr@),
{
    let summary = command_stderr(stderr);
    if is_base {
        let mut msg = chars_of("base branch '");
        push_str(&mut msg, branch);
        push_str(&mut msg, "' could not be fetched from ");
        push_str(&mut msg, display_source);
        push_str(&mut msg, ". ");
        push_str(&mut msg, summary.as_str());
        diff_failure("base_fetch_failed", msg)
    } else {
        let mut msg = chars_of("head branch '");
        push_str(&mut msg, branch);
        push_str(&mut msg, "' could not be fetched from ");
        push_str(&mut msg, display_source);
        push_str(&mut msg, "; it may have been deleted or the fork may be inaccessible. ");
        push_str(&mut msg, summary.as_str());
        diff_failure("head_fetch_failed", msg)
    }
}

/// The failure reported when `git diff` could not run.
pub fn diff_spawn_failure(error: &str) -> (f: DiffFailure)
    ensures
        failure_view(f) == ("git_diff_failed"@, "failed to run git diff: "@ + error@),
{
    let mut msg = chars_of("failed to run git diff: ");
    push_str(&mut msg, error);
    diff_failure("git_diff_failed", msg)
}

/// The failure reported when `git diff` exited unsuccessfully.
pub fn diff_failed(stderr: &str) -> (f: DiffFailure)
    ensures
        failure_view(f) == ("git_diff_failed"@, "git diff failed. "@ + spec_command_stderr(stderr@)),
{
    let mut msg = chars_of("git diff failed. ");
    let summary = command_stderr(stderr);
    push_str(&mut msg, summary.as_str());
    diff_failure("git_diff_failed", msg)
}

/// An empty live diff is only believed for an open pull request.
pub open spec fn spec_check_live_diff(diff_is_empty: bool, state: Seq<char>) -> Option<(Seq<char>, Seq<char>)> {
    if diff_is_empty && state != "open"@ {
        Some(
            (
                "empty_live_diff"@,
                "fetched base and head refs for "@ + state
                    + " PR have no diff; the source branch may have been merged, deleted, or no longer represent the PR changes."@,
            ),
        )
    } else {
        None
    }
}

/// Rejects an empty live diff of a pull request that is no longer open.
pub fn check_live_diff(diff_is_empty: bool, state: &str) -> (r: Option<DiffFailure>)
    ensures
        match r {
            Some(f) => spec_check_live_diff(diff_is_empty, state@) == Some(failure_view(f)),
            None => spec_check_live_diff(diff_is_empty, state@) is None,
        },
{
    if diff_is_empty && !eq(&chars_of(state), &chars_of("open")) {
        let mut msg = chars_of("fetched base and head refs for ");
        push_str(&mut msg, state);
        push_str(
            &mut msg,
            " PR have no diff; the source branch may have been merged, deleted, or no longer represent the PR changes.",
        );
        Some(diff_failure("empty_live_diff", msg))
    } else {
        None
    }
}

// ---------------------------------------------------------------------------
// Checkout
// ---------------------------------------------------------------------------

/// The branch `gb pr checkout` fetches: the head branch, which must be reported.
pub open spec fn spec_checkout_branch(pr: PullRequest) -> Result<Seq<char>, Failure> {
    match pr.head {
        Some(h) => Ok(h.ref_name@),
        None => Err(Failure::Other("PR has no head branch"@)),
    }
}

/// The branch `gb pr checkout` fetches.
pub fn checkout_branch(pr: &PullRequest) -> (r: Result<String, GbError>)
    ensures
        str_result(r) == spec_checkout_branch(*pr),
{
    match &pr.head {
        Some(h) => Ok(string_of(&chars_of(h.ref_name.as_str()))),
        None => Err(other(&chars_of("PR has no head branch"))),
    }
}

/// The local branch a pull request is checked out into: `pr-N`.
pub open spec fn spec_pr_branch_name(number: u64) -> Seq<char> {
    "pr-"@ + decimal(number as nat)
}

/// The local branch a pull request is checked out into.
pub fn pr_branch_name(number: u64) -> (r: String)
    ensures
        r@ == spec_pr_branch_name(number),
{
    let mut out = chars_of("pr-");
    push_all(&mut out, &decimal_of(number));
    string_of(&out)
}

/// The failure of the fetch before a checkout.
pub open spec fn spec_checkout_fetch_error(branch: Seq<char>, display_source: Seq<char>) -> Failure {
    Failure::Other("git fetch failed for '"@ + branch + "' from "@ + display_source)
}

/// The failure of the fetch before a checkout.
pub fn checkout_fetch_error(branch: &str, display_source: &str) -> (e: GbError)
    ensures
        e@ == spec_checkout_fetch_error(branch@, display_source@),
{
    let mut m = chars_of("git fetch failed for '");
    push_str(&mut m, branch);
    push_str(&mut m, "' from ");
    push_str(&mut m, display_source);
    other(&m)
}

/// The failure of `git checkout`, with a summary of its standard error.
pub open spec fn spec_checkout_error(stderr: Seq<char>) -> Failure {
    Failure::Other("git checkout failed. "@ + spec_command_stderr(stderr))
}

/// The failure of `git checkout`.
pub fn checkout_error(stderr: &str) -> (e: GbError)
    ensures
        e@ == spec_checkout_error(stderr@),
{
    let mut m = chars_of("git checkout failed. ");
    push_str(&mut m, command_stderr(stderr).as_str());
    other(&m)
}

/// The confirmation of a checkout.
pub open spec fn spec_checkout_message(local_branch: Seq<char>, number: u64, branch: Seq<char>) -> Seq<char> {
    "\u{2713} Checked out branch '"@ + local_branch + "' for PR #"@ + decimal(number as nat)
        + " (from '"@ + branch + "')"@
}

/// The confirmation of a checkout.
pub fn checkout_message(local_branch: &str, number: u64, branch: &str) -> (r: String)
    ensures
        r@ == spec_checkout_message(local_branch@, number, branch@),
{
    let mut m = chars_of("\u{2713} Checked out branch '");
    push_str(&mut m, local_branch);
    push_str(&mut m, "' for PR #");
    push_all(&mut m, &decimal_of(number));
    push_str(&mut m, " (from '");
    push_str(&mut m, branch);
    push_str(&mut m, "')");
    string_of(&m)
}

/// The error when neither a live nor a saved diff could be produced: the live failure's cause,
/// and both explanations.
pub open spec fn spec_diff_unavailable(number: u64, live: (Seq<char>, Seq<char>), saved_error: Seq<char>) -> Failure {
    Failure::DiffUnavailable(number, live.0, live.1 + " "@ + saved_error)
}

/// The error when neither a live nor a saved diff could be produced.
pub fn diff_unavailable(number: u64, live: DiffFailure, saved_error: &str) -> (e: GbError)
    ensures
        e@ == spec_diff_unavailable(number, failure_view(live), saved_error@),
{
    let mut m = chars_of(live.message.as_str());
    push_str(&mut m, " ");
    push_str(&mut m, saved_error);
    GbError::DiffUnavailable { number, cause: live.cause, message: string_of(&m) }
}

// ---------------------------------------------------------------------------
// Git command output
// ---------------------------------------------------------------------------

/// The remote names `git remote` printed: its lines, trimmed, without blank ones.
pub open spec fn spec_remote_names(stdout: Seq<char>) -> Seq<Seq<char>> {
    spec_normalize_str_vec(split_on(stdout, '\n'))
}

/// The remote names in the output of `git remote`.
pub fn remote_names(stdout: &str) -> (r: Vec<String>)
    ensures
        strs(r@) == spec_remote_names(stdout@),
{
    let pieces = split_pieces(&chars_of(stdout), '\n');
    let mut v: Vec<String> = Vec::new();
    let mut i: usize = 0;
    while i < pieces.len()
        invariant
            i <= pieces@.len(),
            pieces@.map_values(|p: Vec<char>| p@) == split_on(stdout@, '\n'),
            strs(v@) == pieces@.map_values(|p: Vec<char>| p@).take(i as int),
        decreases pieces@.len() - i,
    {
        let ghost before = v@;
        v.push(string_of(&pieces[i]));
        assert(pieces@.map_values(|p: Vec<char>| p@)[i as int] == pieces@[i as int]@);
        assert(strs(v@) =~= strs(before).push(pieces@[i as int]@));
        assert(strs(v@) =~= pieces@.map_values(|p: Vec<char>| p@).take(i + 1));
        i = i + 1;
    }
    assert(pieces@.map_values(|p: Vec<char>| p@).take(pieces@.len() as int) =~= pieces@.map_values(
        |p: Vec<char>| p@,
    ));
    normalize_str_vec(v)
}

/// The trimmed output of a git command, unless it is blank.
pub open spec fn spec_output_value(stdout: Seq<char>) -> Option<Seq<char>> {
    if trim(stdout).len() == 0 {
        None
    } else {
        Some(trim(stdout))
    }
}

/// The trimmed output of a git command (a remote URL, the current branch), unless blank.
pub fn output_value(stdout: &str) -> (r: Option<String>)
    ensures
        opt_view(r) == spec_output_value(stdout@),
{
    let t = trimmed(&chars_of(stdout));
    if t.len() == 0 {
        None
    } else {
        Some(string_of(&t))
    }
}

} // verus!
