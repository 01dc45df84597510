//! How the write commands for pull requests and issues choose their inputs and report results.
use vstd::prelude::*;

use crate::error::{opt_view, other, str_result, Failure, GbError};
use crate::models::PullRequest;
use crate::pr_view::{pr_refs_text, spec_pr_refs_text};
use crate::text::{chars_of, decimal, decimal_of, push_all, push_str, string_of};

verus! {

/// The head branch of a new pull request: the one given, else the current branch.
pub open spec fn spec_resolve_head_branch(head: Option<Seq<char>>, current: Option<Seq<char>>) -> Result<
    Seq<char>,
    Failure,
> {
    match head {
        Some(h) => Ok(h),
        None => match current {
            Some(c) => Ok(c),
            None => Err(
                Failure::Other(
                    "Could not determine current branch. Specify --head when running from a detached HEAD state."@,
                ),
            ),
        },
    }
}

/// The head branch of a new pull request; `current` is the checked-out branch, if any.
pub fn resolve_head_branch(head: Option<String>, current: Option<String>) -> (r: Result<
    String,
    GbError,
>)
    ensures
        str_result(r) == spec_resolve_head_branch(opt_view(head), opt_view(current)),
{
    match head {
        Some(h) => Ok(h),
        None => match current {
            Some(c) => Ok(c),
            None => Err(
                other(
                    &chars_of(
                        "Could not determine current branch. Specify --head when running from a detached HEAD state.",
                    ),
                ),
            ),
        },
    }
}

/// An optional body typed at a prompt: nothing when left empty.
pub open spec fn spec_optional_body(typed: Seq<char>) -> Option<Seq<char>> {
    if typed.len() == 0 {
        None
    } else {
        Some(typed)
    }
}

/// An optional body typed at a prompt.
pub fn optional_body(typed: String) -> (r: Option<String>)
    ensures
        opt_view(r) == spec_optional_body(typed@),
{
    if chars_of(typed.as_str()).len() == 0 {
        None
    } else {
        Some(typed)
    }
}

/// What is printed after a pull request is created or found: the verb, number and title,
/// its branches, and its URL.
pub open spec fn spec_pr_result_text(verb: Seq<char>, pr: PullRequest, url: Seq<char>) -> Seq<char> {
    "\u{2713} "@ + verb + " pull request #"@ + decimal(pr.number as nat) + ": "@ + pr.title@ + "\n"@
        + spec_pr_refs_text(pr) + "URL: "@ + url + "\n"@
}

/// What is printed after a pull request is created or found.
pub fn pr_result_text(verb: &str, pr: &PullRequest, url: &str) -> (r: String)
    ensures
        r@ == spec_pr_result_text(verb@, *pr, url@),
{
    let mut out = chars_of("\u{2713} ");
    push_str(&mut out, verb);
    push_str(&mut out, " pull request #");
    push_all(&mut out, &decimal_of(pr.number));
    push_str(&mut out, ": ");
    push_str(&mut out, pr.title.as_str());
    push_str(&mut out, "\n");
    push_str(&mut out, pr_refs_text(pr).as_str());
    push_str(&mut out, "URL: ");
    push_str(&mut out, url);
    push_str(&mut out, "\n");
    string_of(&out)
}

/// The outcome of a merge: confirmation when merged, else the reason given (or an unknown error).
pub open spec fn spec_merge_outcome(number: u64, merged: Option<bool>, message: Option<Seq<char>>) -> Result<
    Seq<char>,
    Failure,
> {
    if merged == Some(true) {
        Ok("\u{2713} Merged pull request #"@ + decimal(number as nat))
    } else {
        Err(
            Failure::Other(
                "Failed to merge pull request #"@ + decimal(number as nat) + ": "@ + match message {
                    Some(m) => m,
                    None => "Unknown error"@,
                },
            ),
        )
    }
}

/// Judges the API's answer to a merge request.
pub fn merge_outcome(number: u64, merged: Option<bool>, message: Option<String>) -> (r: Result<
    String,
    GbError,
>)
    ensures
        str_result(r) == spec_merge_outcome(number, merged, opt_view(message)),
{
    if merged == Some(true) {
        let mut out = chars_of("\u{2713} Merged pull request #");
        push_all(&mut out, &decimal_of(number));
        Ok(string_of(&out))
    } else {
        let mut out = chars_of("Failed to merge pull request #");
        push_all(&mut out, &decimal_of(number));
        push_str(&mut out, ": ");
        match message {
            Some(m) => push_str(&mut out, m.as_str()),
            None => push_str(&mut out, "Unknown error"),
        }
        Err(other(&out))
    }
}

/// What is printed after commenting on a pull request: the action and comment id, and the
/// comment's URL when it has one.
pub open spec fn spec_pr_comment_text(id: u64, pr_number: u64, edited: bool, url: Option<Seq<char>>) -> Seq<
    char,
> {
    "\u{2713} "@ + (if edited {
        "Edited"@
    } else {
        "Added"@
    }) + " comment "@ + decimal(id as nat) + " on PR #"@ + decimal(pr_number as nat) + "\n"@
        + match url {
        Some(u) => if u.len() > 0 {
            "URL: "@ + u + "\n"@
        } else {
            Seq::empty()
        },
        None => Seq::empty(),
    }
}

/// What is printed after commenting on a pull request.
pub fn pr_comment_text(id: u64, pr_number: u64, edited: bool, url: &Option<String>) -> (r: String)
    ensures
        r@ == spec_pr_comment_text(id, pr_number, edited, opt_view(*url)),
{
    let mut out = chars_of("\u{2713} ");
    if edited {
        push_str(&mut out, "Edited");
    } else {
        push_str(&mut out, "Added");
    }
    push_str(&mut out, " comment ");
    push_all(&mut out, &decimal_of(id));
    push_str(&mut out, " on PR #");
    push_all(&mut out, &decimal_of(pr_number));
    push_str(&mut out, "\n");
    let ghost head = out@;
    match url {
        Some(u) => {
            if chars_of(u.as_str()).len() > 0 {
                push_str(&mut out, "URL: ");
                push_str(&mut out, u.as_str());
                push_str(&mut out, "\n");
            }
        },
        None => {},
    }
    proof {
        reveal_strlit("");
    }
    assert(out@ =~= spec_pr_comment_text(id, pr_number, edited, opt_view(*url)));
    string_of(&out)
}

/// What is printed after commenting on an issue.
pub open spec fn spec_issue_comment_text(edited_id: Option<u64>, number: u64) -> Seq<char> {
    match edited_id {
        Some(id) => "\u{2713} Edited comment "@ + decimal(id as nat) + " on issue #"@ + decimal(
            number as nat,
        ),
        None => "\u{2713} Added comment to issue #"@ + decimal(number as nat),
    }
}

/// What is printed after commenting on an issue; `edited_id` is the edited comment, if any.
pub fn issue_comment_text(edited_id: Option<u64>, number: u64) -> (r: String)
    ensures
        r@ == spec_issue_comment_text(edited_id, number),
{
    match edited_id {
        Some(id) => {
            let mut out = chars_of("\u{2713} Edited comment ");
            push_all(&mut out, &decimal_of(id));
            push_str(&mut out, " on issue #");
            push_all(&mut out, &decimal_of(number));
            string_of(&out)
        },
        None => {
            let mut out = chars_of("\u{2713} Added comment to issue #");
            push_all(&mut out, &decimal_of(number));
            string_of(&out)
        },
    }
}

/// How closing or reopening an issue is carried out and reported.
pub struct IssueStateChange {
    /// The state sent to the API.
    pub api_state: String,
    /// The web-form action used when the API cannot change the state.
    pub web_action: String,
    /// The verb of the confirmation.
    pub verb: String,
}

/// Closing: `closed`, `close`, `Closed`; reopening: `open`, `reopen`, `Reopened`.
pub open spec fn spec_issue_state_change(close: bool) -> (Seq<char>, Seq<char>, Seq<char>) {
    if close {
        ("closed"@, "close"@, "Closed"@)
    } else {
        ("open"@, "reopen"@, "Reopened"@)
    }
}

/// How closing (or reopening) an issue is carried out and reported.
pub fn issue_state_change(close: bool) -> (r: IssueStateChange)
    ensures
        (r.api_state@, r.web_action@, r.verb@) == spec_issue_state_change(close),
{
    if close {
        IssueStateChange {
            api_state: string_of(&chars_of("closed")),
            web_action: string_of(&chars_of("close")),
            verb: string_of(&chars_of("Closed")),
        }
    } else {
        IssueStateChange {
            api_state: string_of(&chars_of("open")),
            web_action: string_of(&chars_of("reopen")),
            verb: string_of(&chars_of("Reopened")),
        }
    }
}

/// The confirmation of an issue state change.
pub open spec fn spec_issue_state_text(verb: Seq<char>, number: u64) -> Seq<char> {
    "\u{2713} "@ + verb + " issue #"@ + decimal(number as nat)
}

/// The confirmation of an issue state change.
pub fn issue_state_text(verb: &str, number: u64) -> (r: String)
    ensures
        r@ == spec_issue_state_text(verb@, number),
{
    let mut out = chars_of("\u{2713} ");
    push_str(&mut out, verb);
    push_str(&mut out, " issue #");
    push_all(&mut out, &decimal_of(number));
    string_of(&out)
}


/// The refusal of `gb pr comment` without a pull request number.
pub open spec fn missing_pr_number() -> Failure {
    Failure::Other(
        "PR number is required. Use `gb pr comment <NUMBER>` or `gb pr comment list <NUMBER>`."@,
    )
}

/// The pull request that `gb pr comment` comments on.
pub fn pr_comment_number(number: Option<u64>) -> (r: Result<u64, GbError>)
    ensures
        match r {
            Ok(n) => number == Some(n),
            Err(e) => number is None && e@ == missing_pr_number(),
        },
{
    match number {
        Some(n) => Ok(n),
        None => Err(
            other(
                &chars_of(
                    "PR number is required. Use `gb pr comment <NUMBER>` or `gb pr comment list <NUMBER>`.",
                ),
            ),
        ),
    }
}

} // verus!
