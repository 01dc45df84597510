//! Issue decisions: edit requests, the REST update they become, the web-form
//! fallback when REST editing is unavailable, and the issue view text.
use vstd::prelude::*;

use crate::common::{
    assignee_changes, copy_strings, merge_named_values, spec_merge_named_values, spec_without, strs,
};
use crate::error::{other, opt_view, unit_result, Failure, GbError};
use crate::models::{Comment, Issue};
use crate::text::{chars_of, decimal, decimal_of, eq, join, join_pieces, push_all, push_str, string_of};

verus! {

/// The options of an issue (or pull request) edit.
pub struct IssueEditRequest {
    pub title: Option<String>,
    pub body: Option<String>,
    pub add_labels: Vec<String>,
    pub remove_labels: Vec<String>,
    pub add_assignees: Vec<String>,
    pub remove_assignees: Vec<String>,
    pub milestone: Option<u64>,
    pub remove_milestone: bool,
    pub state: Option<String>,
}

/// The REST update of an issue: `None` leaves a field unchanged; a milestone of
/// `Some(None)` removes it.
pub struct IssueUpdate {
    pub state: Option<String>,
    pub title: Option<String>,
    pub body: Option<String>,
    pub labels: Option<Vec<String>>,
    pub assignees: Option<Vec<String>>,
    pub milestone: Option<Option<u64>>,
}

/// The edit asks for no change at all.
pub open spec fn spec_edit_is_empty(req: IssueEditRequest) -> bool {
    &&& req.title is None
    &&& req.body is None
    &&& req.add_labels@.len() == 0
    &&& req.remove_labels@.len() == 0
    &&& req.add_assignees@.len() == 0
    &&& req.remove_assignees@.len() == 0
    &&& req.milestone is None
    &&& !req.remove_milestone
    &&& req.state is None
}

/// An edit must change something and cannot both set and remove the milestone.
pub open spec fn spec_validate_issue_edit(req: IssueEditRequest) -> Result<(), Failure> {
    if spec_edit_is_empty(req) {
        Err(Failure::Other("No issue changes requested. Pass at least one edit option."@))
    } else if req.milestone is Some && req.remove_milestone {
        Err(Failure::Other("Cannot use --milestone and --remove-milestone together."@))
    } else {
        Ok(())
    }
}

/// Checks that an edit changes something and does not both set and remove the milestone.
pub fn validate_issue_edit(req: &IssueEditRequest) -> (r: Result<(), GbError>)
    ensures
        unit_result(r) == spec_validate_issue_edit(*req),
{
    if req.title.is_none() && req.body.is_none() && req.add_labels.len() == 0
        && req.remove_labels.len() == 0 && req.add_assignees.len() == 0
        && req.remove_assignees.len() == 0 && req.milestone.is_none() && !req.remove_milestone
        && req.state.is_none() {
        return Err(other(&chars_of("No issue changes requested. Pass at least one edit option.")));
    }
    if req.milestone.is_some() && req.remove_milestone {
        return Err(other(&chars_of("Cannot use --milestone and --remove-milestone together.")));
    }
    Ok(())
}

/// The new list of names when some are added or removed; unchanged otherwise.
pub open spec fn spec_list_change(
    current: Seq<Seq<char>>,
    additions: Seq<Seq<char>>,
    removals: Seq<Seq<char>>,
) -> Option<Seq<Seq<char>>> {
    if additions.len() == 0 && removals.len() == 0 {
        None
    } else {
        Some(spec_merge_named_values(current, additions, removals))
    }
}

/// The views of an optional list of strings.
pub open spec fn opt_strs(o: Option<Vec<String>>) -> Option<Seq<Seq<char>>> {
    match o {
        Some(v) => Some(strs(v@)),
        None => None,
    }
}

/// The milestone change: removal, a new milestone, or none.
pub open spec fn spec_milestone_change(milestone: Option<u64>, remove: bool) -> Option<Option<u64>> {
    if remove {
        Some(None)
    } else {
        match milestone {
            Some(m) => Some(Some(m)),
            None => None,
        }
    }
}

fn list_change(current: &Vec<String>, additions: Vec<String>, removals: Vec<String>) -> (r: Option<
    Vec<String>,
>)
    ensures
        opt_strs(r) == spec_list_change(strs(current@), strs(additions@), strs(removals@)),
{
    if additions.len() == 0 && removals.len() == 0 {
        None
    } else {
        let copy = copy_strings(current);
        Some(merge_named_values(copy, additions, removals))
    }
}

/// The REST update for an edit of `current`, given the already normalised state.
pub fn plan_issue_update(req: IssueEditRequest, state: Option<String>, current: &Issue) -> (u:
    IssueUpdate)
    ensures
        opt_view(u.state) == opt_view(state),
        opt_view(u.title) == opt_view(req.title),
        opt_view(u.body) == opt_view(req.body),
        opt_strs(u.labels) == spec_list_change(
            strs(current.labels@),
            strs(req.add_labels@),
            strs(req.remove_labels@),
        ),
        opt_strs(u.assignees) == spec_list_change(
            strs(current.assignees@),
            strs(req.add_assignees@),
            strs(req.remove_assignees@),
        ),
        u.milestone == spec_milestone_change(req.milestone, req.remove_milestone),
{
    let labels = list_change(&current.labels, req.add_labels, req.remove_labels);
    let assignees = list_change(&current.assignees, req.add_assignees, req.remove_assignees);
    let milestone = if req.remove_milestone {
        Some(None)
    } else {
        match req.milestone {
            Some(m) => Some(Some(m)),
            None => None,
        }
    };
    IssueUpdate { state, title: req.title, body: req.body, labels, assignees, milestone }
}

/// The options of a pull request edit.
pub struct PrEditRequest {
    pub title: Option<String>,
    pub body: Option<String>,
    pub add_assignees: Vec<String>,
    pub remove_assignees: Vec<String>,
    pub state: Option<String>,
}

/// A pull request edit must change something.
pub open spec fn spec_validate_pr_edit(req: PrEditRequest) -> Result<(), Failure> {
    if req.title is None && req.body is None && req.add_assignees@.len() == 0
        && req.remove_assignees@.len() == 0 && req.state is None {
        Err(Failure::Other("No pull request changes requested. Pass at least one edit option."@))
    } else {
        Ok(())
    }
}

/// Checks that a pull request edit changes something.
pub fn validate_pr_edit(req: &PrEditRequest) -> (r: Result<(), GbError>)
    ensures
        unit_result(r) == spec_validate_pr_edit(*req),
{
    if req.title.is_none() && req.body.is_none() && req.add_assignees.len() == 0
        && req.remove_assignees.len() == 0 && req.state.is_none() {
        return Err(
            other(&chars_of("No pull request changes requested. Pass at least one edit option.")),
        );
    }
    Ok(())
}

/// Whether a pull request edit changes assignees, so that the current ones must be read first.
pub fn pr_edit_changes_assignees(req: &PrEditRequest) -> (r: bool)
    ensures
        r == (req.add_assignees@.len() > 0 || req.remove_assignees@.len() > 0),
{
    req.add_assignees.len() > 0 || req.remove_assignees.len() > 0
}

/// The REST update of a pull request edit, given the already normalised state;
/// `current_assignees` are the assignees read before an assignee change. Labels and the
/// milestone are left as they are.
pub fn plan_pr_update(req: PrEditRequest, state: Option<String>, current_assignees: Option<&Vec<String>>) -> (u:
    IssueUpdate)
    ensures
        opt_view(u.state) == opt_view(state),
        opt_view(u.title) == opt_view(req.title),
        opt_view(u.body) == opt_view(req.body),
        u.labels is None,
        u.milestone is None,
        opt_strs(u.assignees) == match current_assignees {
            Some(c) => Some(
                spec_merge_named_values(strs(c@), strs(req.add_assignees@), strs(req.remove_assignees@)),
            ),
            None => None,
        },
{
    let assignees = match current_assignees {
        Some(c) => Some(merge_named_values(copy_strings(c), req.add_assignees, req.remove_assignees)),
        None => None,
    };
    IssueUpdate { state, title: req.title, body: req.body, labels: None, assignees, milestone: None }
}

// ---------------------------------------------------------------------------
// Web-form fallback
// ---------------------------------------------------------------------------

/// An issue or pull request as it stands before a web-form edit.
pub struct IssueLikeCurrent {
    pub title: String,
    pub body: Option<String>,
    pub state: String,
    /// The issue record, when known; its assignees are needed to change assignees.
    pub issue: Option<Issue>,
}

impl IssueLikeCurrent {
    /// The current state of an issue.
    pub fn issue(issue: Issue) -> (r: IssueLikeCurrent)
        ensures
            r.title@ == issue.title@,
            opt_view(r.body) == opt_view(issue.body),
            r.state@ == issue.state@,
            r.issue == Some(issue),
    {
        IssueLikeCurrent {
            title: issue.title.clone(),
            body: match &issue.body {
                Some(b) => Some(b.clone()),
                None => None,
            },
            state: issue.state.clone(),
            issue: Some(issue),
        }
    }

    /// The current state of a pull request, with its issue record when known.
    pub fn pull_request(title: String, body: Option<String>, state: String, issue: Option<Issue>) -> (r:
        IssueLikeCurrent)
        ensures
            r.title == title,
            r.body == body,
            r.state == state,
            r.issue == issue,
    {
        IssueLikeCurrent { title, body, state, issue }
    }
}

/// The web-form steps that carry out an update when REST editing is unavailable,
/// in the order they are taken.
pub struct WebEditPlan {
    /// The title after the edit.
    pub next_title: String,
    /// Submit the title form.
    pub edit_title: bool,
    /// Submit the content form with this body (and `next_title`).
    pub edit_content: Option<String>,
    /// Set (or with `None` remove) the milestone.
    pub milestone: Option<Option<u64>>,
    /// Remove and then add these assignees, or fail for want of issue details.
    pub assignees: Option<Result<(Vec<String>, Vec<String>), GbError>>,
    /// `close` or `reopen`, when the state changes.
    pub state_action: Option<String>,
}

/// The text of a failure to use the web fallback.
pub open spec fn fallback_refusal(unsupported: Option<Seq<char>>, default: Seq<char>) -> Failure {
    match unsupported {
        Some(m) => Failure::Other(m),
        None => Failure::Other(default),
    }
}

/// Whether the web fallback may be used at all.
pub open spec fn spec_web_fallback_allowed(
    allow: bool,
    labels_change: bool,
    unsupported: Option<Seq<char>>,
) -> Result<(), Failure> {
    if !allow {
        Err(fallback_refusal(unsupported, "REST edit is unavailable on this GitBucket instance."@))
    } else if labels_change {
        Err(
            fallback_refusal(
                unsupported,
                "This GitBucket instance does not support editing labels through the web fallback."@,
            ),
        )
    } else {
        Ok(())
    }
}

/// The web action that moves an issue to `next` from `current`, if any.
pub open spec fn spec_state_action(next: Option<Seq<char>>, current: Seq<char>) -> Option<Seq<char>> {
    match next {
        Some(s) => if s != current {
            if s == "closed"@ {
                Some("close"@)
            } else {
                Some("reopen"@)
            }
        } else {
            None
        },
        None => None,
    }
}

/// The web action that moves an issue to `next` from `current`, if any.
pub fn state_action(next: &Option<String>, current: &str) -> (r: Option<String>)
    ensures
        opt_view(r) == spec_state_action(opt_view(*next), current@),
{
    match next {
        Some(s) => {
            let sv = chars_of(s.as_str());
            if !eq(&sv, &chars_of(current)) {
                if eq(&sv, &chars_of("closed")) {
                    Some(string_of(&chars_of("close")))
                } else {
                    Some(string_of(&chars_of("reopen")))
                }
            } else {
                None
            }
        },
        None => None,
    }
}

fn refusal(unsupported: &Option<String>, default: &str) -> (e: GbError)
    ensures
        e@ == fallback_refusal(opt_view(*unsupported), default@),
{
    match unsupported {
        Some(m) => other(&chars_of(m.as_str())),
        None => other(&chars_of(default)),
    }
}

/// Plans the web-form edit of an issue-like item after REST editing failed.
/// `current_assignees` are the assignees of the current issue, when its details are known.
pub fn plan_web_edit(
    current: &IssueLikeCurrent,
    update: &IssueUpdate,
    allow_web_fallback: bool,
    unsupported_message: &Option<String>,
) -> (r: Result<WebEditPlan, GbError>)
    ensures
        match r {
            Err(e) => spec_web_fallback_allowed(
                allow_web_fallback,
                update.labels is Some,
                opt_view(*unsupported_message),
            ) == Err::<(), Failure>(e@),
            Ok(p) => {
                let cur_body = match opt_view(current.body) {
                    Some(b) => b,
                    None => Seq::empty(),
                };
                let next_title = match opt_view(update.title) {
                    Some(t) => t,
                    None => current.title@,
                };
                let next_body = match opt_view(update.body) {
                    Some(b) => b,
                    None => cur_body,
                };
                &&& spec_web_fallback_allowed(
                    allow_web_fallback,
                    update.labels is Some,
                    opt_view(*unsupported_message),
                ) is Ok
                &&& p.next_title@ == next_title
                &&& p.edit_title == (next_title != current.title@)
                &&& opt_view(p.edit_content) == (if next_body != cur_body {
                    Some(next_body)
                } else {
                    None
                })
                &&& p.milestone == update.milestone
                &&& match update.assignees {
                    None => p.assignees is None,
                    Some(next) => match current.issue {
                        Some(cur) => p.assignees matches Some(Ok((rm, add))) && strs(rm@)
                            == spec_without(strs(cur.assignees@), strs(next@)) && strs(add@)
                            == spec_without(strs(next@), strs(cur.assignees@)),
                        None => p.assignees matches Some(Err(e)) && e@ == Failure::Other(
                            "Cannot update assignees through web fallback without issue details."@,
                        ),
                    },
                }
                &&& opt_view(p.state_action) == spec_state_action(
                    opt_view(update.state),
                    current.state@,
                )
            },
        },
{
    if !allow_web_fallback {
        return Err(refusal(unsupported_message, "REST edit is unavailable on this GitBucket instance."));
    }
    if update.labels.is_some() {
        return Err(
            refusal(
                unsupported_message,
                "This GitBucket instance does not support editing labels through the web fallback.",
            ),
        );
    }
    let ct = chars_of(current.title.as_str());
    let next_title = match &update.title {
        Some(t) => chars_of(t.as_str()),
        None => chars_of(current.title.as_str()),
    };
    let cur_body = match &current.body {
        Some(b) => chars_of(b.as_str()),
        None => Vec::new(),
    };
    let next_body = match &update.body {
        Some(b) => chars_of(b.as_str()),
        None => chars_of(string_of(&cur_body).as_str()),
    };
    let edit_title = !eq(&next_title, &ct);
    let edit_content = if !eq(&next_body, &cur_body) {
        Some(string_of(&next_body))
    } else {
        None
    };
    let assignees = match &update.assignees {
        None => None,
        Some(next) => match &current.issue {
            Some(cur) => Some(Ok(assignee_changes(&cur.assignees, next))),
            None => Some(
                Err(
                    other(
                        &chars_of(
                            "Cannot update assignees through web fallback without issue details.",
                        ),
                    ),
                ),
            ),
        },
    };
    let state_action = state_action(&update.state, current.state.as_str());
    Ok(
        WebEditPlan {
            next_title: string_of(&next_title),
            edit_title,
            edit_content,
            milestone: update.milestone,
            assignees,
            state_action,
        },
    )
}

/// The confirmation line after an edit of item `noun` number `n` titled `title`.
pub open spec fn updated_line(noun: Seq<char>, n: u64, title: Seq<char>) -> Seq<char> {
    "\u{2713} Updated "@ + noun + " #"@ + decimal(n as nat) + ": "@ + title
}

/// What is printed after a web-form edit: the number and title read back from the API, or,
/// when reading back failed, a warning and the planned title.
pub open spec fn spec_web_edit_report(
    noun: Seq<char>,
    number: u64,
    next_title: Seq<char>,
    fetched: Result<(u64, Seq<char>), Failure>,
) -> (Option<Seq<char>>, Seq<char>) {
    match fetched {
        Ok((n, t)) => (None, updated_line(noun, n, t)),
        Err(e) => (
            Some(
                "Warning: failed to fetch updated "@ + noun + " #"@ + decimal(number as nat)
                    + " from API after web fallback: "@ + crate::error::failure_message(e),
            ),
            updated_line(noun, number, next_title),
        ),
    }
}

fn push_updated_line(out: &mut Vec<char>, noun: &str, n: u64, title: &str)
    ensures
        final(out)@ == old(out)@ + updated_line(noun@, n, title@),
{
    let ghost start = out@;
    push_str(out, "\u{2713} Updated ");
    push_str(out, noun);
    push_str(out, " #");
    push_all(out, &decimal_of(n));
    push_str(out, ": ");
    push_str(out, title);
    assert(out@ =~= start + updated_line(noun@, n, title@));
}

/// The warning (if any) and confirmation printed after a web-form edit.
pub fn web_edit_report(
    noun: &str,
    number: u64,
    next_title: &str,
    fetched: &Result<(u64, String), GbError>,
) -> (r: (Option<String>, String))
    ensures
        (opt_view(r.0), r.1@) == spec_web_edit_report(
            noun@,
            number,
            next_title@,
            match fetched {
                Ok((n, t)) => Ok((*n, t@)),
                Err(e) => Err(e@),
            },
        ),
{
    let mut line: Vec<char> = Vec::new();
    match fetched {
        Ok((n, t)) => {
            push_updated_line(&mut line, noun, *n, t.as_str());
            proof {
                reveal_strlit("");
            }
            (None, string_of(&line))
        },
        Err(e) => {
            let mut w = chars_of("Warning: failed to fetch updated ");
            push_str(&mut w, noun);
            push_str(&mut w, " #");
            push_all(&mut w, &decimal_of(number));
            push_str(&mut w, " from API after web fallback: ");
            push_str(&mut w, e.message().as_str());
            push_updated_line(&mut line, noun, number, next_title);
            proof {
                reveal_strlit("");
            }
            (Some(string_of(&w)), string_of(&line))
        },
    }
}

// ---------------------------------------------------------------------------
// Comments
// ---------------------------------------------------------------------------

/// The comment is by `login`.
pub open spec fn by_user(c: Comment, login: Seq<char>) -> bool {
    c.user_login matches Some(u) && u@ == login
}

/// The id of the newest comment (highest id) by `login`: present exactly when
/// `login` wrote a comment, and no comment by `login` has a higher id.
pub open spec fn is_latest_by(comments: Seq<Comment>, login: Seq<char>, r: Option<u64>) -> bool {
    match r {
        Some(id) => (exists|i: int| 0 <= i < comments.len() && by_user(comments[i], login) && #[trigger] comments[i].id == id)
            && forall|i: int| 0 <= i < comments.len() && by_user(comments[i], login) ==> #[trigger] comments[i].id <= id,
        None => forall|i: int| 0 <= i < comments.len() ==> !by_user(#[trigger] comments[i], login),
    }
}

/// The id of the newest comment by `login`.
pub fn latest_comment_by(comments: &Vec<Comment>, login: &str) -> (r: Option<u64>)
    ensures
        is_latest_by(comments@, login@, r),
{
    let lv = chars_of(login);
    let mut best: Option<u64> = None;
    let mut i: usize = 0;
    while i < comments.len()
        invariant
            i <= comments@.len(),
            lv@ == login@,
            is_latest_by(comments@.subrange(0, i as int), login@, best),
        decreases comments.len() - i,
    {
        let c = &comments[i];
        let mine = match &c.user_login {
            Some(u) => eq(&chars_of(u.as_str()), &lv),
            None => false,
        };
        let ghost prefix = comments@.subrange(0, i as int);
        let ghost next = comments@.subrange(0, i + 1);
        assert(forall|j: int| 0 <= j < i ==> next[j] == prefix[j]);
        assert(next[i as int] == comments@[i as int]);
        if mine {
            match best {
                Some(b) => {
                    if c.id > b {
                        best = Some(c.id);
                    }
                },
                None => {
                    best = Some(c.id);
                },
            }
        }
        proof {
            match best {
                Some(id) => {
                    if mine && comments@[i as int].id == id {
                        assert(next[i as int].id == id);
                    } else {
                        let k = choose|k: int|
                            0 <= k < prefix.len() && by_user(prefix[k], login@) && #[trigger] prefix[k].id
                                == id;
                        assert(next[k] == prefix[k]);
                    }
                },
                None => {},
            }
        }
        i += 1;
    }
    assert(comments@.subrange(0, comments@.len() as int) =~= comments@);
    best
}

/// The failure when `login` wrote no comment on the item.
pub open spec fn spec_no_comments_error(login: Seq<char>, item_label: Seq<char>, number: u64) -> Failure {
    Failure::Other("No comments by "@ + login + " found on "@ + item_label + " #"@ + decimal(number as nat))
}

/// The failure when `login` wrote no comment on the item.
pub fn no_comments_error(login: &str, item_label: &str, number: u64) -> (e: GbError)
    ensures
        e@ == spec_no_comments_error(login@, item_label@, number),
{
    let mut msg = chars_of("No comments by ");
    push_str(&mut msg, login);
    push_str(&mut msg, " found on ");
    push_str(&mut msg, item_label);
    push_str(&mut msg, " #");
    push_all(&mut msg, &decimal_of(number));
    other(&msg)
}

// ---------------------------------------------------------------------------
// Issue view
// ---------------------------------------------------------------------------

/// `text` when `present`, else nothing.
pub open spec fn when(present: bool, text: Seq<char>) -> Seq<char> {
    if present {
        text
    } else {
        Seq::empty()
    }
}

/// The author part of the issue view.
pub open spec fn author_part(issue: Issue) -> Seq<char> {
    match issue.user_login {
        Some(u) => "Author: "@ + u@ + "  "@,
        None => Seq::empty(),
    }
}

/// The creation-date part of the issue view.
pub open spec fn created_part(issue: Issue) -> Seq<char> {
    match issue.created_at {
        Some(c) => "Created: "@ + c@,
        None => Seq::empty(),
    }
}

/// A `NAME: a, b` line of the issue view, or nothing for an empty list.
pub open spec fn list_part(name: Seq<char>, items: Seq<Seq<char>>) -> Seq<char> {
    when(items.len() > 0, name + join(items, ", "@) + "\n"@)
}

/// The milestone line of the issue view.
pub open spec fn milestone_part(issue: Issue) -> Seq<char> {
    match issue.milestone {
        Some(m) => "Milestone: "@ + m.title@ + " (#"@ + decimal(m.number as nat) + ")\n"@,
        None => Seq::empty(),
    }
}

/// The body of the issue view, after a blank line, when there is one.
pub open spec fn body_part(issue: Issue) -> Seq<char> {
    match issue.body {
        Some(b) => when(b@.len() > 0, "\n"@ + b@ + "\n"@),
        None => Seq::empty(),
    }
}

/// The text of `gb issue view`, given the styled title, styled `#NUMBER` and styled state.
pub open spec fn spec_format_issue_view(issue: Issue, title: Seq<char>, number: Seq<char>, state: Seq<char>) -> Seq<
    char,
> {
    title + " "@ + number + "\n"@ + state + "\n\n"@ + author_part(issue) + created_part(issue) + "\n"@
        + list_part("Labels: "@, strs(issue.labels@)) + list_part(
        "Assignees: "@,
        strs(issue.assignees@),
    ) + milestone_part(issue) + body_part(issue)
}

fn join_strings(v: &Vec<String>, sep: &str) -> (r: Vec<char>)
    ensures
        r@ == join(strs(v@), sep@),
{
    let mut pieces: Vec<Vec<char>> = Vec::new();
    let mut i: usize = 0;
    while i < v.len()
        invariant
            i <= v@.len(),
            pieces@.len() == i,
            forall|j: int| 0 <= j < i ==> #[trigger] pieces@[j]@ == v@[j]@,
        decreases v.len() - i,
    {
        pieces.push(chars_of(v[i].as_str()));
        i += 1;
    }
    assert(pieces@.map_values(|p: Vec<char>| p@) =~= strs(v@));
    join_pieces(&pieces, sep)
}

fn list_line(name: &str, items: &Vec<String>) -> (r: Vec<char>)
    ensures
        r@ == list_part(name@, strs(items@)),
{
    if items.len() > 0 {
        let mut out = chars_of(name);
        push_all(&mut out, &join_strings(items, ", "));
        push_str(&mut out, "\n");
        out
    } else {
        Vec::new()
    }
}

fn header_line(title: &str, number: &str, state: &str) -> (r: Vec<char>)
    ensures
        r@ == title@ + " "@ + number@ + "\n"@ + state@ + "\n\n"@,
{
    let mut out = chars_of(title);
    push_str(&mut out, " ");
    push_str(&mut out, number);
    push_str(&mut out, "\n");
    push_str(&mut out, state);
    push_str(&mut out, "\n\n");
    out
}

fn author_line(issue: &Issue) -> (r: Vec<char>)
    ensures
        r@ == author_part(*issue) + created_part(*issue) + "\n"@,
{
    let mut out: Vec<char> = Vec::new();
    if let Some(u) = &issue.user_login {
        push_str(&mut out, "Author: ");
        push_str(&mut out, u.as_str());
        push_str(&mut out, "  ");
    }
    assert(out@ =~= author_part(*issue));
    if let Some(c) = &issue.created_at {
        push_str(&mut out, "Created: ");
        push_str(&mut out, c.as_str());
    }
    assert(out@ =~= author_part(*issue) + created_part(*issue));
    push_str(&mut out, "\n");
    out
}

fn milestone_line(issue: &Issue) -> (r: Vec<char>)
    ensures
        r@ == milestone_part(*issue),
{
    match &issue.milestone {
        Some(m) => {
            let mut out = chars_of("Milestone: ");
            push_str(&mut out, m.title.as_str());
            push_str(&mut out, " (#");
            push_all(&mut out, &decimal_of(m.number));
            push_str(&mut out, ")\n");
            out
        },
        None => Vec::new(),
    }
}

fn body_lines(issue: &Issue) -> (r: Vec<char>)
    ensures
        r@ == body_part(*issue),
{
    match &issue.body {
        Some(b) => {
            let bv = chars_of(b.as_str());
            if bv.len() > 0 {
                let mut out = chars_of("\n");
                push_all(&mut out, &bv);
                push_str(&mut out, "\n");
                out
            } else {
                Vec::new()
            }
        },
        None => Vec::new(),
    }
}

/// The text of `gb issue view`.
pub fn format_issue_view(issue: &Issue, title: &str, number: &str, state: &str) -> (r: String)
    ensures
        r@ == spec_format_issue_view(*issue, title@, number@, state@),
{
    let mut out = header_line(title, number, state);
    push_all(&mut out, &author_line(issue));
    push_all(&mut out, &list_line("Labels: ", &issue.labels));
    push_all(&mut out, &list_line("Assignees: ", &issue.assignees));
    push_all(&mut out, &milestone_line(issue));
    push_all(&mut out, &body_lines(issue));
    assert(out@ =~= spec_format_issue_view(*issue, title@, number@, state@));
    string_of(&out)
}

} // verus!
