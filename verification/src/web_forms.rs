//! The requests the GitBucket web-form session sends: paths, form fields and the action each
//! one performs, as its failure messages name it.
use vstd::prelude::*;

use crate::error::{other, Failure, GbError};
use crate::text::{chars_of, decimal, decimal_of, eq_str, push_all, push_str, string_of};
use crate::web_session::{milestone_state_action, spec_milestone_state_action};

verus! {

/// A web-form request: a GET of `path`, or a POST of `fields` to it.
pub struct WebRequest {
    /// Whether the request is a GET (else a form POST).
    pub get: bool,
    /// The path below the web base URL.
    pub path: String,
    /// The form fields, in order.
    pub fields: Vec<(String, String)>,
    /// What the request does, as failure messages say it.
    pub action: String,
}

/// The abstract value of form fields.
pub open spec fn fields_view(v: Seq<(String, String)>) -> Seq<(Seq<char>, Seq<char>)> {
    v.map_values(|f: (String, String)| (f.0@, f.1@))
}

/// The abstract value of a web request.
pub open spec fn request_view(r: WebRequest) -> (bool, Seq<char>, Seq<(Seq<char>, Seq<char>)>, Seq<char>) {
    (r.get, r.path@, fields_view(r.fields@), r.action@)
}

/// `/OWNER/REPO` followed by `tail`.
pub open spec fn repo_path(owner: Seq<char>, repo: Seq<char>, tail: Seq<char>) -> Seq<char> {
    "/"@ + owner + "/"@ + repo + tail
}

fn make_repo_path(owner: &str, repo: &str, tail: &[char]) -> (r: String)
    ensures
        r@ == repo_path(owner@, repo@, tail@),
{
    let mut p = chars_of("/");
    push_str(&mut p, owner);
    push_str(&mut p, "/");
    push_str(&mut p, repo);
    push_all(&mut p, tail);
    proof {
        reveal_strlit("/");
    }
    assert(p@ =~= repo_path(owner@, repo@, tail@));
    string_of(&p)
}

fn field(name: &str, value: &[char]) -> (r: (String, String))
    ensures
        r.0@ == name@,
        r.1@ == value@,
{
    (string_of(&chars_of(name)), string_of(value))
}

fn post(path: String, fields: Vec<(String, String)>, action: &str) -> (r: WebRequest)
    ensures
        request_view(r) == (false, path@, fields_view(fields@), action@),
{
    WebRequest { get: false, path, fields, action: string_of(&chars_of(action)) }
}

fn get(path: String, action: &str) -> (r: WebRequest)
    ensures
        request_view(r) == (true, path@, Seq::<(Seq<char>, Seq<char>)>::empty(), action@),
{
    let fields: Vec<(String, String)> = Vec::new();
    assert(fields_view(fields@) =~= Seq::<(Seq<char>, Seq<char>)>::empty());
    WebRequest { get: true, path, fields, action: string_of(&chars_of(action)) }
}

/// The sign-in form: user name, password and an empty hash.
pub open spec fn spec_signin_fields(username: Seq<char>, password: Seq<char>) -> Seq<(Seq<char>, Seq<char>)> {
    seq![("userName"@, username), ("password"@, password), ("hash"@, Seq::empty())]
}

/// The sign-in form fields.
pub fn signin_fields(username: &str, password: &str) -> (r: Vec<(String, String)>)
    ensures
        fields_view(r@) == spec_signin_fields(username@, password@),
{
    let mut v: Vec<(String, String)> = Vec::new();
    v.push(field("userName", &chars_of(username)));
    v.push(field("password", &chars_of(password)));
    v.push(field("hash", &Vec::new()));
    assert(fields_view(v@) =~= spec_signin_fields(username@, password@));
    v
}

/// Forking a repository into an account.
pub fn fork_request(owner: &str, repo: &str, account: &str) -> (r: WebRequest)
    ensures
        request_view(r) == (
            false,
            repo_path(owner@, repo@, "/fork"@),
            seq![("account"@, account@)],
            "fork the repository"@,
        ),
{
    let mut f: Vec<(String, String)> = Vec::new();
    f.push(field("account", &chars_of(account)));
    assert(fields_view(f@) =~= seq![("account"@, account@)]);
    post(make_repo_path(owner, repo, &chars_of("/fork")), f, "fork the repository")
}

/// Deleting a repository.
pub fn delete_repo_request(owner: &str, repo: &str) -> (r: WebRequest)
    ensures
        request_view(r) == (
            false,
            repo_path(owner@, repo@, "/settings/delete"@),
            Seq::<(Seq<char>, Seq<char>)>::empty(),
            "delete the repository"@,
        ),
{
    let f: Vec<(String, String)> = Vec::new();
    assert(fields_view(f@) =~= Seq::<(Seq<char>, Seq<char>)>::empty());
    post(make_repo_path(owner, repo, &chars_of("/settings/delete")), f, "delete the repository")
}

/// Closing or reopening an issue (`action` is `close` or `reopen`).
pub fn issue_state_request(owner: &str, repo: &str, number: u64, action: &str) -> (r: WebRequest)
    ensures
        request_view(r) == (
            false,
            repo_path(owner@, repo@, "/issue_comments/state"@),
            seq![
                ("issueId"@, decimal(number as nat)),
                ("content"@, Seq::empty()),
                ("action"@, action@),
            ],
            "change the issue state"@,
        ),
{
    let mut f: Vec<(String, String)> = Vec::new();
    f.push(field("issueId", &decimal_of(number)));
    f.push(field("content", &Vec::new()));
    f.push(field("action", &chars_of(action)));
    assert(fields_view(f@) =~= seq![
        ("issueId"@, decimal(number as nat)),
        ("content"@, Seq::empty()),
        ("action"@, action@),
    ]);
    post(
        make_repo_path(owner, repo, &chars_of("/issue_comments/state")),
        f,
        "change the issue state",
    )
}

/// `TAIL` followed by the issue number.
pub open spec fn numbered(tail: Seq<char>, number: u64) -> Seq<char> {
    tail + decimal(number as nat)
}

fn make_numbered(tail: &str, number: u64) -> (r: Vec<char>)
    ensures
        r@ == numbered(tail@, number),
{
    let mut t = chars_of(tail);
    push_all(&mut t, &decimal_of(number));
    t
}

/// Changing an issue's title.
pub fn edit_title_request(owner: &str, repo: &str, number: u64, title: &str) -> (r: WebRequest)
    ensures
        request_view(r) == (
            false,
            repo_path(owner@, repo@, numbered("/issues/edit_title/"@, number)),
            seq![("title"@, title@)],
            "edit the issue title"@,
        ),
{
    let mut f: Vec<(String, String)> = Vec::new();
    f.push(field("title", &chars_of(title)));
    assert(fields_view(f@) =~= seq![("title"@, title@)]);
    post(
        make_repo_path(owner, repo, &make_numbered("/issues/edit_title/", number)),
        f,
        "edit the issue title",
    )
}

/// Changing an issue's title and body.
pub fn edit_content_request(owner: &str, repo: &str, number: u64, title: &str, content: &str) -> (r:
    WebRequest)
    ensures
        request_view(r) == (
            false,
            repo_path(owner@, repo@, numbered("/issues/edit/"@, number)),
            seq![("title"@, title@), ("content"@, content@)],
            "edit the issue"@,
        ),
{
    let mut f: Vec<(String, String)> = Vec::new();
    f.push(field("title", &chars_of(title)));
    f.push(field("content", &chars_of(content)));
    assert(fields_view(f@) =~= seq![("title"@, title@), ("content"@, content@)]);
    post(make_repo_path(owner, repo, &make_numbered("/issues/edit/", number)), f, "edit the issue")
}

/// `/issues/N` followed by `tail`.
pub open spec fn issue_tail(number: u64, tail: Seq<char>) -> Seq<char> {
    "/issues/"@ + decimal(number as nat) + tail
}

fn make_issue_tail(number: u64, tail: &str) -> (r: Vec<char>)
    ensures
        r@ == issue_tail(number, tail@),
{
    let mut t = chars_of("/issues/");
    push_all(&mut t, &decimal_of(number));
    push_str(&mut t, tail);
    t
}

/// Setting (or with `None` clearing) an issue's milestone.
pub fn issue_milestone_request(owner: &str, repo: &str, number: u64, milestone_id: Option<u64>) -> (r:
    WebRequest)
    ensures
        request_view(r) == (
            false,
            repo_path(owner@, repo@, issue_tail(number, "/milestone"@)),
            seq![
                ("milestoneId"@, match milestone_id {
                    Some(m) => decimal(m as nat),
                    None => Seq::empty(),
                }),
            ],
            "update the issue milestone"@,
        ),
{
    let id = match milestone_id {
        Some(m) => decimal_of(m),
        None => Vec::new(),
    };
    let mut f: Vec<(String, String)> = Vec::new();
    f.push(field("milestoneId", &id));
    assert(fields_view(f@) =~= seq![("milestoneId"@, id@)]);
    post(
        make_repo_path(owner, repo, &make_issue_tail(number, "/milestone")),
        f,
        "update the issue milestone",
    )
}

/// The path word for an assignee action: `new` to add, `delete` to remove.
pub open spec fn spec_assignee_path_action(action: Seq<char>) -> Result<Seq<char>, Failure> {
    if action == "add"@ {
        Ok("new"@)
    } else if action == "remove"@ {
        Ok("delete"@)
    } else {
        Err(Failure::Other("Invalid assignee action '"@ + action + "'. Expected add or remove."@))
    }
}

/// Adding or removing an issue assignee (`action` is `add` or `remove`).
pub fn assignee_request(owner: &str, repo: &str, number: u64, action: &str, assignee: &str) -> (r:
    Result<WebRequest, GbError>)
    ensures
        match r {
            Ok(w) => spec_assignee_path_action(action@) matches Ok(a) && request_view(w) == (
                false,
                repo_path(owner@, repo@, issue_tail(number, "/assignee/"@ + a)),
                seq![("assigneeUserName"@, assignee@)],
                "update the issue assignee"@,
            ),
            Err(e) => spec_assignee_path_action(action@) == Err::<Seq<char>, Failure>(e@),
        },
{
    let a = chars_of(action);
    let word = if eq_str(&a, "add") {
        "new"
    } else if eq_str(&a, "remove") {
        "delete"
    } else {
        let mut m = chars_of("Invalid assignee action '");
        push_str(&mut m, action);
        push_str(&mut m, "'. Expected add or remove.");
        return Err(other(&m));
    };
    let mut tail = make_issue_tail(number, "/assignee/");
    push_str(&mut tail, word);
    let mut f: Vec<(String, String)> = Vec::new();
    f.push(field("assigneeUserName", &chars_of(assignee)));
    assert(fields_view(f@) =~= seq![("assigneeUserName"@, assignee@)]);
    let ghost t = tail@;
    let r = post(make_repo_path(owner, repo, &tail), f, "update the issue assignee");
    assert(t =~= issue_tail(number, "/assignee/"@) + word@);
    assert(issue_tail(number, "/assignee/"@) + word@ =~= issue_tail(number, "/assignee/"@ + word@));
    Ok(r)
}

/// The assignee requests of a web-form edit: each removal, then each addition, in order.
pub open spec fn spec_assignee_requests(
    owner: Seq<char>,
    repo: Seq<char>,
    number: u64,
    removals: Seq<Seq<char>>,
    additions: Seq<Seq<char>>,
) -> Seq<(bool, Seq<char>, Seq<(Seq<char>, Seq<char>)>, Seq<char>)> {
    removals.map_values(
        |a: Seq<char>|
            (
                false,
                repo_path(owner, repo, issue_tail(number, "/assignee/delete"@)),
                seq![("assigneeUserName"@, a)],
                "update the issue assignee"@,
            ),
    ) + additions.map_values(
        |a: Seq<char>|
            (
                false,
                repo_path(owner, repo, issue_tail(number, "/assignee/new"@)),
                seq![("assigneeUserName"@, a)],
                "update the issue assignee"@,
            ),
    )
}

/// The abstract value of a list of web requests.
pub open spec fn requests_view(v: Seq<WebRequest>) -> Seq<
    (bool, Seq<char>, Seq<(Seq<char>, Seq<char>)>, Seq<char>),
> {
    v.map_values(|w: WebRequest| request_view(w))
}

/// The requests that move an issue's assignees: the removals first, then the additions
/// (see `assignee_changes`).
pub fn assignee_requests(
    owner: &str,
    repo: &str,
    number: u64,
    removals: &Vec<String>,
    additions: &Vec<String>,
) -> (r: Vec<WebRequest>)
    ensures
        requests_view(r@) == spec_assignee_requests(
            owner@,
            repo@,
            number,
            crate::common::strs(removals@),
            crate::common::strs(additions@),
        ),
{
    proof {
        reveal_strlit("add");
        reveal_strlit("remove");
        reveal_strlit("new");
        reveal_strlit("delete");
        reveal_strlit("/assignee/");
        reveal_strlit("/assignee/new");
        reveal_strlit("/assignee/delete");
    }
    let ghost target = spec_assignee_requests(
        owner@,
        repo@,
        number,
        crate::common::strs(removals@),
        crate::common::strs(additions@),
    );
    let mut out: Vec<WebRequest> = Vec::new();
    let mut i: usize = 0;
    while i < removals.len()
        invariant
            i <= removals@.len(),
            target == spec_assignee_requests(
                owner@,
                repo@,
                number,
                crate::common::strs(removals@),
                crate::common::strs(additions@),
            ),
            requests_view(out@) =~= target.take(i as int),
        decreases removals@.len() - i,
    {
        let ghost before = out@;
        match assignee_request(owner, repo, number, "remove", removals[i].as_str()) {
            Ok(w) => {
                proof {
                    reveal_strlit("add");
                    reveal_strlit("remove");
                    assert("remove"@.len() == 6);
                    assert("add"@.len() == 3);
                    assert("remove"@ != "add"@);
                    assert(spec_assignee_path_action("remove"@) == Ok::<Seq<char>, Failure>("delete"@));
                    assert(request_view(w).1 == repo_path(owner@, repo@, issue_tail(number, "/assignee/"@ + "delete"@)));
                }
                out.push(w);
            },
            Err(_) => {
                proof {
                    assert(false);
                }
            },
        }
        proof {
            reveal_strlit("add");
            reveal_strlit("remove");
            reveal_strlit("delete");
            reveal_strlit("/assignee/");
            reveal_strlit("/assignee/delete");
            assert("/assignee/"@ + "delete"@ =~= "/assignee/delete"@);
            let rm = crate::common::strs(removals@);
            assert(rm[i as int] == removals@[i as int]@);
            assert(target[i as int] == (
                false,
                repo_path(owner@, repo@, issue_tail(number, "/assignee/delete"@)),
                seq![("assigneeUserName"@, removals@[i as int]@)],
                "update the issue assignee"@,
            ));
        }
        assert(requests_view(out@) =~= requests_view(before).push(target[i as int]));
        i = i + 1;
    }
    let mut j: usize = 0;
    let n = removals.len();
    while j < additions.len()
        invariant
            j <= additions@.len(),
            n == removals@.len(),
            target == spec_assignee_requests(
                owner@,
                repo@,
                number,
                crate::common::strs(removals@),
                crate::common::strs(additions@),
            ),
            requests_view(out@) =~= target.take(n + j),
        decreases additions@.len() - j,
    {
        let ghost before = out@;
        match assignee_request(owner, repo, number, "add", additions[j].as_str()) {
            Ok(w) => {
                out.push(w);
            },
            Err(_) => {
                proof {
                    assert(false);
                }
            },
        }
        proof {
            reveal_strlit("add");
            reveal_strlit("remove");
            reveal_strlit("new");
            reveal_strlit("/assignee/");
            reveal_strlit("/assignee/new");
            assert("/assignee/"@ + "new"@ =~= "/assignee/new"@);
        }
        assert(requests_view(out@) =~= requests_view(before).push(target[n + j]));
        j = j + 1;
    }
    assert(target.take(n + j) =~= target);
    out
}

/// The milestone form: title, description and due date, the missing ones empty.
pub open spec fn spec_milestone_fields(
    title: Seq<char>,
    description: Option<Seq<char>>,
    due_date: Option<Seq<char>>,
) -> Seq<(Seq<char>, Seq<char>)> {
    seq![
        ("title"@, title),
        ("description"@, match description {
            Some(d) => d,
            None => Seq::empty(),
        }),
        ("dueDate"@, match due_date {
            Some(d) => d,
            None => Seq::empty(),
        }),
    ]
}

/// The abstract value of an optional string slice.
pub open spec fn str_opt(o: Option<&str>) -> Option<Seq<char>> {
    match o {
        Some(s) => Some(s@),
        None => None,
    }
}

fn milestone_fields(title: &str, description: Option<&str>, due_date: Option<&str>) -> (r: Vec<
    (String, String),
>)
    ensures
        fields_view(r@) == spec_milestone_fields(title@, str_opt(description), str_opt(due_date)),
{
    let mut f: Vec<(String, String)> = Vec::new();
    f.push(field("title", &chars_of(title)));
    f.push(
        field(
            "description",
            &match description {
                Some(d) => chars_of(d),
                None => Vec::new(),
            },
        ),
    );
    f.push(
        field(
            "dueDate",
            &match due_date {
                Some(d) => chars_of(d),
                None => Vec::new(),
            },
        ),
    );
    assert(fields_view(f@) =~= spec_milestone_fields(title@, str_opt(description), str_opt(due_date)));
    f
}

/// Creating a milestone through the web form.
pub fn create_milestone_request(
    owner: &str,
    repo: &str,
    title: &str,
    description: Option<&str>,
    due_date: Option<&str>,
) -> (r: WebRequest)
    ensures
        request_view(r) == (
            false,
            repo_path(owner@, repo@, "/issues/milestones/new"@),
            spec_milestone_fields(title@, str_opt(description), str_opt(due_date)),
            "create the milestone"@,
        ),
{
    post(
        make_repo_path(owner, repo, &chars_of("/issues/milestones/new")),
        milestone_fields(title, description, due_date),
        "create the milestone",
    )
}

/// `/issues/milestones/N` followed by `tail`.
pub open spec fn milestone_tail(number: u64, tail: Seq<char>) -> Seq<char> {
    "/issues/milestones/"@ + decimal(number as nat) + tail
}

fn make_milestone_tail(number: u64, tail: &[char]) -> (r: Vec<char>)
    ensures
        r@ == milestone_tail(number, tail@),
{
    let mut t = chars_of("/issues/milestones/");
    push_all(&mut t, &decimal_of(number));
    push_all(&mut t, tail);
    t
}

/// Editing a milestone through the web form.
pub fn edit_milestone_request(
    owner: &str,
    repo: &str,
    number: u64,
    title: &str,
    description: Option<&str>,
    due_date: Option<&str>,
) -> (r: WebRequest)
    ensures
        request_view(r) == (
            false,
            repo_path(owner@, repo@, milestone_tail(number, "/edit"@)),
            spec_milestone_fields(title@, str_opt(description), str_opt(due_date)),
            "edit the milestone"@,
        ),
{
    post(
        make_repo_path(owner, repo, &make_milestone_tail(number, &chars_of("/edit"))),
        milestone_fields(title, description, due_date),
        "edit the milestone",
    )
}

/// Opening or closing a milestone (`state` is `open` or `close`).
pub fn milestone_state_request(owner: &str, repo: &str, number: u64, state: &str) -> (r: Result<
    WebRequest,
    GbError,
>)
    ensures
        match r {
            Ok(w) => spec_milestone_state_action(state@) matches Ok(a) && request_view(w) == (
                true,
                repo_path(owner@, repo@, milestone_tail(number, "/"@ + a)),
                Seq::<(Seq<char>, Seq<char>)>::empty(),
                "change the milestone state"@,
            ),
            Err(e) => spec_milestone_state_action(state@) == Err::<Seq<char>, Failure>(e@),
        },
{
    let a = milestone_state_action(state)?;
    let mut tail = chars_of("/");
    push_str(&mut tail, a.as_str());
    Ok(
        get(
            make_repo_path(owner, repo, &make_milestone_tail(number, &tail)),
            "change the milestone state",
        ),
    )
}

/// Deleting a milestone.
pub fn delete_milestone_request(owner: &str, repo: &str, number: u64) -> (r: WebRequest)
    ensures
        request_view(r) == (
            true,
            repo_path(owner@, repo@, milestone_tail(number, "/delete"@)),
            Seq::<(Seq<char>, Seq<char>)>::empty(),
            "delete the milestone"@,
        ),
{
    get(
        make_repo_path(owner, repo, &make_milestone_tail(number, &chars_of("/delete"))),
        "delete the milestone",
    )
}

} // verus!
