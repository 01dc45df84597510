//! What the repository and issue commands choose from their arguments and print.
use vstd::prelude::*;

use crate::common::{pair_result, parse_owner_repo, spec_parse_owner_repo, strs};
use crate::error::{opt_view, other, Failure, GbError};
use crate::models::{Issue, Repository};
use crate::pr_git::{command_output_summary, spec_command_output_summary};
use crate::pr_view::{or_empty, segs, Segment, Style};
use crate::text::{
    chars_of, contains, contains_str, decimal, decimal_of, has_char, has_infix, join, join_pieces,
    push_all, push_str, string_of,
};

verus! {

/// The repository a repository command is about: the positional argument, else `-R` on the
/// subcommand, else the global `-R`.
pub open spec fn spec_repo_argument(
    positional: Option<Seq<char>>,
    flag: Option<Seq<char>>,
    global: Option<Seq<char>>,
) -> Option<Seq<char>> {
    match positional {
        Some(p) => Some(p),
        None => match flag {
            Some(f) => Some(f),
            None => global,
        },
    }
}

/// The repository a repository command is about.
pub fn repo_argument(positional: Option<String>, flag: Option<String>, global: Option<String>) -> (r:
    Option<String>)
    ensures
        opt_view(r) == spec_repo_argument(opt_view(positional), opt_view(flag), opt_view(global)),
{
    match positional {
        Some(p) => Some(p),
        None => match flag {
            Some(f) => Some(f),
            None => global,
        },
    }
}

/// `gb repo delete` needs an explicit `OWNER/REPO`.
pub open spec fn spec_delete_target(repo_arg: Option<Seq<char>>) -> Result<(Seq<char>, Seq<char>), Failure> {
    match repo_arg {
        Some(r) => spec_parse_owner_repo(r),
        None => Err(
            Failure::Other(
                "Refusing to delete without an explicit repository. Pass OWNER/REPO or -R/--repo."@,
            ),
        ),
    }
}

/// The repository `gb repo delete` deletes.
pub fn delete_target(repo_arg: Option<String>) -> (r: Result<(String, String), GbError>)
    ensures
        pair_result(r) == spec_delete_target(opt_view(repo_arg)),
{
    match repo_arg {
        Some(r) => parse_owner_repo(r.as_str()),
        None => Err(
            other(
                &chars_of(
                    "Refusing to delete without an explicit repository. Pass OWNER/REPO or -R/--repo.",
                ),
            ),
        ),
    }
}

/// `gb repo clone` takes a URL (anything with `://` or `@`) as it is.
pub open spec fn spec_is_direct_clone_url(repo: Seq<char>) -> bool {
    has_infix(repo, "://"@) || has_char(repo, '@')
}

/// Whether `gb repo clone` was given a URL rather than `OWNER/REPO`.
pub fn is_direct_clone_url(repo: &str) -> (r: bool)
    ensures
        r == spec_is_direct_clone_url(repo@),
{
    let v = chars_of(repo);
    contains_str(&v, "://") || contains(&v, '@')
}

/// The failure of `git clone`, with a summary of what it printed.
pub open spec fn spec_clone_error(stderr: Seq<char>, stdout: Seq<char>) -> Failure {
    Failure::Other("git clone failed. "@ + spec_command_output_summary(stderr, stdout))
}

/// The failure of `git clone`.
pub fn clone_error(stderr: &str, stdout: &str) -> (e: GbError)
    ensures
        e@ == spec_clone_error(stderr@, stdout@),
{
    let mut m = chars_of("git clone failed. ");
    push_str(&mut m, command_output_summary(stderr, stdout).as_str());
    other(&m)
}

/// A confirmation line, followed by the URL line when there is a URL.
pub open spec fn with_url(line: Seq<char>, url: Option<Seq<char>>) -> Seq<char> {
    line + "\n"@ + match url {
        Some(u) => u + "\n"@,
        None => Seq::empty(),
    }
}

fn push_url_line(out: &mut Vec<char>, url: &Option<String>)
    ensures
        final(out)@ == old(out)@ + "\n"@ + match opt_view(*url) {
            Some(u) => u + "\n"@,
            None => Seq::<char>::empty(),
        },
{
    let ghost start = out@;
    push_str(out, "\n");
    match url {
        Some(u) => {
            push_str(out, u.as_str());
            push_str(out, "\n");
        },
        None => {},
    }
    proof {
        reveal_strlit("");
    }
    assert(out@ =~= start + "\n"@ + match opt_view(*url) {
        Some(u) => u + "\n"@,
        None => Seq::<char>::empty(),
    });
}

/// What `gb repo fork` prints for a fork the API returned or that already existed.
pub open spec fn spec_fork_text(owner: Seq<char>, repo: Seq<char>, forked: Repository) -> Seq<char> {
    with_url(
        "\u{2713} Forked "@ + owner + "/"@ + repo + " \u{2192} "@ + forked.full_name@,
        opt_view(forked.html_url),
    )
}

/// What `gb repo fork` prints for a fork the API returned or that already existed.
pub fn fork_text(owner: &str, repo: &str, forked: &Repository) -> (r: String)
    ensures
        r@ == spec_fork_text(owner@, repo@, *forked),
{
    let mut out = chars_of("\u{2713} Forked ");
    push_str(&mut out, owner);
    push_str(&mut out, "/");
    push_str(&mut out, repo);
    push_str(&mut out, " \u{2192} ");
    push_str(&mut out, forked.full_name.as_str());
    push_url_line(&mut out, &forked.html_url);
    string_of(&out)
}

/// What `gb repo fork` prints after forking through the web form.
pub open spec fn spec_web_fork_text(owner: Seq<char>, repo: Seq<char>, account: Seq<char>, url: Seq<char>) -> Seq<
    char,
> {
    with_url(
        "\u{2713} Forked "@ + owner + "/"@ + repo + " \u{2192} "@ + account + "/"@ + repo,
        Some(url),
    )
}

/// What `gb repo fork` prints after forking through the web form.
pub fn web_fork_text(owner: &str, repo: &str, account: &str, url: &str) -> (r: String)
    ensures
        r@ == spec_web_fork_text(owner@, repo@, account@, url@),
{
    let mut out = chars_of("\u{2713} Forked ");
    push_str(&mut out, owner);
    push_str(&mut out, "/");
    push_str(&mut out, repo);
    push_str(&mut out, " \u{2192} ");
    push_str(&mut out, account);
    push_str(&mut out, "/");
    push_str(&mut out, repo);
    push_url_line(&mut out, &Some(string_of(&chars_of(url))));
    string_of(&out)
}

/// What `gb repo create` prints.
pub open spec fn spec_created_repo_text(r: Repository) -> Seq<char> {
    with_url("\u{2713} Created repository "@ + r.full_name@, opt_view(r.html_url))
}

/// What `gb repo create` prints.
pub fn created_repo_text(r: &Repository) -> (s: String)
    ensures
        s@ == spec_created_repo_text(*r),
{
    let mut out = chars_of("\u{2713} Created repository ");
    push_str(&mut out, r.full_name.as_str());
    push_url_line(&mut out, &r.html_url);
    string_of(&out)
}

/// What `gb issue create` prints.
pub open spec fn spec_created_issue_text(i: Issue) -> Seq<char> {
    with_url(
        "\u{2713} Created issue #"@ + decimal(i.number as nat) + ": "@ + i.title@,
        opt_view(i.html_url),
    )
}

/// What `gb issue create` prints.
pub fn created_issue_text(i: &Issue) -> (s: String)
    ensures
        s@ == spec_created_issue_text(*i),
{
    let mut out = chars_of("\u{2713} Created issue #");
    push_all(&mut out, &decimal_of(i.number));
    push_str(&mut out, ": ");
    push_str(&mut out, i.title.as_str());
    push_url_line(&mut out, &i.html_url);
    string_of(&out)
}

/// The body of an issue creation request: empty label and assignee lists are left out.
pub struct IssueCreate {
    pub title: String,
    pub body: Option<String>,
    pub labels: Option<Vec<String>>,
    pub assignees: Option<Vec<String>>,
}

/// A list sent only when it is not empty.
pub open spec fn unless_empty(v: Seq<Seq<char>>) -> Option<Seq<Seq<char>>> {
    if v.len() == 0 {
        None
    } else {
        Some(v)
    }
}

/// The abstract value of an optional list of strings.
pub open spec fn opt_strs(o: Option<Vec<String>>) -> Option<Seq<Seq<char>>> {
    match o {
        Some(v) => Some(strs(v@)),
        None => None,
    }
}

/// Builds an issue creation request.
pub fn issue_create_request(
    title: String,
    body: Option<String>,
    labels: Vec<String>,
    assignees: Vec<String>,
) -> (r: IssueCreate)
    ensures
        r.title@ == title@,
        opt_view(r.body) == opt_view(body),
        opt_strs(r.labels) == unless_empty(strs(labels@)),
        opt_strs(r.assignees) == unless_empty(strs(assignees@)),
{
    let labels = if labels.len() == 0 {
        None
    } else {
        Some(labels)
    };
    let assignees = if assignees.len() == 0 {
        None
    } else {
        Some(assignees)
    };
    IssueCreate { title, body, labels, assignees }
}

/// The cells of a `gb issue list` row besides state and title: number, author, labels.
pub open spec fn spec_issue_list_row(i: Issue) -> (Seq<char>, Seq<char>, Seq<char>) {
    ("#"@ + decimal(i.number as nat), or_empty(opt_view(i.user_login)), join(strs(i.labels@), ", "@))
}

/// The cells of a `gb issue list` row besides state and title.
pub fn issue_list_row(i: &Issue) -> (r: (String, String, String))
    ensures
        (r.0@, r.1@, r.2@) == spec_issue_list_row(*i),
{
    let mut number = chars_of("#");
    push_all(&mut number, &decimal_of(i.number));
    let author = match &i.user_login {
        Some(u) => string_of(&chars_of(u.as_str())),
        None => {
            proof {
                reveal_strlit("");
            }
            string_of(&Vec::new())
        },
    };
    let mut pieces: Vec<Vec<char>> = Vec::new();
    let mut k: usize = 0;
    while k < i.labels.len()
        invariant
            k <= i.labels@.len(),
            pieces@.map_values(|v: Vec<char>| v@) == strs(i.labels@).take(k as int),
        decreases i.labels@.len() - k,
    {
        let ghost before = pieces@;
        pieces.push(chars_of(i.labels[k].as_str()));
        assert(pieces@.map_values(|v: Vec<char>| v@) =~= before.map_values(|v: Vec<char>| v@).push(
            i.labels@[k as int]@,
        ));
        assert(pieces@.map_values(|v: Vec<char>| v@) =~= strs(i.labels@).take(k + 1));
        k = k + 1;
    }
    assert(strs(i.labels@).take(i.labels@.len() as int) =~= strs(i.labels@));
    (string_of(&number), author, string_of(&join_pieces(&pieces, ", ")))
}

/// The cells of a `gb repo list` row besides the truncated description: name and visibility.
pub open spec fn spec_repo_list_row(r: Repository) -> (Seq<char>, Seq<char>) {
    (r.full_name@, if r.is_private {
        "private"@
    } else {
        "public"@
    })
}

/// The cells of a `gb repo list` row besides the description.
pub fn repo_list_row(r: &Repository) -> (c: (String, String))
    ensures
        (c.0@, c.1@) == spec_repo_list_row(*r),
{
    (
        string_of(&chars_of(r.full_name.as_str())),
        if r.is_private {
            string_of(&chars_of("private"))
        } else {
            string_of(&chars_of("public"))
        },
    )
}

/// A count the API may leave out, shown as zero.
pub open spec fn count(n: Option<u64>) -> nat {
    match n {
        Some(v) => v as nat,
        None => 0,
    }
}

/// The segments of `gb repo view`: name, description, visibility, default branch and fork mark,
/// URL, clone URL (`clone` is the accessible one, when the API reports one), and counts.
pub open spec fn spec_repo_view(r: Repository, clone: Option<Seq<char>>) -> Seq<(Style, Seq<char>)> {
    seq![(Style::Bold, r.full_name@), (Style::Plain, "\n"@)] + (match r.description {
        Some(d) => if d@.len() > 0 {
            seq![(Style::Plain, d@ + "\n"@)]
        } else {
            Seq::empty()
        },
        None => Seq::empty(),
    }) + seq![
        (Style::Plain, "\n"@),
        (Style::Dimmed, "Visibility: "@ + if r.is_private {
            "Private"@
        } else {
            "Public"@
        }),
        (Style::Plain, "  "@),
        (Style::Dimmed, "Default branch: "@ + match r.default_branch {
            Some(b) => b@,
            None => "main"@,
        }),
        (Style::Plain, "  "@),
        (Style::Dimmed, if r.fork {
            "(fork)"@
        } else {
            Seq::empty()
        }),
        (Style::Plain, "\n"@),
    ] + (match r.html_url {
        Some(u) => seq![(Style::Plain, "URL: "@ + u@ + "\n"@)],
        None => Seq::empty(),
    }) + (match clone {
        Some(c) => seq![(Style::Plain, "Clone: "@ + c + "\n"@)],
        None => Seq::empty(),
    }) + seq![
        (
            Style::Plain,
            "\nStars: "@ + decimal(count(r.watchers_count)) + "  Forks: "@ + decimal(
                count(r.forks_count),
            ) + "  Issues: "@ + decimal(count(r.open_issues_count)) + "\n"@,
        ),
    ]
}

fn seg(style: Style, text: Vec<char>) -> (s: Segment)
    ensures
        s.style == style,
        s.text@ == text@,
{
    Segment { style, text: string_of(&text) }
}

/// The styled segments of `gb repo view`.
pub fn repo_view(r: &Repository, clone: Option<&str>) -> (out: Vec<Segment>)
    ensures
        segs(out@) == spec_repo_view(
            *r,
            match clone {
                Some(c) => Some(c@),
                None => None,
            },
        ),
{
    let mut out: Vec<Segment> = Vec::new();
    out.push(seg(Style::Bold, chars_of(r.full_name.as_str())));
    out.push(seg(Style::Plain, chars_of("\n")));
    let ghost a = segs(out@);
    match &r.description {
        Some(d) => {
            let dv = chars_of(d.as_str());
            if dv.len() > 0 {
                let mut t = dv;
                push_str(&mut t, "\n");
                out.push(seg(Style::Plain, t));
            }
        },
        None => {},
    }
    let ghost b = segs(out@);
    out.push(seg(Style::Plain, chars_of("\n")));
    let mut vis = chars_of("Visibility: ");
    if r.is_private {
        push_str(&mut vis, "Private");
    } else {
        push_str(&mut vis, "Public");
    }
    out.push(seg(Style::Dimmed, vis));
    out.push(seg(Style::Plain, chars_of("  ")));
    let mut branch = chars_of("Default branch: ");
    match &r.default_branch {
        Some(bn) => push_str(&mut branch, bn.as_str()),
        None => push_str(&mut branch, "main"),
    }
    out.push(seg(Style::Dimmed, branch));
    out.push(seg(Style::Plain, chars_of("  ")));
    if r.fork {
        out.push(seg(Style::Dimmed, chars_of("(fork)")));
    } else {
        out.push(seg(Style::Dimmed, Vec::new()));
    }
    out.push(seg(Style::Plain, chars_of("\n")));
    let ghost c = segs(out@);
    match &r.html_url {
        Some(u) => {
            let mut t = chars_of("URL: ");
            push_str(&mut t, u.as_str());
            push_str(&mut t, "\n");
            out.push(seg(Style::Plain, t));
        },
        None => {},
    }
    let ghost d = segs(out@);
    match clone {
        Some(cl) => {
            let mut t = chars_of("Clone: ");
            push_str(&mut t, cl);
            push_str(&mut t, "\n");
            out.push(seg(Style::Plain, t));
        },
        None => {},
    }
    let ghost e = segs(out@);
    let mut counts = chars_of("\nStars: ");
    push_all(
        &mut counts,
        &decimal_of(
            match r.watchers_count {
                Some(n) => n,
                None => 0,
            },
        ),
    );
    push_str(&mut counts, "  Forks: ");
    push_all(
        &mut counts,
        &decimal_of(
            match r.forks_count {
                Some(n) => n,
                None => 0,
            },
        ),
    );
    push_str(&mut counts, "  Issues: ");
    push_all(
        &mut counts,
        &decimal_of(
            match r.open_issues_count {
                Some(n) => n,
                None => 0,
            },
        ),
    );
    push_str(&mut counts, "\n");
    out.push(seg(Style::Plain, counts));
    proof {
        reveal_strlit("");
    }
    assert(segs(out@) =~= spec_repo_view(
        *r,
        match clone {
            Some(c) => Some(c@),
            None => None,
        },
    ));
    out
}

} // verus!
