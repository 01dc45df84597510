//! What `gb pr list`, `gb pr view` and `gb pr comment list` show, as styled text segments.
use vstd::prelude::*;

use crate::error::opt_view;
use crate::models::{Comment, PullRequest, PullRequestRef};
use crate::text::{chars_of, decimal, decimal_of, is_whitespace, is_ws, push_all, push_str, string_of};

verus! {

/// How a piece of terminal output is styled.
#[derive(Clone, Copy, PartialEq, Eq, Structural, Debug)]
pub enum Style {
    Plain,
    Bold,
    Dimmed,
    Cyan,
    Green,
    /// Coloured by the state it names (open, closed, merged).
    State,
}

/// A piece of terminal output with its style.
pub struct Segment {
    pub style: Style,
    pub text: String,
}

/// The abstract value of a list of segments.
pub open spec fn segs(v: Seq<Segment>) -> Seq<(Style, Seq<char>)> {
    v.map_values(|s: Segment| (s.style, s.text@))
}

fn push_seg(out: &mut Vec<Segment>, style: Style, text: Vec<char>)
    ensures
        segs(final(out)@) == segs(old(out)@).push((style, text@)),
{
    let ghost before = out@;
    out.push(Segment { style, text: string_of(&text) });
    assert(segs(out@) =~= segs(before).push((style, text@)));
}

/// The state shown for a pull request: `merged` once merged, else its state.
pub open spec fn spec_pr_display_state(pr: PullRequest) -> Seq<char> {
    if pr.merged == Some(true) {
        "merged"@
    } else {
        pr.state@
    }
}

/// The state shown for a pull request.
pub fn pr_display_state(pr: &PullRequest) -> (r: String)
    ensures
        r@ == spec_pr_display_state(*pr),
{
    match pr.merged {
        Some(true) => string_of(&chars_of("merged")),
        _ => string_of(&chars_of(pr.state.as_str())),
    }
}

/// A value the API may leave out, shown as empty.
pub open spec fn or_empty(o: Option<Seq<char>>) -> Seq<char> {
    match o {
        Some(v) => v,
        None => Seq::empty(),
    }
}

fn copy_or_empty(o: &Option<String>) -> (r: String)
    ensures
        r@ == or_empty(opt_view(*o)),
{
    match o {
        Some(v) => string_of(&chars_of(v.as_str())),
        None => {
            proof {
                reveal_strlit("");
            }
            string_of(&Vec::new())
        },
    }
}

/// The cells of a `gb pr list` row besides the title: number, state, head branch, author.
pub open spec fn spec_pr_list_row(pr: PullRequest) -> (Seq<char>, Seq<char>, Seq<char>, Seq<char>) {
    (
        "#"@ + decimal(pr.number as nat),
        spec_pr_display_state(pr),
        match pr.head {
            Some(h) => h.ref_name@,
            None => Seq::empty(),
        },
        or_empty(opt_view(pr.user_login)),
    )
}

/// The cells of a `gb pr list` row besides the title.
pub fn pr_list_row(pr: &PullRequest) -> (r: (String, String, String, String))
    ensures
        (r.0@, r.1@, r.2@, r.3@) == spec_pr_list_row(*pr),
{
    let mut number = chars_of("#");
    push_all(&mut number, &decimal_of(pr.number));
    let branch = match &pr.head {
        Some(h) => string_of(&chars_of(h.ref_name.as_str())),
        None => {
            proof {
                reveal_strlit("");
            }
            string_of(&Vec::new())
        },
    };
    (string_of(&number), pr_display_state(pr), branch, copy_or_empty(&pr.user_login))
}

/// `s` with its whitespace-separated words joined by single spaces.
pub open spec fn collapsed(s: Seq<char>) -> Seq<char>
    decreases s.len(),
{
    if s.len() == 0 {
        Seq::empty()
    } else {
        let p = collapsed(s.drop_last());
        let c = s.last();
        if is_whitespace(c) {
            p
        } else if s.len() >= 2 && is_whitespace(s[s.len() - 2]) && p.len() > 0 {
            p.push(' ').push(c)
        } else {
            p.push(c)
        }
    }
}

/// Joins the whitespace-separated words of `s` with single spaces.
pub fn collapse_whitespace(s: &str) -> (r: String)
    ensures
        r@ == collapsed(s@),
{
    let v = chars_of(s);
    let mut out: Vec<char> = Vec::new();
    let mut i: usize = 0;
    assert(v@.take(0) =~= Seq::<char>::empty());
    while i < v.len()
        invariant
            i <= v@.len(),
            out@ == collapsed(v@.take(i as int)),
        decreases v@.len() - i,
    {
        let c = v[i];
        let ghost pre = v@.take(i + 1);
        assert(pre.drop_last() =~= v@.take(i as int));
        assert(pre.last() == c);
        if !is_ws(c) {
            if i >= 1 && is_ws(v[i - 1]) && out.len() > 0 {
                assert(pre[pre.len() - 2] == v@[i - 1]);
                out.push(' ');
            } else {
                if i >= 1 {
                    assert(pre[pre.len() - 2] == v@[i - 1]);
                }
            }
            out.push(c);
        }
        i = i + 1;
    }
    assert(v@.take(v@.len() as int) =~= v@);
    string_of(&out)
}

/// The cells of a `gb pr comment list` row: id, author, date, and the body on one line.
pub open spec fn spec_comment_row(c: Comment) -> (Seq<char>, Seq<char>, Seq<char>, Seq<char>) {
    (
        decimal(c.id as nat),
        or_empty(opt_view(c.user_login)),
        or_empty(opt_view(c.created_at)),
        collapsed(or_empty(opt_view(c.body))),
    )
}

/// The cells of a `gb pr comment list` row.
pub fn comment_row(c: &Comment) -> (r: (String, String, String, String))
    ensures
        (r.0@, r.1@, r.2@, r.3@) == spec_comment_row(*c),
{
    let body = copy_or_empty(&c.body);
    (
        string_of(&decimal_of(c.id)),
        copy_or_empty(&c.user_login),
        copy_or_empty(&c.created_at),
        collapse_whitespace(body.as_str()),
    )
}

// ---------------------------------------------------------------------------
// `gb pr view`
// ---------------------------------------------------------------------------

/// The segments of one comment in `gb pr view`.
pub open spec fn comment_segs(c: Comment) -> Seq<(Style, Seq<char>)> {
    seq![
        (Style::Plain, "\n"@),
        (Style::Bold, match c.user_login {
            Some(u) => u@,
            None => "unknown"@,
        }),
        (Style::Plain, " ("@),
        (Style::Dimmed, or_empty(opt_view(c.created_at))),
        (Style::Plain, ")\n"@),
    ] + match c.body {
        Some(b) => seq![(Style::Plain, b@ + "\n"@)],
        None => Seq::empty(),
    }
}

/// The segments of the comments in `gb pr view`, in order.
pub open spec fn comments_segs(cs: Seq<Comment>) -> Seq<(Style, Seq<char>)>
    decreases cs.len(),
{
    if cs.len() == 0 {
        Seq::empty()
    } else {
        comments_segs(cs.drop_last()) + comment_segs(cs.last())
    }
}

/// The title line and state of `gb pr view`.
pub open spec fn header_segs(pr: PullRequest) -> Seq<(Style, Seq<char>)> {
    seq![
        (Style::Bold, pr.title@),
        (Style::Plain, " "@),
        (Style::Dimmed, "#"@ + decimal(pr.number as nat)),
        (Style::Plain, "\n"@),
        (Style::State, spec_pr_display_state(pr)),
        (Style::Plain, "\n\n"@),
    ]
}

/// The base and head branches, when both are known.
pub open spec fn refs_segs(pr: PullRequest) -> Seq<(Style, Seq<char>)> {
    match (pr.head, pr.base) {
        (Some(h), Some(b)) => seq![
            (Style::Cyan, b.ref_name@),
            (Style::Plain, " \u{2190} "@),
            (Style::Green, h.ref_name@),
            (Style::Plain, "\n"@),
        ],
        _ => Seq::empty(),
    }
}

/// The author and creation date line.
pub open spec fn meta_segs(pr: PullRequest) -> Seq<(Style, Seq<char>)> {
    (match pr.user_login {
        Some(u) => seq![(Style::Plain, "Author: "@ + u@ + "  "@)],
        None => Seq::empty(),
    }) + (match pr.created_at {
        Some(c) => seq![(Style::Plain, "Created: "@ + c@)],
        None => Seq::empty(),
    }) + seq![(Style::Plain, "\n"@)]
}

/// The body, when there is one.
pub open spec fn body_segs(pr: PullRequest) -> Seq<(Style, Seq<char>)> {
    match pr.body {
        Some(b) => if b@.len() > 0 {
            seq![(Style::Plain, "\n"@ + b@ + "\n"@)]
        } else {
            Seq::empty()
        },
        None => Seq::empty(),
    }
}

/// The comments block, when comments were asked for and there are some.
pub open spec fn comments_block(comments: Option<Seq<Comment>>) -> Seq<(Style, Seq<char>)> {
    match comments {
        Some(cs) => if cs.len() > 0 {
            seq![
                (Style::Plain, "\n"@),
                (Style::Dimmed, "--- Comments ---"@),
                (Style::Plain, "\n"@),
            ] + comments_segs(cs)
        } else {
            Seq::empty()
        },
        None => Seq::empty(),
    }
}

/// The segments of `gb pr view`: title and number, state, base and head branches, author and
/// date, body, and the comments when they were asked for.
pub open spec fn spec_format_pr_view(pr: PullRequest, comments: Option<Seq<Comment>>) -> Seq<
    (Style, Seq<char>),
> {
    header_segs(pr) + refs_segs(pr) + meta_segs(pr) + body_segs(pr) + comments_block(comments)
}

fn push_comment_segs(out: &mut Vec<Segment>, c: &Comment)
    ensures
        segs(final(out)@) == segs(old(out)@) + comment_segs(*c),
{
    let ghost start = segs(out@);
    push_seg(out, Style::Plain, chars_of("\n"));
    let author = match &c.user_login {
        Some(u) => chars_of(u.as_str()),
        None => chars_of("unknown"),
    };
    push_seg(out, Style::Bold, author);
    push_seg(out, Style::Plain, chars_of(" ("));
    push_seg(out, Style::Dimmed, chars_of(copy_or_empty(&c.created_at).as_str()));
    push_seg(out, Style::Plain, chars_of(")\n"));
    match &c.body {
        Some(b) => {
            let mut t = chars_of(b.as_str());
            push_str(&mut t, "\n");
            push_seg(out, Style::Plain, t);
        },
        None => {},
    }
    assert(segs(out@) =~= start + comment_segs(*c));
}

fn push_header_segs(out: &mut Vec<Segment>, pr: &PullRequest)
    ensures
        segs(final(out)@) == segs(old(out)@) + header_segs(*pr),
{
    let ghost start = segs(out@);
    push_seg(out, Style::Bold, chars_of(pr.title.as_str()));
    push_seg(out, Style::Plain, chars_of(" "));
    let mut num = chars_of("#");
    push_all(&mut num, &decimal_of(pr.number));
    push_seg(out, Style::Dimmed, num);
    push_seg(out, Style::Plain, chars_of("\n"));
    push_seg(out, Style::State, chars_of(pr_display_state(pr).as_str()));
    push_seg(out, Style::Plain, chars_of("\n\n"));
    assert(segs(out@) =~= start + header_segs(*pr));
}

fn push_ref_segs(out: &mut Vec<Segment>, pr: &PullRequest)
    ensures
        segs(final(out)@) == segs(old(out)@) + refs_segs(*pr),
{
    let ghost start = segs(out@);
    match (&pr.head, &pr.base) {
        (Some(h), Some(b)) => {
            push_seg(out, Style::Cyan, chars_of(b.ref_name.as_str()));
            push_seg(out, Style::Plain, chars_of(" \u{2190} "));
            push_seg(out, Style::Green, chars_of(h.ref_name.as_str()));
            push_seg(out, Style::Plain, chars_of("\n"));
        },
        _ => {},
    }
    assert(segs(out@) =~= start + refs_segs(*pr));
}

fn push_meta_segs(out: &mut Vec<Segment>, pr: &PullRequest)
    ensures
        segs(final(out)@) == segs(old(out)@) + meta_segs(*pr),
{
    let ghost start = segs(out@);
    match &pr.user_login {
        Some(u) => {
            let mut t = chars_of("Author: ");
            push_str(&mut t, u.as_str());
            push_str(&mut t, "  ");
            push_seg(out, Style::Plain, t);
        },
        None => {},
    }
    match &pr.created_at {
        Some(c) => {
            let mut t = chars_of("Created: ");
            push_str(&mut t, c.as_str());
            push_seg(out, Style::Plain, t);
        },
        None => {},
    }
    push_seg(out, Style::Plain, chars_of("\n"));
    assert(segs(out@) =~= start + meta_segs(*pr));
}

fn push_body_segs(out: &mut Vec<Segment>, pr: &PullRequest)
    ensures
        segs(final(out)@) == segs(old(out)@) + body_segs(*pr),
{
    let ghost start = segs(out@);
    match &pr.body {
        Some(b) => {
            let bv = chars_of(b.as_str());
            if bv.len() > 0 {
                let mut t = chars_of("\n");
                push_all(&mut t, &bv);
                push_str(&mut t, "\n");
                push_seg(out, Style::Plain, t);
            }
        },
        None => {},
    }
    assert(segs(out@) =~= start + body_segs(*pr));
}

/// The styled comments section of `gb issue view` and `gb pr view`: nothing when there are no
/// comments, else a dimmed heading and each comment's author, date and body.
pub fn format_comments_block(comments: &Vec<Comment>) -> (r: Vec<Segment>)
    ensures
        segs(r@) == comments_block(Some(comments@)),
{
    let mut out: Vec<Segment> = Vec::new();
    assert(segs(out@) =~= Seq::<(Style, Seq<char>)>::empty());
    push_comments_block(&mut out, Some(comments));
    assert(segs(out@) =~= comments_block(Some(comments@)));
    out
}

fn push_comments_block(out: &mut Vec<Segment>, comments: Option<&Vec<Comment>>)
    ensures
        segs(final(out)@) == segs(old(out)@) + comments_block(
            match comments {
                Some(cs) => Some(cs@),
                None => None,
            },
        ),
{
    let ghost begin = segs(out@);
    match comments {
        Some(cs) => {
            if cs.len() > 0 {
                push_seg(out, Style::Plain, chars_of("\n"));
                push_seg(out, Style::Dimmed, chars_of("--- Comments ---"));
                push_seg(out, Style::Plain, chars_of("\n"));
                let ghost start = segs(out@);
                let mut i: usize = 0;
                assert(cs@.take(0) =~= Seq::<Comment>::empty());
                while i < cs.len()
                    invariant
                        i <= cs@.len(),
                        segs(out@) == start + comments_segs(cs@.take(i as int)),
                    decreases cs@.len() - i,
                {
                    push_comment_segs(out, &cs[i]);
                    assert(cs@.take(i + 1).drop_last() =~= cs@.take(i as int));
                    assert(segs(out@) =~= start + comments_segs(cs@.take(i + 1)));
                    i = i + 1;
                }
                assert(cs@.take(cs@.len() as int) =~= cs@);
            }
        },
        None => {},
    }
    assert(segs(out@) =~= begin + comments_block(
        match comments {
            Some(cs) => Some(cs@),
            None => None,
        },
    ));
}

/// The styled segments of `gb pr view`; `comments` are given when they were asked for.
pub fn format_pr_view(pr: &PullRequest, comments: Option<&Vec<Comment>>) -> (r: Vec<Segment>)
    ensures
        segs(r@) == spec_format_pr_view(
            *pr,
            match comments {
                Some(cs) => Some(cs@),
                None => None,
            },
        ),
{
    let mut out: Vec<Segment> = Vec::new();
    assert(segs(out@) =~= Seq::<(Style, Seq<char>)>::empty());
    push_header_segs(&mut out, pr);
    push_ref_segs(&mut out, pr);
    push_meta_segs(&mut out, pr);
    push_body_segs(&mut out, pr);
    push_comments_block(&mut out, comments);
    assert(segs(out@) =~= spec_format_pr_view(
        *pr,
        match comments {
            Some(cs) => Some(cs@),
            None => None,
        },
    ));
    out
}

/// One side of a pull request for display: `REPO:BRANCH`, else its label, else the branch.
pub open spec fn spec_ref_line(r: PullRequestRef) -> Seq<char> {
    crate::pull_request::spec_format_pr_ref(r)
}

/// The `Head:` and `Base:` lines printed after creating or finding a pull request.
pub open spec fn spec_pr_refs_text(pr: PullRequest) -> Seq<char> {
    (match pr.head {
        Some(h) => "Head: "@ + spec_ref_line(h) + "\n"@,
        None => Seq::empty(),
    }) + (match pr.base {
        Some(b) => "Base: "@ + spec_ref_line(b) + "\n"@,
        None => Seq::empty(),
    })
}

/// The `Head:` and `Base:` lines of a pull request.
pub fn pr_refs_text(pr: &PullRequest) -> (r: String)
    ensures
        r@ == spec_pr_refs_text(*pr),
{
    let mut out: Vec<char> = Vec::new();
    match &pr.head {
        Some(h) => {
            push_str(&mut out, "Head: ");
            push_str(&mut out, crate::pull_request::format_pr_ref(h).as_str());
            push_str(&mut out, "\n");
        },
        None => {},
    }
    let ghost mid = out@;
    match &pr.base {
        Some(b) => {
            push_str(&mut out, "Base: ");
            push_str(&mut out, crate::pull_request::format_pr_ref(b).as_str());
            push_str(&mut out, "\n");
        },
        None => {},
    }
    proof {
        reveal_strlit("");
    }
    assert(out@ =~= spec_pr_refs_text(*pr));
    string_of(&out)
}

} // verus!
