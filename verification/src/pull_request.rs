//! Pull-request decisions: head qualification, matching existing pull requests,
//! reference display and the links shown to the user.
use vstd::prelude::*;

use crate::api_url::{spec_web_base, web_url};
use crate::common::{holds, strs};
use crate::error::{other, str_result, Failure, GbError};
use crate::models::{PullRequest, PullRequestRef, Repository};
use crate::text::{
    chars_of, contains, contains_str, decimal, decimal_of, eq, find, find_char, has_char, has_infix,
    has_prefix, join, join_pieces, lemma_find_char, push_all, push_str, slice, starts_with_str,
    string_of, trim, trimmed,
};

verus! {

// ---------------------------------------------------------------------------
// Qualified heads
// ---------------------------------------------------------------------------

/// The head argument of a new pull request, prefixed with `OWNER:` when an owner is given.
pub open spec fn spec_qualified_head(head: Seq<char>, head_owner: Option<Seq<char>>) -> Result<
    Seq<char>,
    Failure,
> {
    match head_owner {
        None => Ok(head),
        Some(o) => if has_char(head, ':') {
            Err(
                Failure::Other(
                    "Cannot use --head-owner when --head is already qualified as OWNER:BRANCH."@,
                ),
            )
        } else {
            let owner = trim(o);
            if owner.len() == 0 {
                Err(Failure::Other("--head-owner cannot be empty."@))
            } else if has_char(owner, ':') {
                Err(
                    Failure::Other(
                        "--head-owner cannot contain ':'. Expected an unqualified owner name."@,
                    ),
                )
            } else {
                Ok(owner + ":"@ + head)
            }
        },
    }
}

/// The head of a new pull request, qualified by `head_owner` when one is given.
pub fn qualified_head(head: String, head_owner: Option<String>) -> (r: Result<String, GbError>)
    ensures
        str_result(r) == spec_qualified_head(head@, crate::error::opt_view(head_owner)),
{
    let owner = match head_owner {
        None => return Ok(head),
        Some(o) => o,
    };
    let h = chars_of(head.as_str());
    if contains(&h, ':') {
        return Err(
            other(
                &chars_of(
                    "Cannot use --head-owner when --head is already qualified as OWNER:BRANCH.",
                ),
            ),
        );
    }
    let o = chars_of(owner.as_str());
    let t = trimmed(&o);
    if t.len() == 0 {
        return Err(other(&chars_of("--head-owner cannot be empty.")));
    }
    if contains(&t, ':') {
        return Err(
            other(&chars_of("--head-owner cannot contain ':'. Expected an unqualified owner name.")),
        );
    }
    let mut out = t;
    push_str(&mut out, ":");
    push_all(&mut out, &h);
    Ok(string_of(&out))
}

// ---------------------------------------------------------------------------
// Matching pull requests to a head and base
// ---------------------------------------------------------------------------

/// `o` holds a string whose view is `v`.
pub open spec fn holds_view(o: Option<String>, v: Seq<char>) -> bool {
    o matches Some(s) && s@ == v
}

/// `OWNER:BRANCH` split at its first `:`, or just a branch.
pub open spec fn spec_split_head(head: Seq<char>) -> (Option<Seq<char>>, Seq<char>) {
    match find_char(head, ':') {
        Some(i) => (Some(head.subrange(0, i)), head.subrange(i + 1, head.len() as int)),
        None => (None, head),
    }
}

/// The head reference `h` is the branch that `head` names in `owner/repo`.
pub open spec fn spec_head_matches(
    h: PullRequestRef,
    owner: Seq<char>,
    repo: Seq<char>,
    head: Seq<char>,
) -> bool {
    let (head_owner, branch) = spec_split_head(head);
    h.ref_name@ == branch && match head_owner {
        Some(o) => holds_view(h.label, head) || (h.repo matches Some(r) && r.full_name@ == o + "/"@
            + repo),
        None => holds_view(h.label, head) || holds_view(h.label, owner + ":"@ + branch) || (
        h.repo matches Some(r) && r.full_name@ == owner + "/"@ + repo),
    }
}

/// The pull request targets `base` from the branch that `head` names.
pub open spec fn spec_pull_request_matches_head_base(
    pr: PullRequest,
    owner: Seq<char>,
    repo: Seq<char>,
    head: Seq<char>,
    base: Seq<char>,
) -> bool {
    match pr.base {
        None => false,
        Some(b) => b.ref_name@ == base && match pr.head {
            None => false,
            Some(h) => spec_head_matches(h, owner, repo, head),
        },
    }
}

fn opt_is(o: &Option<String>, v: &[char]) -> (r: bool)
    ensures
        r == holds_view(*o, v@),
{
    match o {
        Some(s) => eq(&chars_of(s.as_str()), v),
        None => false,
    }
}

fn repo_named(repo: &Option<Repository>, v: &[char]) -> (r: bool)
    ensures
        r == (*repo matches Some(x) && x.full_name@ == v@),
{
    match repo {
        Some(x) => eq(&chars_of(x.full_name.as_str()), v),
        None => false,
    }
}

/// Whether `pr` targets `base` from the branch that `head` names in `owner/repo`.
pub fn pull_request_matches_head_base(
    pr: &PullRequest,
    owner: &str,
    repo: &str,
    head: &str,
    base: &str,
) -> (r: bool)
    ensures
        r == spec_pull_request_matches_head_base(*pr, owner@, repo@, head@, base@),
{
    let b = match &pr.base {
        None => return false,
        Some(b) => b,
    };
    if !eq(&chars_of(b.ref_name.as_str()), &chars_of(base)) {
        return false;
    }
    let h = match &pr.head {
        None => return false,
        Some(h) => h,
    };
    let hv = chars_of(head);
    proof {
        lemma_find_char(hv@, ':');
    }
    let (head_owner, branch) = match find(&hv, ':') {
        Some(i) => {
            assert(i < hv.len());
            (Some(slice(&hv, 0, i)), slice(&hv, i + 1, hv.len()))
        },
        None => (None, slice(&hv, 0, hv.len())),
    };
    assert(hv@.subrange(0, hv@.len() as int) =~= hv@);
    if !eq(&chars_of(h.ref_name.as_str()), &branch) {
        return false;
    }
    let rv = chars_of(repo);
    match head_owner {
        Some(o) => {
            let mut full = o;
            push_str(&mut full, "/");
            push_all(&mut full, &rv);
            opt_is(&h.label, &hv) || repo_named(&h.repo, &full)
        },
        None => {
            let ov = chars_of(owner);
            let mut qualified = slice(&ov, 0, ov.len());
            push_str(&mut qualified, ":");
            push_all(&mut qualified, &branch);
            let mut full = slice(&ov, 0, ov.len());
            push_str(&mut full, "/");
            push_all(&mut full, &rv);
            assert(ov@.subrange(0, ov@.len() as int) =~= ov@);
            opt_is(&h.label, &hv) || opt_is(&h.label, &qualified) || repo_named(&h.repo, &full)
        },
    }
}

/// The listing reported enough of both references to compare them without a refetch.
pub open spec fn spec_has_comparable_refs(pr: PullRequest) -> bool {
    &&& pr.head matches Some(h) && h.ref_name@.len() > 0 && ((h.label matches Some(l) && l@.len()
        > 0) || (h.repo matches Some(r) && r.full_name@.len() > 0))
    &&& pr.base matches Some(b) && b.ref_name@.len() > 0
}

/// Whether the listing reported enough of both references to compare them.
pub fn pull_request_has_comparable_refs(pr: &PullRequest) -> (r: bool)
    ensures
        r == spec_has_comparable_refs(*pr),
{
    let head_ok = match &pr.head {
        Some(h) => {
            chars_of(h.ref_name.as_str()).len() > 0 && (match &h.label {
                Some(l) => chars_of(l.as_str()).len() > 0,
                None => false,
            } || match &h.repo {
                Some(x) => chars_of(x.full_name.as_str()).len() > 0,
                None => false,
            })
        },
        None => false,
    };
    let base_ok = match &pr.base {
        Some(b) => chars_of(b.ref_name.as_str()).len() > 0,
        None => false,
    };
    head_ok && base_ok
}

/// The API statuses that mean an endpoint is not available on this instance.
pub open spec fn spec_is_unsupported_status(status: u16) -> bool {
    status == 404 || status == 501
}

/// Whether the API status means the endpoint is not available on this instance.
pub fn is_unsupported_status(status: u16) -> (r: bool)
    ensures
        r == spec_is_unsupported_status(status),
{
    status == 404 || status == 501
}

/// The numbers of pull-request issues not yet seen, in order and each once.
pub open spec fn spec_issue_pr_candidates(seen: Seq<u64>, issues: Seq<(u64, bool)>) -> Seq<u64>
    decreases issues.len(),
{
    if issues.len() == 0 {
        Seq::empty()
    } else {
        let prev = spec_issue_pr_candidates(seen, issues.drop_last());
        let (n, is_pr) = issues.last();
        if is_pr && !seen.contains(n) && !prev.contains(n) {
            prev.push(n)
        } else {
            prev
        }
    }
}

fn holds_number(v: &Vec<u64>, n: u64) -> (r: bool)
    ensures
        r == v@.contains(n),
{
    let mut i: usize = 0;
    while i < v.len()
        invariant
            i <= v@.len(),
            forall|j: int| 0 <= j < i ==> v@[j] != n,
        decreases v.len() - i,
    {
        if v[i] == n {
            return true;
        }
        i += 1;
    }
    false
}

/// The pull requests that the issue listing adds to `seen`: issue numbers that
/// are pull requests, not yet seen, each taken once.
pub fn issue_pr_candidates(seen: &Vec<u64>, issues: &Vec<(u64, bool)>) -> (r: Vec<u64>)
    ensures
        r@ == spec_issue_pr_candidates(seen@, issues@),
{
    let mut out: Vec<u64> = Vec::new();
    let mut i: usize = 0;
    while i < issues.len()
        invariant
            i <= issues@.len(),
            out@ == spec_issue_pr_candidates(seen@, issues@.subrange(0, i as int)),
        decreases issues.len() - i,
    {
        assert(issues@.subrange(0, i + 1).drop_last() =~= issues@.subrange(0, i as int));
        let (n, is_pr) = issues[i];
        if is_pr && !holds_number(seen, n) && !holds_number(&out, n) {
            out.push(n);
        }
        i += 1;
    }
    assert(issues@.subrange(0, issues@.len() as int) =~= issues@);
    out
}

// ---------------------------------------------------------------------------
// Display
// ---------------------------------------------------------------------------

/// A reference shown as `OWNER/REPO:BRANCH`, else its label, else its branch.
pub open spec fn spec_format_pr_ref(r: PullRequestRef) -> Seq<char> {
    match r.repo {
        Some(x) => x.full_name@ + ":"@ + r.ref_name@,
        None => match r.label {
            Some(l) => l@,
            None => r.ref_name@,
        },
    }
}

/// A reference for display.
pub fn format_pr_ref(r: &PullRequestRef) -> (s: String)
    ensures
        s@ == spec_format_pr_ref(*r),
{
    match &r.repo {
        Some(x) => {
            let mut out = chars_of(x.full_name.as_str());
            push_str(&mut out, ":");
            push_str(&mut out, r.ref_name.as_str());
            string_of(&out)
        },
        None => match &r.label {
            Some(l) => string_of(&chars_of(l.as_str())),
            None => string_of(&chars_of(r.ref_name.as_str())),
        },
    }
}

/// The browser link of a pull request: the reported one unless it points at the
/// API's `/pulls/` form, else `/OWNER/REPO/pull/NUMBER` on the web base.
pub open spec fn spec_pr_url(base_url: Seq<char>, owner: Seq<char>, repo: Seq<char>, pr: PullRequest) -> Seq<
    char,
> {
    match pr.html_url {
        Some(u) if !has_infix(u@, "/pulls/"@) => u@,
        _ => spec_web_base(base_url) + ("/"@ + owner + "/"@ + repo + "/pull/"@ + decimal(
            pr.number as nat,
        )),
    }
}

/// The browser link of a pull request.
pub fn pr_url(base_url: &str, owner: &str, repo: &str, pr: &PullRequest) -> (r: String)
    ensures
        r@ == spec_pr_url(base_url@, owner@, repo@, *pr),
{
    if let Some(u) = &pr.html_url {
        let uv = chars_of(u.as_str());
        if !contains_str(&uv, "/pulls/") {
            return string_of(&uv);
        }
    }
    let mut path = chars_of("/");
    push_str(&mut path, owner);
    push_str(&mut path, "/");
    push_str(&mut path, repo);
    push_str(&mut path, "/pull/");
    push_all(&mut path, &decimal_of(pr.number));
    let p = string_of(&path);
    web_url(base_url, p.as_str())
}

// ---------------------------------------------------------------------------
// Saved diffs
// ---------------------------------------------------------------------------

/// A line of `s` starts at index `i`.
pub open spec fn line_start(s: Seq<char>, i: int) -> bool {
    i == 0 || (0 < i <= s.len() && s[i - 1] == '\n')
}

/// One of the markers of a unified diff starts at index `i`.
pub open spec fn diff_marker_at(s: Seq<char>, i: int) -> bool {
    let rest = s.subrange(i, s.len() as int);
    has_prefix(rest, "diff --git "@) || has_prefix(rest, "--- "@) || has_prefix(rest, "+++ "@)
        || has_prefix(rest, "@@ "@)
}

/// Some line of the body starts like a unified diff.
pub open spec fn spec_is_diff_body(s: Seq<char>) -> bool {
    exists|i: int| 0 <= i <= s.len() && line_start(s, i) && #[trigger] diff_marker_at(s, i)
}

/// Whether some line of the body starts like a unified diff.
pub fn is_diff_body(body: &str) -> (r: bool)
    ensures
        r == spec_is_diff_body(body@),
{
    let s = chars_of(body);
    let n = s.len();
    let mut i: usize = 0;
    loop
        invariant
            n == s@.len(),
            s@ == body@,
            i <= n,
            forall|j: int| 0 <= j < i && line_start(s@, j) ==> !#[trigger] diff_marker_at(s@, j),
        decreases n - i,
    {
        let at_line = i == 0 || s[i - 1] == '\n';
        assert(at_line == line_start(s@, i as int));
        if at_line {
            let rest = slice(&s, i, n);
            if starts_with_str(&rest, "diff --git ") || starts_with_str(&rest, "--- ")
                || starts_with_str(&rest, "+++ ") || starts_with_str(&rest, "@@ ") {
                assert(diff_marker_at(s@, i as int));
                assert(spec_is_diff_body(s@));
                return true;
            }
            assert(!diff_marker_at(s@, i as int));
        }
        if i == n {
            assert forall|j: int| 0 <= j <= s@.len() && line_start(s@, j) implies !#[trigger] diff_marker_at(
                s@,
                j,
            ) by {
                if j < i {
                }
            }
            assert(!spec_is_diff_body(s@));
            return false;
        }
        i += 1;
    }
}

/// `url` appended to `urls` unless already present.
pub open spec fn spec_push_url(urls: Seq<Seq<char>>, url: Option<Seq<char>>) -> Seq<Seq<char>> {
    match url {
        Some(u) => if urls.contains(u) {
            urls
        } else {
            urls.push(u)
        },
        None => urls,
    }
}

/// Appends `url` to `urls` unless it is missing or already present.
pub fn push_url(urls: &mut Vec<String>, url: Option<&str>)
    ensures
        strs(final(urls)@) == spec_push_url(strs(old(urls)@), match url {
            Some(u) => Some(u@),
            None => None,
        }),
{
    let u = match url {
        None => return,
        Some(u) => u,
    };
    let s = string_of(&chars_of(u));
    if !holds(urls, &s) {
        urls.push(s);
        assert(strs(urls@) =~= strs(old(urls)@).push(u@));
    }
}

/// The URLs to try for a saved diff: the pull request's diff and patch links,
/// else the issue's, then the web path of the `.diff`, each once.
pub open spec fn spec_saved_diff_urls(
    pr_diff: Option<Seq<char>>,
    pr_patch: Option<Seq<char>>,
    issue_diff: Option<Seq<char>>,
    issue_patch: Option<Seq<char>>,
    derived: Seq<char>,
) -> Seq<Seq<char>> {
    let first = spec_push_url(spec_push_url(Seq::empty(), pr_diff), pr_patch);
    let second = if first.len() == 0 {
        spec_push_url(spec_push_url(first, issue_diff), issue_patch)
    } else {
        first
    };
    spec_push_url(second, Some(derived))
}

/// The URLs to try for a saved diff, in order.
pub fn saved_diff_urls(
    pr_diff: Option<&str>,
    pr_patch: Option<&str>,
    issue_diff: Option<&str>,
    issue_patch: Option<&str>,
    derived: &str,
) -> (r: Vec<String>)
    ensures
        strs(r@) == spec_saved_diff_urls(
            match pr_diff {
                Some(u) => Some(u@),
                None => None,
            },
            match pr_patch {
                Some(u) => Some(u@),
                None => None,
            },
            match issue_diff {
                Some(u) => Some(u@),
                None => None,
            },
            match issue_patch {
                Some(u) => Some(u@),
                None => None,
            },
            derived@,
        ),
{
    let mut urls: Vec<String> = Vec::new();
    assert(strs(urls@) =~= Seq::<Seq<char>>::empty());
    push_url(&mut urls, pr_diff);
    push_url(&mut urls, pr_patch);
    if urls.len() == 0 {
        push_url(&mut urls, issue_diff);
        push_url(&mut urls, issue_patch);
    }
    push_url(&mut urls, Some(derived));
    urls
}

/// What one attempt to fetch a saved diff yields: the diff, or a failure line.
pub open spec fn spec_saved_diff_attempt(url: Seq<char>, outcome: Result<Seq<char>, Seq<char>>) -> Result<
    Seq<char>,
    Seq<char>,
> {
    match outcome {
        Ok(body) => if spec_is_diff_body(body) {
            Ok(body)
        } else if trim(body).len() == 0 {
            Err(url + ": empty saved diff"@)
        } else {
            Err(url + ": response was not a diff"@)
        },
        Err(e) => Err(url + ": "@ + e),
    }
}

/// Classifies one attempt to fetch a saved diff from `url`.
pub fn saved_diff_attempt(url: &str, outcome: Result<String, String>) -> (r: Result<String, String>)
    ensures
        match r {
            Ok(b) => spec_saved_diff_attempt(url@, match outcome {
                Ok(x) => Ok(x@),
                Err(e) => Err(e@),
            }) == Ok::<Seq<char>, Seq<char>>(b@),
            Err(m) => spec_saved_diff_attempt(url@, match outcome {
                Ok(x) => Ok(x@),
                Err(e) => Err(e@),
            }) == Err::<Seq<char>, Seq<char>>(m@),
        },
{
    let mut line = chars_of(url);
    match outcome {
        Ok(body) => {
            if is_diff_body(body.as_str()) {
                return Ok(body);
            }
            if trimmed(&chars_of(body.as_str())).len() == 0 {
                push_str(&mut line, ": empty saved diff");
            } else {
                push_str(&mut line, ": response was not a diff");
            }
            Err(string_of(&line))
        },
        Err(e) => {
            push_str(&mut line, ": ");
            push_str(&mut line, e.as_str());
            Err(string_of(&line))
        },
    }
}

/// The explanation when no saved diff could be fetched: every attempt's failure, in order.
pub open spec fn spec_saved_diff_failure(failures: Seq<Seq<char>>) -> Seq<char> {
    "No saved PR diff could be fetched from GitBucket. "@ + join(failures, "; "@)
}

/// The explanation when no saved diff could be fetched.
pub fn saved_diff_failure(failures: &Vec<String>) -> (r: String)
    ensures
        r@ == spec_saved_diff_failure(strs(failures@)),
{
    let mut pieces: Vec<Vec<char>> = Vec::new();
    let mut i: usize = 0;
    while i < failures.len()
        invariant
            i <= failures@.len(),
            pieces@.map_values(|v: Vec<char>| v@) == strs(failures@).take(i as int),
        decreases failures@.len() - i,
    {
        let ghost before = pieces@;
        pieces.push(chars_of(failures[i].as_str()));
        assert(pieces@.map_values(|v: Vec<char>| v@) =~= before.map_values(|v: Vec<char>| v@).push(
            failures@[i as int]@,
        ));
        assert(pieces@.map_values(|v: Vec<char>| v@) =~= strs(failures@).take(i + 1));
        i = i + 1;
    }
    assert(strs(failures@).take(failures@.len() as int) =~= strs(failures@));
    let mut out = chars_of("No saved PR diff could be fetched from GitBucket. ");
    push_all(&mut out, &join_pieces(&pieces, "; "));
    string_of(&out)
}


/// The failure of looking a pull request up by number in a listing.
pub open spec fn pr_not_found(number: u64) -> Failure {
    Failure::Other("Pull request #"@ + decimal(number as nat) + " not found"@)
}

/// The position of the first pull request numbered `number` in a listing of numbers.
pub fn find_listed_pr(numbers: &Vec<u64>, number: u64) -> (r: Result<usize, GbError>)
    ensures
        match r {
            Ok(i) => i < numbers@.len() && numbers@[i as int] == number && forall|j: int|
                0 <= j < i ==> numbers@[j] != number,
            Err(e) => !numbers@.contains(number) && e@ == pr_not_found(number),
        },
{
    let mut i: usize = 0;
    while i < numbers.len()
        invariant
            i <= numbers@.len(),
            forall|j: int| 0 <= j < i ==> numbers@[j] != number,
        decreases numbers.len() - i,
    {
        if numbers[i] == number {
            return Ok(i);
        }
        i += 1;
    }
    let mut m = chars_of("Pull request #");
    push_all(&mut m, &decimal_of(number));
    push_str(&mut m, " not found");
    Err(other(&m))
}

} // verus!
