//! Shared argument handling: repositories, states, name lists and host resolution.
use vstd::prelude::*;

use crate::api_url::is_absolute;
use crate::error::{auth_error, opt_view, other, Failure, GbError};
use crate::text::{
    chars_of, eq_str, find, find_char, has_prefix, lemma_find_char, lemma_split_on_len,
    lowered, lower, non_empty, push_all, push_str, slice, split_on, starts_with_str, string_of,
    strip_prefix, trim, trim_end_all_str, trim_end_matches, trim_start_all, trim_start_matches,
    trimmed,
};
use crate::weburl::{parse_url, url_parse_outcome};

verus! {

// ---------------------------------------------------------------------------
// Views and specifications
// ---------------------------------------------------------------------------

/// The views of a list of strings.
pub open spec fn strs(v: Seq<String>) -> Seq<Seq<char>> {
    v.map_values(|s: String| s@)
}

/// The abstract value of a fallible owner/repository pair.
pub open spec fn pair_result(r: Result<(String, String), GbError>) -> Result<
    (Seq<char>, Seq<char>),
    Failure,
> {
    match r {
        Ok((a, b)) => Ok((a@, b@)),
        Err(e) => Err(e@),
    }
}

/// The abstract value of a fallible optional string.
pub open spec fn opt_str_result(r: Result<Option<String>, GbError>) -> Result<
    Option<Seq<char>>,
    Failure,
> {
    match r {
        Ok(o) => Ok(opt_view(o)),
        Err(e) => Err(e@),
    }
}

/// The rejection of a malformed `OWNER/REPO` argument.
pub open spec fn bad_repo_format(s: Seq<char>) -> Failure {
    Failure::Other("Invalid repository format: '"@ + s + "'. Expected OWNER/REPO"@)
}

/// `OWNER/REPO` split at its first `/`, both parts non-empty.
pub open spec fn spec_parse_owner_repo(s: Seq<char>) -> Result<(Seq<char>, Seq<char>), Failure> {
    match find_char(s, '/') {
        Some(i) => {
            let owner = s.subrange(0, i);
            let repo = s.subrange(i + 1, s.len() as int);
            if owner.len() > 0 && repo.len() > 0 {
                Ok((owner, repo))
            } else {
                Err(bad_repo_format(s))
            }
        },
        None => Err(bad_repo_format(s)),
    }
}

/// The list-state filter, lower-cased, when it is `open`, `closed` or `all`.
pub open spec fn spec_normalize_list_state(state: Seq<char>) -> Result<Seq<char>, Failure> {
    let l = lower(state);
    if l == "open"@ || l == "closed"@ || l == "all"@ {
        Ok(l)
    } else {
        Err(
            Failure::Other(
                "Invalid state '"@ + state + "'. Expected one of: open, closed, all"@,
            ),
        )
    }
}

/// An optional edit state, lower-cased, when it is `open` or `closed`.
pub open spec fn spec_normalize_edit_state(kind: Seq<char>, state: Option<Seq<char>>) -> Result<
    Option<Seq<char>>,
    Failure,
> {
    match state {
        None => Ok(None),
        Some(v) => {
            let l = lower(v);
            if l == "open"@ || l == "closed"@ {
                Ok(Some(l))
            } else {
                Err(Failure::Other("Invalid "@ + kind + " state. Expected 'open' or 'closed'."@))
            }
        },
    }
}

/// The trimmed, non-empty members of `vs`, in order.
pub open spec fn spec_normalize_str_vec(vs: Seq<Seq<char>>) -> Seq<Seq<char>>
    decreases vs.len(),
{
    if vs.len() == 0 {
        Seq::empty()
    } else {
        let prev = spec_normalize_str_vec(vs.drop_last());
        let t = trim(vs.last());
        if t.len() > 0 {
            prev.push(t)
        } else {
            prev
        }
    }
}

/// The members of `vs` that `other` does not hold, in order.
pub open spec fn spec_without(vs: Seq<Seq<char>>, other: Seq<Seq<char>>) -> Seq<Seq<char>>
    decreases vs.len(),
{
    if vs.len() == 0 {
        Seq::empty()
    } else {
        let prev = spec_without(vs.drop_last(), other);
        if other.contains(vs.last()) {
            prev
        } else {
            prev.push(vs.last())
        }
    }
}

/// `vs` followed by each member of `additions` that is not yet present.
pub open spec fn spec_add_missing(vs: Seq<Seq<char>>, additions: Seq<Seq<char>>) -> Seq<Seq<char>>
    decreases additions.len(),
{
    if additions.len() == 0 {
        vs
    } else {
        let prev = spec_add_missing(vs, additions.drop_last());
        if prev.contains(additions.last()) {
            prev
        } else {
            prev.push(additions.last())
        }
    }
}

/// Removals applied first, then the additions appended when missing.
pub open spec fn spec_merge_named_values(
    current: Seq<Seq<char>>,
    additions: Seq<Seq<char>>,
    removals: Seq<Seq<char>>,
) -> Seq<Seq<char>> {
    spec_add_missing(spec_without(current, removals), additions)
}

/// The second `:`-separated piece of `s`, or nothing when there is none.
pub open spec fn spec_second_piece(s: Seq<char>, c: char) -> Seq<char> {
    match find_char(s, c) {
        None => Seq::empty(),
        Some(i) => {
            let after = s.subrange(i + 1, s.len() as int);
            match find_char(after, c) {
                None => after,
                Some(j) => after.subrange(0, j),
            }
        },
    }
}

/// The non-empty `/`-separated segments of a path.
pub open spec fn segments(path: Seq<char>) -> Seq<Seq<char>> {
    non_empty(split_on(path, '/'))
}

/// Owner and repository from the last two segments of a repository path,
/// with a trailing `.git` removed from the repository.
pub open spec fn spec_parse_repo_path(path: Seq<char>) -> Result<(Seq<char>, Seq<char>), Failure> {
    let segs = segments(path);
    if segs.len() < 2 {
        Err(Failure::RepoNotFound)
    } else {
        let owner = segs[segs.len() - 2];
        let repo = trim_end_matches(segs[segs.len() - 1], ".git"@);
        if owner.len() == 0 || repo.len() == 0 {
            Err(Failure::RepoNotFound)
        } else {
            Ok((owner, repo))
        }
    }
}

/// The repository path named by a git remote URL, SSH (`git@host:path`) or HTTP(S).
pub open spec fn spec_git_url_path(url: Seq<char>) -> Option<Seq<char>> {
    match strip_prefix(url, "git@"@) {
        Some(rest) => Some(spec_second_piece(rest, ':')),
        None => if has_prefix(url, "http://"@) || has_prefix(url, "https://"@) {
            match url_parse_outcome(url) {
                Ok(u) => {
                    let p = trim_start_matches(u.4, "/"@);
                    match strip_prefix(p, "git/"@) {
                        Some(q) => Some(q),
                        None => Some(p),
                    }
                },
                Err(_) => None,
            }
        } else {
            None
        },
    }
}

/// Owner and repository named by a git remote URL.
pub open spec fn spec_parse_git_url(url: Seq<char>) -> Result<(Seq<char>, Seq<char>), Failure> {
    match spec_git_url_path(url) {
        Some(p) => spec_parse_repo_path(p),
        None => Err(Failure::RepoNotFound),
    }
}

/// The host to use, or why there is none.
pub open spec fn spec_resolve_hostname(configured: Option<Seq<char>>, has_active_profile: bool) -> Result<
    Seq<char>,
    Failure,
> {
    match configured {
        Some(h) => Ok(h),
        None => if has_active_profile {
            Err(
                Failure::Auth(
                    "No GitBucket host or URL configured for the selected profile. Pass --hostname or set the profile default host."@,
                ),
            )
        } else {
            Err(Failure::Auth("No GitBucket host or URL configured. Run `gb auth login` first."@))
        },
    }
}

/// The repository to use: the configured one, else the one the `origin` remote names.
pub open spec fn spec_resolve_repo(configured: Option<Seq<char>>, origin_output: Option<Seq<char>>) -> Result<
    (Seq<char>, Seq<char>),
    Failure,
> {
    match configured {
        Some(r) => spec_parse_owner_repo(r),
        None => match origin_output {
            Some(out) => spec_parse_git_url(trim(out)),
            None => Err(Failure::RepoNotFound),
        },
    }
}

/// The user name for web sign-in: `GB_USER`, else the stored user, else an error.
pub open spec fn spec_web_username(env_user: Option<Seq<char>>, stored_user: Seq<char>) -> Result<
    Seq<char>,
    Failure,
> {
    match env_user {
        Some(u) => Ok(u),
        None => if stored_user.len() > 0 {
            Ok(stored_user)
        } else {
            Err(
                Failure::Auth(
                    "GitBucket web actions require a username. Run `gb auth login` first or set `GB_USER`."@,
                ),
            )
        },
    }
}

// ---------------------------------------------------------------------------
// Lemmas
// ---------------------------------------------------------------------------

/// Pushing a character that is not the separator extends the last piece.
proof fn lemma_split_step(s: Seq<char>, c: char, x: char)
    ensures
        split_on(s.push(x), c) == (if x == c {
            split_on(s, c).push(Seq::empty())
        } else {
            split_on(s, c).update(
                split_on(s, c).len() - 1,
                split_on(s, c).last().push(x),
            )
        }),
{
    assert(s.push(x).drop_last() =~= s);
}

/// `non_empty` of a list with its last member replaced.
proof fn lemma_non_empty_update_last(ps: Seq<Seq<char>>, x: Seq<char>)
    requires
        ps.len() >= 1,
    ensures
        ps.update(ps.len() - 1, x).drop_last() == ps.drop_last(),
{
    assert(ps.update(ps.len() - 1, x).drop_last() =~= ps.drop_last());
}

/// Every element that `spec_without` keeps comes from `vs` and is not in `other`.
pub proof fn lemma_without_members(vs: Seq<Seq<char>>, other: Seq<Seq<char>>)
    ensures
        forall|x: Seq<char>| #[trigger]
            spec_without(vs, other).contains(x) <==> (vs.contains(x) && !other.contains(x)),
    decreases vs.len(),
{
    broadcast use vstd::seq_lib::group_seq_properties;

    if vs.len() > 0 {
        lemma_without_members(vs.drop_last(), other);
        let d = vs.drop_last();
        let a = vs.last();
        let prev = spec_without(d, other);
        assert forall|x: Seq<char>| #[trigger]
            spec_without(vs, other).contains(x) <==> (vs.contains(x) && !other.contains(x)) by {
            lemma_push_contains(d, a, x);
            lemma_push_contains(prev, a, x);
            assert(vs =~= d.push(a));
        }
    }
}

/// Membership in a sequence with one element pushed.
pub proof fn lemma_push_contains(s: Seq<Seq<char>>, a: Seq<char>, x: Seq<char>)
    ensures
        s.push(a).contains(x) <==> (s.contains(x) || x == a),
{
    if s.push(a).contains(x) {
        let k = choose|k: int| 0 <= k < s.push(a).len() && s.push(a)[k] == x;
        if k < s.len() {
            assert(s[k] == x);
        }
    }
    if s.contains(x) {
        let k = choose|k: int| 0 <= k < s.len() && s[k] == x;
        assert(s.push(a)[k] == x);
    }
    if x == a {
        assert(s.push(a)[s.len() as int] == x);
    }
}

/// `spec_add_missing` keeps everything it started with and holds every addition.
pub proof fn lemma_add_missing_members(vs: Seq<Seq<char>>, additions: Seq<Seq<char>>)
    ensures
        forall|x: Seq<char>| #[trigger]
            spec_add_missing(vs, additions).contains(x) <==> (vs.contains(x) || additions.contains(
                x,
            )),
        spec_add_missing(vs, additions).subrange(0, vs.len() as int) == vs,
        spec_add_missing(vs, additions).len() >= vs.len(),
    decreases additions.len(),
{
    if additions.len() > 0 {
        let prev = spec_add_missing(vs, additions.drop_last());
        lemma_add_missing_members(vs, additions.drop_last());
        let a = additions.last();
        assert forall|x: Seq<char>| #[trigger]
            spec_add_missing(vs, additions).contains(x) <==> (vs.contains(x) || additions.contains(
                x,
            )) by {
            if additions.contains(x) && x != a {
                let k = choose|k: int| 0 <= k < additions.len() && additions[k] == x;
                assert(additions.drop_last()[k] == x);
            }
            if additions.drop_last().contains(x) {
                let k = choose|k: int|
                    0 <= k < additions.drop_last().len() && additions.drop_last()[k] == x;
                assert(additions[k] == x);
            }
            if !prev.contains(a) {
                if prev.push(a).contains(x) {
                    let j = choose|j: int| 0 <= j < prev.push(a).len() && prev.push(a)[j] == x;
                    if j < prev.len() {
                        assert(prev[j] == x);
                    }
                }
                if prev.contains(x) {
                    let j = choose|j: int| 0 <= j < prev.len() && prev[j] == x;
                    assert(prev.push(a)[j] == x);
                }
                assert(prev.push(a)[prev.len() as int] == a);
            }
            assert(additions[additions.len() - 1] == a);
        }
        if !prev.contains(a) {
            assert(prev.push(a).subrange(0, vs.len() as int) =~= prev.subrange(0, vs.len() as int));
        }
    } else {
        assert(vs.subrange(0, vs.len() as int) =~= vs);
    }
}

// ---------------------------------------------------------------------------
// Executable functions
// ---------------------------------------------------------------------------

/// Splits `OWNER/REPO` at its first `/`; both parts must be non-empty.
pub fn parse_owner_repo(s: &str) -> (r: Result<(String, String), GbError>)
    ensures
        pair_result(r) == spec_parse_owner_repo(s@),
{
    let v = chars_of(s);
    proof {
        lemma_find_char(v@, '/');
    }
    match find(&v, '/') {
        Some(i) => {
            let owner = slice(&v, 0, i);
            let repo = slice(&v, i + 1, v.len());
            if owner.len() > 0 && repo.len() > 0 {
                return Ok((string_of(&owner), string_of(&repo)));
            }
        },
        None => {},
    }
    let mut msg = chars_of("Invalid repository format: '");
    push_all(&mut msg, &v);
    push_str(&mut msg, "'. Expected OWNER/REPO");
    Err(other(&msg))
}

/// Lower-cases the list-state filter and checks it is `open`, `closed` or `all`.
pub fn normalize_list_state(state: &str) -> (r: Result<String, GbError>)
    ensures
        crate::error::str_result(r) == spec_normalize_list_state(state@),
{
    let v = chars_of(state);
    let l = lowered(&v);
    if eq_str(&l, "open") || eq_str(&l, "closed") || eq_str(&l, "all") {
        Ok(string_of(&l))
    } else {
        let mut msg = chars_of("Invalid state '");
        push_all(&mut msg, &v);
        push_str(&mut msg, "'. Expected one of: open, closed, all");
        Err(other(&msg))
    }
}

/// Lower-cases an optional edit state and checks it is `open` or `closed`.
pub fn normalize_edit_state(kind: &str, state: Option<String>) -> (r: Result<
    Option<String>,
    GbError,
>)
    ensures
        opt_str_result(r) == spec_normalize_edit_state(kind@, opt_view(state)),
{
    match state {
        None => Ok(None),
        Some(value) => {
            let v = chars_of(value.as_str());
            let l = lowered(&v);
            if eq_str(&l, "open") || eq_str(&l, "closed") {
                Ok(Some(string_of(&l)))
            } else {
                let mut msg = chars_of("Invalid ");
                push_str(&mut msg, kind);
                push_str(&mut msg, " state. Expected 'open' or 'closed'.");
                Err(other(&msg))
            }
        },
    }
}

/// Trims each value and drops the empty ones.
pub fn normalize_str_vec(values: Vec<String>) -> (r: Vec<String>)
    ensures
        strs(r@) == spec_normalize_str_vec(strs(values@)),
{
    let mut out: Vec<String> = Vec::new();
    let mut i: usize = 0;
    while i < values.len()
        invariant
            i <= values@.len(),
            strs(out@) == spec_normalize_str_vec(strs(values@.subrange(0, i as int))),
        decreases values.len() - i,
    {
        let v = chars_of(values[i].as_str());
        let t = trimmed(&v);
        assert(strs(values@.subrange(0, i + 1)).drop_last() =~= strs(values@.subrange(0, i as int)));
        if t.len() > 0 {
            out.push(string_of(&t));
            assert(strs(out@) =~= spec_normalize_str_vec(strs(values@.subrange(0, i as int))).push(
                t@,
            ));
        }
        i += 1;
    }
    assert(values@.subrange(0, values@.len() as int) =~= values@);
    out
}

/// `needle` occurs in `hay`.
pub fn holds(hay: &Vec<String>, needle: &String) -> (r: bool)
    ensures
        r == strs(hay@).contains(needle@),
{
    let mut i: usize = 0;
    while i < hay.len()
        invariant
            i <= hay@.len(),
            forall|j: int| 0 <= j < i ==> hay@[j]@ != needle@,
        decreases hay.len() - i,
    {
        if hay[i] == *needle {
            assert(strs(hay@)[i as int] == needle@);
            return true;
        }
        i += 1;
    }
    proof {
        if strs(hay@).contains(needle@) {
            let k = choose|k: int| 0 <= k < strs(hay@).len() && strs(hay@)[k] == needle@;
            assert(hay@[k]@ == needle@);
        }
    }
    false
}

/// A copy of a list of strings.
pub fn copy_strings(v: &Vec<String>) -> (r: Vec<String>)
    ensures
        strs(r@) == strs(v@),
{
    let mut out: Vec<String> = Vec::new();
    let mut i: usize = 0;
    while i < v.len()
        invariant
            i <= v@.len(),
            out@.len() == i,
            forall|j: int| 0 <= j < i ==> #[trigger] out@[j]@ == v@[j]@,
        decreases v.len() - i,
    {
        out.push(v[i].clone());
        i += 1;
    }
    assert(strs(out@) =~= strs(v@));
    out
}

/// The members of `values` that `other` does not hold, in order.
pub fn without(values: &Vec<String>, other: &Vec<String>) -> (r: Vec<String>)
    ensures
        strs(r@) == spec_without(strs(values@), strs(other@)),
{
    let mut out: Vec<String> = Vec::new();
    let mut i: usize = 0;
    while i < values.len()
        invariant
            i <= values@.len(),
            strs(out@) == spec_without(strs(values@.subrange(0, i as int)), strs(other@)),
        decreases values.len() - i,
    {
        assert(strs(values@.subrange(0, i + 1)).drop_last() =~= strs(values@.subrange(0, i as int)));
        if !holds(other, &values[i]) {
            out.push(values[i].clone());
            assert(strs(out@) =~= spec_without(strs(values@.subrange(0, i as int)), strs(other@)).push(
                values@[i as int]@,
            ));
        }
        i += 1;
    }
    assert(values@.subrange(0, values@.len() as int) =~= values@);
    out
}

/// Applies the removals first, then appends each addition that is still missing.
pub fn merge_named_values(current: Vec<String>, additions: Vec<String>, removals: Vec<String>) -> (r:
    Vec<String>)
    ensures
        strs(r@) == spec_merge_named_values(strs(current@), strs(additions@), strs(removals@)),
{
    let mut values = without(&current, &removals);
    let ghost start = strs(values@);
    let mut i: usize = 0;
    while i < additions.len()
        invariant
            i <= additions@.len(),
            strs(values@) == spec_add_missing(start, strs(additions@.subrange(0, i as int))),
        decreases additions.len() - i,
    {
        assert(strs(additions@.subrange(0, i + 1)).drop_last() =~= strs(
            additions@.subrange(0, i as int),
        ));
        if !holds(&values, &additions[i]) {
            values.push(additions[i].clone());
            assert(strs(values@) =~= spec_add_missing(
                start,
                strs(additions@.subrange(0, i as int)),
            ).push(additions@[i as int]@));
        }
        i += 1;
    }
    assert(additions@.subrange(0, additions@.len() as int) =~= additions@);
    values
}

/// The assignees to remove and to add when moving from `current` to `next`.
pub fn assignee_changes(current: &Vec<String>, next: &Vec<String>) -> (r: (Vec<String>, Vec<String>))
    ensures
        strs(r.0@) == spec_without(strs(current@), strs(next@)),
        strs(r.1@) == spec_without(strs(next@), strs(current@)),
{
    (without(current, next), without(next, current))
}

/// The second piece of `s` between occurrences of `c`.
fn second_piece(s: &[char], c: char) -> (r: Vec<char>)
    ensures
        r@ == spec_second_piece(s@, c),
{
    proof {
        lemma_find_char(s@, c);
    }
    match find(s, c) {
        None => Vec::new(),
        Some(i) => {
            assert(i < s@.len());
            assert(i < s.len());
            let after = slice(s, i + 1, s.len());
            proof {
                lemma_find_char(after@, c);
            }
            match find(&after, c) {
                None => after,
                Some(j) => slice(&after, 0, j),
            }
        },
    }
}

/// The non-empty `/`-separated segments of `path`.
pub fn path_segments(path: &[char]) -> (r: Vec<Vec<char>>)
    ensures
        r@.map_values(|v: Vec<char>| v@) == segments(path@),
{
    let mut done: Vec<Vec<char>> = Vec::new();
    let mut cur: Vec<char> = Vec::new();
    let mut i: usize = 0;
    proof {
        assert(path@.subrange(0, 0) =~= Seq::<char>::empty());
    }
    while i < path.len()
        invariant
            i <= path@.len(),
            split_on(path@.subrange(0, i as int), '/').len() >= 1,
            done@.map_values(|v: Vec<char>| v@) == non_empty(
                split_on(path@.subrange(0, i as int), '/').drop_last(),
            ),
            cur@ == split_on(path@.subrange(0, i as int), '/').last(),
        decreases path.len() - i,
    {
        let ghost s = path@.subrange(0, i as int);
        let ghost prev = split_on(s, '/');
        proof {
            assert(path@.subrange(0, i + 1) =~= s.push(path@[i as int]));
            lemma_split_step(s, '/', path@[i as int]);
            lemma_split_on_len(s, '/');
            assert(prev =~= prev.drop_last().push(prev.last()));
        }
        if path[i] == '/' {
            if cur.len() > 0 {
                let piece = slice(&cur, 0, cur.len());
                assert(piece@ =~= cur@);
                done.push(piece);
                assert(done@.map_values(|v: Vec<char>| v@) =~= non_empty(prev.drop_last()).push(
                    prev.last(),
                ));
            }
            assert(split_on(path@.subrange(0, i + 1), '/').drop_last() =~= prev);
            cur = Vec::new();
        } else {
            cur.push(path[i]);
            proof {
                lemma_non_empty_update_last(prev, prev.last().push(path@[i as int]));
            }
        }
        i += 1;
    }
    let ghost all = split_on(path@, '/');
    proof {
        assert(path@.subrange(0, path@.len() as int) =~= path@);
        assert(all =~= all.drop_last().push(all.last()));
    }
    if cur.len() > 0 {
        done.push(cur);
        assert(done@.map_values(|v: Vec<char>| v@) =~= non_empty(all.drop_last()).push(all.last()));
    }
    done
}

/// Owner and repository from the last two segments of a repository path.
pub fn parse_repo_path(path: &str) -> (r: Result<(String, String), GbError>)
    ensures
        pair_result(r) == spec_parse_repo_path(path@),
{
    let p = chars_of(path);
    let segs = path_segments(&p);
    let n = segs.len();
    if n < 2 {
        return Err(GbError::RepoNotFound);
    }
    let ghost views = segs@.map_values(|v: Vec<char>| v@);
    assert(views[n - 2] == segs@[n - 2]@);
    assert(views[n - 1] == segs@[n - 1]@);
    let owner = slice(&segs[n - 2], 0, segs[n - 2].len());
    let repo = trim_end_all_str(&segs[n - 1], ".git");
    assert(owner@ =~= segs@[n - 2]@);
    if owner.len() == 0 || repo.len() == 0 {
        return Err(GbError::RepoNotFound);
    }
    Ok((string_of(&owner), string_of(&repo)))
}

/// Owner and repository named by a git remote URL (SSH or HTTP(S)).
pub fn parse_git_url(url: &str) -> (r: Result<(String, String), GbError>)
    ensures
        pair_result(r) == spec_parse_git_url(url@),
{
    proof {
        reveal_strlit("git@");
        reveal_strlit("git/");
    }
    let u = chars_of(url);
    let path = if starts_with_str(&u, "git@") {
        let rest = slice(&u, 4, u.len());
        second_piece(&rest, ':')
    } else if is_absolute(&u) {
        let parsed = match parse_url(url) {
            Ok(p) => p,
            Err(_) => return Err(GbError::RepoNotFound),
        };
        let pv = chars_of(parsed.path.as_str());
        let p = trim_start_all(&pv, &chars_of("/"));
        if starts_with_str(&p, "git/") {
            slice(&p, 4, p.len())
        } else {
            p
        }
    } else {
        return Err(GbError::RepoNotFound);
    };
    assert(spec_git_url_path(url@) == Some(path@));
    let ps = string_of(&path);
    parse_repo_path(ps.as_str())
}

/// The host to use: the configured one, or an explanation of why none is set.
pub fn resolve_hostname(configured: Option<String>, has_active_profile: bool) -> (r: Result<
    String,
    GbError,
>)
    ensures
        crate::error::str_result(r) == spec_resolve_hostname(opt_view(configured), has_active_profile),
{
    match configured {
        Some(h) => Ok(h),
        None => if has_active_profile {
            Err(
                auth_error(
                    &chars_of(
                        "No GitBucket host or URL configured for the selected profile. Pass --hostname or set the profile default host.",
                    ),
                ),
            )
        } else {
            Err(
                auth_error(
                    &chars_of("No GitBucket host or URL configured. Run `gb auth login` first."),
                ),
            )
        },
    }
}

/// The repository to use: the configured `OWNER/REPO`, else the one that the
/// output of `git remote get-url origin` names.
pub fn resolve_repo(configured: Option<String>, origin_output: Option<String>) -> (r: Result<
    (String, String),
    GbError,
>)
    ensures
        pair_result(r) == spec_resolve_repo(opt_view(configured), opt_view(origin_output)),
{
    match configured {
        Some(repo) => parse_owner_repo(repo.as_str()),
        None => match origin_output {
            Some(out) => {
                let v = chars_of(out.as_str());
                let t = trimmed(&v);
                let ts = string_of(&t);
                parse_git_url(ts.as_str())
            },
            None => Err(GbError::RepoNotFound),
        },
    }
}

/// The user name for web sign-in: `GB_USER` when set, else the stored user.
pub fn web_username(env_user: Option<String>, stored_user: &str) -> (r: Result<String, GbError>)
    ensures
        crate::error::str_result(r) == spec_web_username(opt_view(env_user), stored_user@),
{
    match env_user {
        Some(u) => Ok(u),
        None => {
            let s = chars_of(stored_user);
            if s.len() > 0 {
                Ok(string_of(&s))
            } else {
                Err(
                    auth_error(
                        &chars_of(
                            "GitBucket web actions require a username. Run `gb auth login` first or set `GB_USER`.",
                        ),
                    ),
                )
            }
        },
    }
}

} // verus!
