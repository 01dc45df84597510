//! Repository decisions: clone URLs that work from outside a container, and forks.
use vstd::prelude::*;

use crate::api_url::{same_origin, spec_same_origin};
use crate::common::{path_segments, segments};
use crate::error::{auth_error, opt_view, str_result, Failure, GbError};
use crate::models::Repository;
use crate::pull_request::holds_view;
use crate::text::{
    chars_of, eq, eq_str, has_prefix, join, join_pieces, push_all, push_str, slice, starts_with,
    starts_with_str, string_of,
};
use crate::weburl::{
    parse_url, replace_url_tail, url_parse_outcome, url_replace_tail, url_size_ok, ParsedUrl,
    UrlView, URL_CHAR_LIMIT,
};

verus! {

// ---------------------------------------------------------------------------
// Clone URLs
// ---------------------------------------------------------------------------

/// The path prefix under which an instance serves repositories: every segment
/// of a repository path except the last two (`OWNER/REPO`).
pub open spec fn spec_public_repo_prefix(path: Seq<char>) -> Seq<char> {
    let segs = segments(path);
    if segs.len() <= 2 {
        Seq::empty()
    } else {
        "/"@ + join(segs.take(segs.len() - 2), "/"@)
    }
}

/// The path prefix under which an instance serves repositories.
pub fn public_repo_prefix(path: &str) -> (r: String)
    ensures
        r@ == spec_public_repo_prefix(path@),
{
    let segs = path_segments(&chars_of(path));
    if segs.len() <= 2 {
        return string_of(&Vec::new());
    }
    let keep = segs.len() - 2;
    let mut head: Vec<Vec<char>> = Vec::new();
    let mut i: usize = 0;
    let ghost views = segs@.map_values(|v: Vec<char>| v@);
    while i < keep
        invariant
            i <= keep,
            keep + 2 == segs@.len(),
            views == segs@.map_values(|v: Vec<char>| v@),
            head@.len() == i,
            head@.map_values(|v: Vec<char>| v@) == views.take(i as int),
        decreases keep - i,
    {
        let piece = slice(&segs[i], 0, segs[i].len());
        assert(piece@ =~= segs@[i as int]@);
        let ghost before = head@;
        head.push(piece);
        assert(head@ =~= before.push(piece));
        let ghost hv = head@.map_values(|v: Vec<char>| v@);
        let ghost bv = before.map_values(|v: Vec<char>| v@);
        let ghost tv = views.take(i + 1);
        assert forall|j: int| 0 <= j < i + 1 implies #[trigger] hv[j] == tv[j] by {
            assert(hv[j] == head@[j]@);
            assert(tv[j] == views[j]);
            assert(views[j] == segs@[j]@);
            if j < i {
                assert(head@[j] == before[j]);
                assert(bv[j] == before[j]@);
                assert(bv[j] == views.take(i as int)[j]);
            }
        }
        assert(hv =~= tv);
        i += 1;
    }
    let mut out = chars_of("/");
    let joined = join_pieces(&head, "/");
    push_all(&mut out, &joined);
    string_of(&out)
}

/// The API reports the clone URL with the internal host name `gitbucket`.
pub open spec fn spec_is_internal_clone_host(u: UrlView) -> bool {
    u.1 == Some("gitbucket"@)
}

/// Whether a parsed URL has the internal host name `gitbucket`.
pub fn is_internal_gitbucket_clone_host(u: &ParsedUrl) -> (r: bool)
    ensures
        r == spec_is_internal_clone_host(u@),
{
    match &u.host {
        Some(h) => eq_str(&chars_of(h.as_str()), "gitbucket"),
        None => false,
    }
}

/// The rewrite of a reported clone URL, when one applies: the URL to rewrite,
/// and the path, query and fragment to give it.
pub open spec fn spec_clone_url_rewrite(api: Seq<char>, fallback: Seq<char>) -> Option<
    (Seq<char>, Seq<char>, Option<Seq<char>>, Option<Seq<char>>),
> {
    match url_parse_outcome(fallback) {
        Err(_) => None,
        Ok(pu) => match url_parse_outcome(api) {
            Err(_) => None,
            Ok(au) => {
                let internal = spec_is_internal_clone_host(au);
                if !internal && !spec_same_origin(au, pu) {
                    None
                } else {
                    let prefix = spec_public_repo_prefix(pu.4);
                    let api_path = if has_prefix(au.4, "/"@) {
                        au.4
                    } else {
                        "/"@ + au.4
                    };
                    let path = if prefix.len() == 0 || has_prefix(api_path, prefix + "/"@) {
                        api_path
                    } else {
                        prefix + api_path
                    };
                    let base = if internal {
                        fallback
                    } else {
                        api
                    };
                    Some((base, path, au.5, au.6))
                }
            },
        },
    }
}

/// The length of the URL pieces a rewrite hands to the URL library.
pub open spec fn rewrite_size(p: (Seq<char>, Seq<char>, Option<Seq<char>>, Option<Seq<char>>)) -> nat {
    p.0.len() + p.1.len() + (match p.2 {
        Some(q) => q.len(),
        None => 0,
    }) + (match p.3 {
        Some(f) => f.len(),
        None => 0,
    })
}

/// The rewrite, if any, stays within the URL library's size limit.
pub open spec fn clone_rewrite_fits(api: Seq<char>, fallback: Seq<char>) -> bool {
    match spec_clone_url_rewrite(api, fallback) {
        Some(p) => url_size_ok(rewrite_size(p)),
        None => true,
    }
}

/// A clone URL that works from the user's machine: the reported one, moved to
/// the public origin and base path when it names the internal host or the same
/// origin; the web fallback when none is reported.
pub open spec fn spec_accessible_clone_url(api: Option<Seq<char>>, fallback: Seq<char>) -> Seq<char> {
    match api {
        None => fallback,
        Some(a) => match spec_clone_url_rewrite(a, fallback) {
            None => a,
            Some((base, path, q, f)) => url_replace_tail(base, path, q, f)->Some_0,
        },
    }
}

fn opt_string(o: &Option<String>) -> (r: Option<String>)
    ensures
        opt_view(r) == opt_view(*o),
{
    match o {
        Some(s) => Some(string_of(&chars_of(s.as_str()))),
        None => None,
    }
}

/// The rewrite of a reported clone URL, when one applies.
pub fn clone_url_rewrite(api: &str, fallback: &str) -> (r: Option<
    (String, String, Option<String>, Option<String>),
>)
    ensures
        match r {
            Some((b, p, q, f)) => spec_clone_url_rewrite(api@, fallback@) == Some(
                (b@, p@, opt_view(q), opt_view(f)),
            ),
            None => spec_clone_url_rewrite(api@, fallback@) is None,
        },
{
    let pu = match parse_url(fallback) {
        Ok(u) => u,
        Err(_) => return None,
    };
    let au = match parse_url(api) {
        Ok(u) => u,
        Err(_) => return None,
    };
    let internal = is_internal_gitbucket_clone_host(&au);
    if !internal && !same_origin(&au, &pu) {
        return None;
    }
    let prefix = chars_of(public_repo_prefix(pu.path.as_str()).as_str());
    let ap = chars_of(au.path.as_str());
    let api_path = if starts_with_str(&ap, "/") {
        ap
    } else {
        let mut v = chars_of("/");
        push_all(&mut v, &ap);
        v
    };
    let mut prefix_slash = slice(&prefix, 0, prefix.len());
    push_str(&mut prefix_slash, "/");
    assert(prefix@.subrange(0, prefix@.len() as int) =~= prefix@);
    let path = if prefix.len() == 0 || starts_with(&api_path, &prefix_slash) {
        api_path
    } else {
        let mut v = slice(&prefix, 0, prefix.len());
        push_all(&mut v, &api_path);
        v
    };
    let base = if internal {
        string_of(&chars_of(fallback))
    } else {
        string_of(&chars_of(api))
    };
    Some((base, string_of(&path), opt_string(&au.query), opt_string(&au.fragment)))
}

fn opt_len(o: &Option<String>) -> (n: usize)
    ensures
        n == (match opt_view(*o) {
            Some(s) => s.len(),
            None => 0,
        }),
{
    match o {
        Some(s) => chars_of(s.as_str()).len(),
        None => 0,
    }
}

/// A clone URL that works from the user's machine.
pub fn accessible_clone_url(api_clone_url: Option<&str>, fallback_url: &str) -> (r: String)
    requires
        api_clone_url matches Some(a) ==> clone_rewrite_fits(a@, fallback_url@),
    ensures
        r@ == spec_accessible_clone_url(
            match api_clone_url {
                Some(a) => Some(a@),
                None => None,
            },
            fallback_url@,
        ),
{
    let api = match api_clone_url {
        None => return string_of(&chars_of(fallback_url)),
        Some(a) => a,
    };
    match clone_url_rewrite(api, fallback_url) {
        None => string_of(&chars_of(api)),
        Some((base, path, q, f)) => {
            let qr = match &q {
                Some(x) => Some(x.as_str()),
                None => None,
            };
            let fr = match &f {
                Some(x) => Some(x.as_str()),
                None => None,
            };
            let out = replace_url_tail(base.as_str(), path.as_str(), qr, fr);
            proof {
                assert(url_parse_outcome(base@) is Ok);
            }
            out.unwrap()
        },
    }
}

/// A clone URL that works from the user's machine, or nothing when the rewrite
/// would exceed the URL library's size limit.
pub fn accessible_clone_url_checked(api_clone_url: Option<&str>, fallback_url: &str) -> (r: Option<
    String,
>)
    ensures
        match api_clone_url {
            Some(a) => if clone_rewrite_fits(a@, fallback_url@) {
                opt_view(r) == Some(spec_accessible_clone_url(Some(a@), fallback_url@))
            } else {
                r is None
            },
            None => opt_view(r) == Some(fallback_url@),
        },
{
    if let Some(a) = api_clone_url {
        if let Some((base, path, q, f)) = clone_url_rewrite(a, fallback_url) {
            let b = chars_of(base.as_str()).len() as u64;
            let p = chars_of(path.as_str()).len() as u64;
            let ql = opt_len(&q) as u64;
            let fl = opt_len(&f) as u64;
            if b > URL_CHAR_LIMIT || p > URL_CHAR_LIMIT || ql > URL_CHAR_LIMIT || fl > URL_CHAR_LIMIT
                || b + p + ql + fl > URL_CHAR_LIMIT {
                return None;
            }
        }
    }
    Some(accessible_clone_url(api_clone_url, fallback_url))
}

/// The reported clone URL of a repository, or its web fallback, as a clone URL
/// that works from the user's machine.
pub fn repository_clone_url(repo: &Repository, fallback_url: &str) -> (r: Option<String>)
    ensures
        match opt_view(repo.clone_url) {
            Some(a) => if clone_rewrite_fits(a, fallback_url@) {
                opt_view(r) == Some(spec_accessible_clone_url(Some(a), fallback_url@))
            } else {
                r is None
            },
            None => opt_view(r) == Some(fallback_url@),
        },
{
    match &repo.clone_url {
        Some(c) => accessible_clone_url_checked(Some(c.as_str()), fallback_url),
        None => accessible_clone_url_checked(None, fallback_url),
    }
}

// ---------------------------------------------------------------------------
// Forks
// ---------------------------------------------------------------------------

/// The repository is the fork `target_owner/target_repo` of `source_owner/source_repo`.
pub open spec fn spec_repository_is_requested_fork(
    repo: Repository,
    target_owner: Seq<char>,
    target_repo: Seq<char>,
    source_owner: Seq<char>,
    source_repo: Seq<char>,
) -> bool {
    let source = source_owner + "/"@ + source_repo;
    &&& repo.fork
    &&& repo.full_name@ == target_owner + "/"@ + target_repo
    &&& holds_view(repo.parent_full_name, source) || holds_view(repo.source_full_name, source)
}

fn full_name(owner: &str, repo: &str) -> (r: Vec<char>)
    ensures
        r@ == owner@ + "/"@ + repo@,
{
    let mut v = chars_of(owner);
    push_str(&mut v, "/");
    push_str(&mut v, repo);
    v
}

fn opt_holds(o: &Option<String>, v: &[char]) -> (r: bool)
    ensures
        r == holds_view(*o, v@),
{
    match o {
        Some(s) => eq(&chars_of(s.as_str()), v),
        None => false,
    }
}

/// Whether the repository is the requested fork of the source repository.
pub fn repository_is_requested_fork(
    repo: &Repository,
    target_owner: &str,
    target_repo: &str,
    source_owner: &str,
    source_repo: &str,
) -> (r: bool)
    ensures
        r == spec_repository_is_requested_fork(
            *repo,
            target_owner@,
            target_repo@,
            source_owner@,
            source_repo@,
        ),
{
    if !repo.fork || !eq(&chars_of(repo.full_name.as_str()), &full_name(target_owner, target_repo)) {
        return false;
    }
    let source = full_name(source_owner, source_repo);
    opt_holds(&repo.parent_full_name, &source) || opt_holds(&repo.source_full_name, &source)
}

/// The repository is a fork named `target_owner/target_repo`, whatever its upstream.
pub open spec fn spec_is_fork_named(repo: Repository, target_owner: Seq<char>, target_repo: Seq<char>) -> bool {
    repo.fork && repo.full_name@ == target_owner + "/"@ + target_repo
}

/// Whether the repository is a fork named `target_owner/target_repo`.
pub fn is_fork_named(repo: &Repository, target_owner: &str, target_repo: &str) -> (r: bool)
    ensures
        r == spec_is_fork_named(*repo, target_owner@, target_repo@),
{
    repo.fork && eq(&chars_of(repo.full_name.as_str()), &full_name(target_owner, target_repo))
}

/// The account that receives a fork: `--group`, else a non-empty `GB_USER`,
/// else the stored user of the host (or the failure to look it up).
pub open spec fn spec_resolve_fork_target(
    group: Option<Seq<char>>,
    env_user: Option<Seq<char>>,
    stored_user: Result<Seq<char>, Failure>,
) -> Result<Seq<char>, Failure> {
    match group {
        Some(g) => Ok(g),
        None => match env_user {
            Some(u) if u.len() > 0 => Ok(u),
            _ => match stored_user {
                Err(e) => Err(e),
                Ok(u) => if u.len() > 0 {
                    Ok(u)
                } else {
                    Err(
                        Failure::Auth(
                            "GitBucket fork requires a destination user or group. Run `gb auth login` first, pass `--group`, or set `GB_USER`."@,
                        ),
                    )
                },
            },
        },
    }
}

/// The account that receives a fork.
pub fn resolve_fork_target(
    group: Option<String>,
    env_user: Option<String>,
    stored_user: Result<String, GbError>,
) -> (r: Result<String, GbError>)
    ensures
        str_result(r) == spec_resolve_fork_target(opt_view(group), opt_view(env_user), str_result(stored_user)),
{
    if let Some(g) = group {
        return Ok(g);
    }
    if let Some(u) = env_user {
        if chars_of(u.as_str()).len() > 0 {
            return Ok(u);
        }
    }
    let u = stored_user?;
    if chars_of(u.as_str()).len() > 0 {
        Ok(u)
    } else {
        Err(
            auth_error(
                &chars_of(
                    "GitBucket fork requires a destination user or group. Run `gb auth login` first, pass `--group`, or set `GB_USER`.",
                ),
            ),
        )
    }
}

/// What to do after the fork API call failed with an HTTP status.
pub enum ForkFallback {
    /// Report the error.
    Fail,
    /// Look for an existing fork; report the error when there is none.
    ExistingThenFail,
    /// Look for an existing fork; fork through the web interface when there is none.
    ExistingThenWeb,
}

/// The fallback for a failed fork call: the web form when the API has no fork
/// endpoint (404), an existing fork on conflicts and server errors.
pub open spec fn spec_fork_fallback(status: u16) -> ForkFallback {
    if status == 404 {
        ForkFallback::ExistingThenWeb
    } else if status == 409 || status >= 500 {
        ForkFallback::ExistingThenFail
    } else {
        ForkFallback::Fail
    }
}

/// The fallback for a failed fork call.
pub fn fork_fallback(status: u16) -> (r: ForkFallback)
    ensures
        r == spec_fork_fallback(status),
{
    if status == 404 {
        ForkFallback::ExistingThenWeb
    } else if status == 409 || status >= 500 {
        ForkFallback::ExistingThenFail
    } else {
        ForkFallback::Fail
    }
}

} // verus!
