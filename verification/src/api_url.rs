//! Normalisation of GitBucket host names, API base URLs and request paths.
use vstd::prelude::*;

use crate::error::{config_error, opt_view, other, str_result, unit_result, Failure, GbError};
use crate::text::{
    chars_of, decimal, decimal_of, eq, eq_str, ends_with_str, has_prefix, has_suffix,
    lemma_suffix_of_concat, push_all, push_str, slice, starts_with, starts_with_str, string_of,
    strip_prefix, trim, trim_end_all_str, trim_end_matches, trimmed,
};
use crate::weburl::{default_port, parse_url, url_parse_outcome, ParsedUrl, UrlView};

verus! {

// ---------------------------------------------------------------------------
// Specifications
// ---------------------------------------------------------------------------

/// The API prefix that GitBucket serves its REST API under.
pub open spec fn api_suffix() -> Seq<char> {
    "/api/v3"@
}

/// An absolute `http://` or `https://` URL.
pub open spec fn is_absolute_http(s: Seq<char>) -> bool {
    has_prefix(s, "http://"@) || has_prefix(s, "https://"@)
}

/// `path` lies at or below `base` in the path hierarchy; an empty base covers everything.
pub open spec fn spec_path_has_base_prefix(path: Seq<char>, base: Seq<char>) -> bool {
    let nb = trim_end_matches(base, "/"@);
    ||| nb.len() == 0
    ||| path == nb
    ||| match strip_prefix(path, nb) {
        Some(rest) => rest.len() == 0 || rest[0] == '/',
        None => false,
    }
}

/// Two parsed URLs share scheme, host and effective port.
pub open spec fn spec_same_origin(a: UrlView, b: UrlView) -> bool {
    a.0 == b.0 && a.1 == b.1 && a.3 == b.3
}

/// `url` parses, `base` parses, they share an origin and the path of `url`
/// lies under the path of `base`; otherwise the refusal `before + base + after`.
pub open spec fn spec_validate_within(
    url: Seq<char>,
    base: Seq<char>,
    before: Seq<char>,
    after: Seq<char>,
) -> Result<(), Failure> {
    match url_parse_outcome(url) {
        Err(m) => Err(Failure::Url(m)),
        Ok(t) => match url_parse_outcome(base) {
            Err(m) => Err(Failure::Url(m)),
            Ok(b) => if spec_same_origin(t, b) && spec_path_has_base_prefix(t.4, b.4) {
                Ok(())
            } else {
                Err(Failure::Other(before + base + after))
            },
        },
    }
}

/// The message prefix for a pagination URL outside the API base.
pub open spec fn api_refusal() -> Seq<char> {
    "Refusing to follow pagination URL outside configured GitBucket API base "@
}

/// The message prefix for a fetched URL outside the web origin.
pub open spec fn origin_refusal() -> Seq<char> {
    "Refusing to fetch URL outside configured GitBucket origin "@
}

/// `path` with a `/` in front unless it already starts with one.
pub open spec fn spec_ensure_leading_slash(path: Seq<char>) -> Seq<char> {
    if has_prefix(path, "/"@) {
        path
    } else {
        "/"@ + path
    }
}

/// A path tail that starts a new path segment, query or fragment; anything else is dropped.
pub open spec fn spec_ensure_request_path(path: Seq<char>) -> Seq<char> {
    if path.len() == 0 {
        Seq::empty()
    } else if path[0] == '/' || path[0] == '?' || path[0] == '#' {
        path
    } else {
        Seq::empty()
    }
}

/// `path` without `prefix`, provided the prefix ends at a segment, query or fragment boundary.
pub open spec fn spec_strip_prefix_with_boundary(path: Seq<char>, prefix: Seq<char>) -> Option<
    Seq<char>,
> {
    match strip_prefix(path, prefix) {
        Some(rest) => if rest.len() == 0 || rest[0] == '/' || rest[0] == '?' || rest[0] == '#' {
            Some(rest)
        } else {
            None
        },
        None => None,
    }
}

/// A relative API path with a repeated API base path or `/api/v3` prefix removed.
pub open spec fn spec_normalize_relative_api_path(path: Seq<char>, base_url: Seq<char>) -> Seq<char> {
    if !has_prefix(path, "/"@) {
        path
    } else {
        match url_parse_outcome(base_url) {
            Err(_) => path,
            Ok(b) => {
                let api_path = trim_end_matches(b.4, "/"@);
                match spec_strip_prefix_with_boundary(path, api_path) {
                    Some(s) => spec_ensure_request_path(s),
                    None => match spec_strip_prefix_with_boundary(path, api_suffix()) {
                        Some(s) => spec_ensure_request_path(s),
                        None => path,
                    },
                }
            },
        }
    }
}

/// A relative web path with a repeated web base path removed, always starting with `/`.
pub open spec fn spec_normalize_relative_origin_path(path: Seq<char>, web_base_url: Seq<char>) -> Seq<
    char,
> {
    if !has_prefix(path, "/"@) {
        spec_ensure_leading_slash(path)
    } else {
        match url_parse_outcome(web_base_url) {
            Err(_) => path,
            Ok(b) => {
                let base_path = trim_end_matches(b.4, "/"@);
                if base_path.len() > 0 {
                    match spec_strip_prefix_with_boundary(path, base_path) {
                        Some(s) => spec_ensure_leading_slash(spec_ensure_request_path(s)),
                        None => path,
                    }
                } else {
                    path
                }
            },
        }
    }
}

/// The full URL of an API path or absolute URL, refusing absolute URLs outside the API base.
pub open spec fn spec_normalize_path_or_url(path_or_url: Seq<char>, base_url: Seq<char>) -> Result<
    Seq<char>,
    Failure,
> {
    if is_absolute_http(path_or_url) {
        match spec_validate_within(path_or_url, base_url, api_refusal(), Seq::empty()) {
            Ok(_) => Ok(path_or_url),
            Err(e) => Err(e),
        }
    } else {
        Ok(base_url + spec_normalize_relative_api_path(path_or_url, base_url))
    }
}

/// The web base of an API base URL: every trailing `/api/v3` removed.
pub open spec fn spec_web_base(base_url: Seq<char>) -> Seq<char> {
    trim_end_matches(base_url, api_suffix())
}

/// The full URL of a web path or absolute URL, refusing absolute URLs outside the web origin.
pub open spec fn spec_normalize_origin_path_or_url(path_or_url: Seq<char>, base_url: Seq<char>) -> Result<
    Seq<char>,
    Failure,
> {
    let web = spec_web_base(base_url);
    if is_absolute_http(path_or_url) {
        match spec_validate_within(path_or_url, web, origin_refusal(), Seq::empty()) {
            Ok(_) => Ok(path_or_url),
            Err(e) => Err(e),
        }
    } else {
        Ok(web + spec_normalize_relative_origin_path(path_or_url, web))
    }
}

/// The URL that `hostname` names: itself when absolute, else `protocol://hostname`,
/// after trimming whitespace and trailing slashes.
pub open spec fn spec_candidate_url(hostname: Seq<char>, protocol: Seq<char>) -> Seq<char> {
    let input = trim_end_matches(trim(hostname), "/"@);
    if is_absolute_http(input) {
        input
    } else {
        protocol + "://"@ + input
    }
}

/// `scheme://host[:port][path]` of a parsed URL, the path without trailing slashes.
pub open spec fn spec_origin_and_path(u: UrlView, host: Seq<char>) -> Seq<char> {
    let with_port = match u.2 {
        Some(p) => u.0 + "://"@ + host + ":"@ + decimal(p as nat),
        None => u.0 + "://"@ + host,
    };
    let path = trim_end_matches(u.4, "/"@);
    if path.len() > 0 && path != "/"@ {
        with_port + path
    } else {
        with_port
    }
}

/// The GitBucket API base URL for a host or URL: always ends in `/api/v3`.
pub open spec fn spec_normalize_base_url(hostname: Seq<char>, protocol: Seq<char>) -> Result<
    Seq<char>,
    Failure,
> {
    match url_parse_outcome(spec_candidate_url(hostname, protocol)) {
        Err(m) => Err(Failure::Url(m)),
        Ok(u) => match u.1 {
            None => Err(Failure::Config("Invalid GitBucket host or URL: "@ + hostname)),
            Some(host) => {
                let base = spec_origin_and_path(u, host);
                if has_suffix(base, api_suffix()) {
                    Ok(base)
                } else {
                    Ok(base + api_suffix())
                }
            },
        },
    }
}

/// The GitBucket web base URL for a host or URL: the API base without `/api/v3`.
pub open spec fn spec_normalize_web_base_url(hostname: Seq<char>, protocol: Seq<char>) -> Result<
    Seq<char>,
    Failure,
> {
    match spec_normalize_base_url(hostname, protocol) {
        Ok(b) => Ok(spec_web_base(b)),
        Err(e) => Err(e),
    }
}

// ---------------------------------------------------------------------------
// Executable functions
// ---------------------------------------------------------------------------

/// Parses a URL held as characters.
fn parse_chars(v: &[char]) -> (r: Result<ParsedUrl, String>)
    ensures
        match r {
            Ok(u) => url_parse_outcome(v@) == Ok::<UrlView, Seq<char>>(u@),
            Err(m) => url_parse_outcome(v@) == Err::<UrlView, Seq<char>>(m@),
        },
        r matches Ok(u) ==> u.known_port == (if u.port is Some {
            u.port
        } else {
            default_port(u.scheme@)
        }),
{
    let s = string_of(v);
    parse_url(s.as_str())
}

/// `url` is an absolute HTTP(S) URL.
pub fn is_absolute(url: &[char]) -> (r: bool)
    ensures
        r == is_absolute_http(url@),
{
    starts_with_str(url, "http://") || starts_with_str(url, "https://")
}

fn opt_eq(a: &Option<String>, b: &Option<String>) -> (r: bool)
    ensures
        r == (opt_view(*a) == opt_view(*b)),
{
    match (a, b) {
        (Some(x), Some(y)) => {
            let xv = chars_of(x.as_str());
            let yv = chars_of(y.as_str());
            eq(&xv, &yv)
        },
        (None, None) => true,
        _ => false,
    }
}

/// Two parsed URLs share scheme, host and effective port.
pub fn same_origin(a: &ParsedUrl, b: &ParsedUrl) -> (r: bool)
    ensures
        r == spec_same_origin(a@, b@),
{
    let sa = chars_of(a.scheme.as_str());
    let sb = chars_of(b.scheme.as_str());
    eq(&sa, &sb) && opt_eq(&a.host, &b.host) && a.known_port == b.known_port
}

/// `path` lies at or below `base`; an empty base covers every path.
pub fn path_has_base_prefix(path: &str, base: &str) -> (r: bool)
    ensures
        r == spec_path_has_base_prefix(path@, base@),
{
    let p = chars_of(path);
    let b = chars_of(base);
    let nb = trim_end_all_str(&b, "/");
    if nb.len() == 0 {
        return true;
    }
    if eq(&p, &nb) {
        return true;
    }
    if starts_with(&p, &nb) {
        p.len() == nb.len() || p[nb.len()] == '/'
    } else {
        false
    }
}

/// Checks that `url` stays at the origin and under the path of `base`.
pub fn validate_within(url: &[char], base: &[char], before: &str, after: &str) -> (r: Result<
    (),
    GbError,
>)
    ensures
        unit_result(r) == spec_validate_within(url@, base@, before@, after@),
{
    let target = match parse_chars(url) {
        Ok(t) => t,
        Err(m) => return Err(GbError::Url(m)),
    };
    let b = match parse_chars(base) {
        Ok(b) => b,
        Err(m) => return Err(GbError::Url(m)),
    };
    if same_origin(&target, &b) && path_has_base_prefix(target.path.as_str(), b.path.as_str()) {
        Ok(())
    } else {
        let mut msg = chars_of(before);
        push_all(&mut msg, base);
        push_str(&mut msg, after);
        Err(other(&msg))
    }
}

/// Checks that an absolute pagination URL stays within the API base.
pub fn validate_absolute_api_url(url: &str, base_url: &str) -> (r: Result<(), GbError>)
    ensures
        unit_result(r) == spec_validate_within(url@, base_url@, api_refusal(), Seq::empty()),
{
    let u = chars_of(url);
    let b = chars_of(base_url);
    proof {
        reveal_strlit("");
    }
    validate_within(&u, &b, "Refusing to follow pagination URL outside configured GitBucket API base ", "")
}

/// Checks that an absolute URL stays within the web origin.
pub fn validate_absolute_origin_url(url: &str, web_base_url: &str) -> (r: Result<(), GbError>)
    ensures
        unit_result(r) == spec_validate_within(url@, web_base_url@, origin_refusal(), Seq::empty()),
{
    let u = chars_of(url);
    let b = chars_of(web_base_url);
    proof {
        reveal_strlit("");
    }
    validate_within(&u, &b, "Refusing to fetch URL outside configured GitBucket origin ", "")
}

/// `path` with a leading `/`.
pub fn ensure_leading_slash(path: &[char]) -> (r: Vec<char>)
    ensures
        r@ == spec_ensure_leading_slash(path@),
{
    if starts_with_str(path, "/") {
        slice(path, 0, path.len())
    } else {
        let mut r = chars_of("/");
        push_all(&mut r, path);
        r
    }
}

/// A path tail that starts a segment, query or fragment, or nothing.
pub fn ensure_request_path(path: &[char]) -> (r: Vec<char>)
    ensures
        r@ == spec_ensure_request_path(path@),
{
    if path.len() == 0 {
        Vec::new()
    } else if path[0] == '/' || path[0] == '?' || path[0] == '#' {
        slice(path, 0, path.len())
    } else {
        Vec::new()
    }
}

/// `path` without `prefix`, when the prefix ends at a boundary.
pub fn strip_prefix_with_boundary(path: &[char], prefix: &[char]) -> (r: Option<Vec<char>>)
    ensures
        match r {
            Some(v) => spec_strip_prefix_with_boundary(path@, prefix@) == Some(v@),
            None => spec_strip_prefix_with_boundary(path@, prefix@) is None,
        },
{
    if !starts_with(path, prefix) {
        return None;
    }
    let rest = slice(path, prefix.len(), path.len());
    if rest.len() == 0 || rest[0] == '/' || rest[0] == '?' || rest[0] == '#' {
        Some(rest)
    } else {
        None
    }
}

/// A relative API path with a repeated API base path or `/api/v3` prefix removed.
pub fn normalize_relative_api_path(path: &str, base_url: &str) -> (r: String)
    ensures
        r@ == spec_normalize_relative_api_path(path@, base_url@),
{
    let p = chars_of(path);
    if !starts_with_str(&p, "/") {
        return string_of(&p);
    }
    let b = chars_of(base_url);
    let base = match parse_chars(&b) {
        Ok(base) => base,
        Err(_) => return string_of(&p),
    };
    let bp = chars_of(base.path.as_str());
    let api_path = trim_end_all_str(&bp, "/");
    if let Some(stripped) = strip_prefix_with_boundary(&p, &api_path) {
        let r = ensure_request_path(&stripped);
        return string_of(&r);
    }
    let prefix = chars_of("/api/v3");
    if let Some(stripped) = strip_prefix_with_boundary(&p, &prefix) {
        let r = ensure_request_path(&stripped);
        return string_of(&r);
    }
    string_of(&p)
}

/// A relative web path with a repeated web base path removed.
pub fn normalize_relative_origin_path(path: &str, web_base_url: &str) -> (r: String)
    ensures
        r@ == spec_normalize_relative_origin_path(path@, web_base_url@),
{
    let p = chars_of(path);
    if !starts_with_str(&p, "/") {
        let r = ensure_leading_slash(&p);
        return string_of(&r);
    }
    let b = chars_of(web_base_url);
    let base = match parse_chars(&b) {
        Ok(base) => base,
        Err(_) => return string_of(&p),
    };
    let bp = chars_of(base.path.as_str());
    let base_path = trim_end_all_str(&bp, "/");
    if base_path.len() > 0 {
        if let Some(stripped) = strip_prefix_with_boundary(&p, &base_path) {
            let tail = ensure_request_path(&stripped);
            let r = ensure_leading_slash(&tail);
            return string_of(&r);
        }
    }
    string_of(&p)
}

/// The full URL for an API path, or an absolute URL that stays within the API base.
pub fn normalize_path_or_url(path_or_url: &str, base_url: &str) -> (r: Result<String, GbError>)
    ensures
        str_result(r) == spec_normalize_path_or_url(path_or_url@, base_url@),
{
    let p = chars_of(path_or_url);
    if is_absolute(&p) {
        validate_absolute_api_url(path_or_url, base_url)?;
        Ok(string_of(&p))
    } else {
        let rel = normalize_relative_api_path(path_or_url, base_url);
        let mut out = chars_of(base_url);
        push_str(&mut out, rel.as_str());
        Ok(string_of(&out))
    }
}

/// The web base of an API base URL.
pub fn web_base(base_url: &str) -> (r: String)
    ensures
        r@ == spec_web_base(base_url@),
{
    let b = chars_of(base_url);
    let w = trim_end_all_str(&b, "/api/v3");
    string_of(&w)
}

/// The full URL for a web path, or an absolute URL that stays within the web origin.
pub fn normalize_origin_path_or_url(path_or_url: &str, base_url: &str) -> (r: Result<
    String,
    GbError,
>)
    ensures
        str_result(r) == spec_normalize_origin_path_or_url(path_or_url@, base_url@),
{
    let web = web_base(base_url);
    let p = chars_of(path_or_url);
    if is_absolute(&p) {
        validate_absolute_origin_url(path_or_url, web.as_str())?;
        Ok(string_of(&p))
    } else {
        let rel = normalize_relative_origin_path(path_or_url, web.as_str());
        let mut out = chars_of(web.as_str());
        push_str(&mut out, rel.as_str());
        Ok(string_of(&out))
    }
}

/// The GitBucket API base URL for a host name or URL.
pub fn normalize_base_url(hostname: &str, protocol: &str) -> (r: Result<String, GbError>)
    ensures
        str_result(r) == spec_normalize_base_url(hostname@, protocol@),
        r matches Ok(b) ==> has_suffix(b@, api_suffix()),
{
    let h = chars_of(hostname);
    let t = trimmed(&h);
    let input = trim_end_all_str(&t, "/");
    let candidate = if is_absolute(&input) {
        input
    } else {
        let mut c = chars_of(protocol);
        push_str(&mut c, "://");
        push_all(&mut c, &input);
        c
    };
    assert(candidate@ == spec_candidate_url(hostname@, protocol@));
    let parsed = match parse_chars(&candidate) {
        Ok(u) => u,
        Err(m) => return Err(GbError::Url(m)),
    };
    let host = match &parsed.host {
        Some(host) => host,
        None => {
            let mut msg = chars_of("Invalid GitBucket host or URL: ");
            push_all(&mut msg, &h);
            return Err(config_error(&msg));
        },
    };
    let mut base = chars_of(parsed.scheme.as_str());
    push_str(&mut base, "://");
    push_str(&mut base, host.as_str());
    if let Some(port) = parsed.port {
        push_str(&mut base, ":");
        let d = decimal_of(port as u64);
        push_all(&mut base, &d);
    }
    let pv = chars_of(parsed.path.as_str());
    let path = trim_end_all_str(&pv, "/");
    if path.len() > 0 && !eq_str(&path, "/") {
        push_all(&mut base, &path);
    }
    assert(base@ == spec_origin_and_path(parsed@, host@));
    if ends_with_str(&base, "/api/v3") {
        Ok(string_of(&base))
    } else {
        push_str(&mut base, "/api/v3");
        proof {
            lemma_suffix_of_concat(spec_origin_and_path(parsed@, host@), api_suffix());
        }
        Ok(string_of(&base))
    }
}

/// The GitBucket web base URL for a host name or URL.
pub fn normalize_web_base_url(hostname: &str, protocol: &str) -> (r: Result<String, GbError>)
    ensures
        str_result(r) == spec_normalize_web_base_url(hostname@, protocol@),
{
    let base = normalize_base_url(hostname, protocol)?;
    Ok(web_base(base.as_str()))
}

/// The web URL of `path` on the instance whose API base is `base_url`.
pub fn web_url(base_url: &str, path: &str) -> (r: String)
    ensures
        r@ == spec_web_base(base_url@) + path@,
{
    let mut out = chars_of(base_url);
    out = trim_end_all_str(&out, "/api/v3");
    push_str(&mut out, path);
    string_of(&out)
}

/// The API URL of `path` under `base_url`.
pub fn api_url(base_url: &str, path: &str) -> (r: String)
    ensures
        r@ == base_url@ + path@,
{
    let mut out = chars_of(base_url);
    push_str(&mut out, path);
    string_of(&out)
}

/// The URL a raw API request goes to: an absolute URL as given, else under the API base.
pub fn request_url(base_url: &str, path: &str) -> (r: String)
    ensures
        r@ == (if is_absolute_http(path@) {
            path@
        } else {
            base_url@ + path@
        }),
{
    let p = chars_of(path);
    if is_absolute(&p) {
        string_of(&p)
    } else {
        api_url(base_url, path)
    }
}

} // verus!
