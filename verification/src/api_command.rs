//! Endpoint handling for the raw `gb api` command.
use vstd::prelude::*;

use crate::api_url::{is_absolute, is_absolute_http, spec_validate_within, validate_within};
use crate::error::{str_result, unit_result, Failure, GbError};
use crate::text::{
    chars_of, eq_str, has_prefix, push_all, slice, starts_with_str, string_of, strip_prefix, trim,
    trimmed,
};

verus! {

/// The refusal text in front of the configured API base.
pub open spec fn endpoint_refusal_before() -> Seq<char> {
    "Absolute URLs must stay within the configured GitBucket API base "@
}

/// The refusal text after the configured API base.
pub open spec fn endpoint_refusal_after() -> Seq<char> {
    ". Use a relative path like `user` or change --hostname if you intend a different instance."@
}

/// The endpoint without a leading `/api/v3` or `api/v3`.
pub open spec fn spec_without_api_prefix(t: Seq<char>) -> Seq<char> {
    match strip_prefix(t, "/api/v3"@) {
        Some(r) => r,
        None => match strip_prefix(t, "api/v3"@) {
            Some(r) => r,
            None => t,
        },
    }
}

/// The request path or URL that `gb api ENDPOINT` calls.
pub open spec fn spec_normalize_endpoint(endpoint: Seq<char>, allowed_base_url: Seq<char>) -> Result<
    Seq<char>,
    Failure,
> {
    let t = trim(endpoint);
    if is_absolute_http(t) {
        match spec_validate_within(
            t,
            allowed_base_url,
            endpoint_refusal_before(),
            endpoint_refusal_after(),
        ) {
            Ok(_) => Ok(t),
            Err(e) => Err(e),
        }
    } else {
        let w = spec_without_api_prefix(t);
        if w.len() == 0 || w == "/"@ {
            Ok("/"@)
        } else if has_prefix(w, "/"@) {
            Ok(w)
        } else {
            Ok("/"@ + w)
        }
    }
}

/// Checks that an absolute endpoint stays within the configured API base.
pub fn validate_absolute_endpoint(endpoint: &str, allowed_base_url: &str) -> (r: Result<
    (),
    GbError,
>)
    ensures
        unit_result(r) == spec_validate_within(
            endpoint@,
            allowed_base_url@,
            endpoint_refusal_before(),
            endpoint_refusal_after(),
        ),
{
    let e = chars_of(endpoint);
    let b = chars_of(allowed_base_url);
    validate_within(
        &e,
        &b,
        "Absolute URLs must stay within the configured GitBucket API base ",
        ". Use a relative path like `user` or change --hostname if you intend a different instance.",
    )
}

/// The request path (or absolute URL) for `gb api ENDPOINT`.
pub fn normalize_endpoint(endpoint: &str, allowed_base_url: &str) -> (r: Result<String, GbError>)
    ensures
        str_result(r) == spec_normalize_endpoint(endpoint@, allowed_base_url@),
        r matches Ok(p) ==> has_prefix(p@, "/"@) || is_absolute_http(p@),
{
    proof {
        reveal_strlit("/api/v3");
        reveal_strlit("api/v3");
        reveal_strlit("/");
    }
    let e = chars_of(endpoint);
    let t = trimmed(&e);
    if is_absolute(&t) {
        let ts = string_of(&t);
        validate_absolute_endpoint(ts.as_str(), allowed_base_url)?;
        return Ok(ts);
    }
    let w = if starts_with_str(&t, "/api/v3") {
        slice(&t, 7, t.len())
    } else if starts_with_str(&t, "api/v3") {
        slice(&t, 6, t.len())
    } else {
        t
    };
    assert(w@ == spec_without_api_prefix(trim(endpoint@)));
    if w.len() == 0 || eq_str(&w, "/") {
        let slash = chars_of("/");
        assert(slash@.subrange(0, 1) =~= slash@);
        Ok(string_of(&slash))
    } else if starts_with_str(&w, "/") {
        Ok(string_of(&w))
    } else {
        let mut out = chars_of("/");
        push_all(&mut out, &w);
        proof {
            crate::text::lemma_prefix_of_concat("/"@, w@);
        }
        Ok(string_of(&out))
    }
}

/// A character HTTP allows in a method name (a `tchar` of RFC 9110).
pub open spec fn is_method_char(c: char) -> bool {
    ||| ('0' <= c && c <= '9')
    ||| ('A' <= c && c <= 'Z')
    ||| ('a' <= c && c <= 'z')
    ||| c == '!' || c == '#' || c == '$' || c == '%' || c == '&' || c == '\'' || c == '*'
    ||| c == '+' || c == '-' || c == '.' || c == '^' || c == '_' || c == '`' || c == '|' || c == '~'
}

/// A valid HTTP method name: non-empty, made of method characters only.
pub open spec fn is_method_token(s: Seq<char>) -> bool {
    s.len() > 0 && forall|i: int| 0 <= i < s.len() ==> #[trigger] is_method_char(s[i])
}

/// Parses an HTTP method with `reqwest::Method`'s `FromStr` and gives back its name.
/// The method parses exactly when the text is a method token, and its name is that text.
#[verifier::external_body]
fn parse_method(s: &str) -> (r: Option<String>)
    ensures
        r is Some <==> is_method_token(s@),
        r matches Some(m) ==> m@ == s@,
{
    s.parse::<reqwest::Method>().ok().map(|m| m.as_str().to_string())
}

/// The refusal of an unparsable HTTP method.
pub open spec fn bad_method(method: Seq<char>) -> Failure {
    Failure::Other(
        "Invalid HTTP method '"@ + method
            + "'. Expected a valid method such as GET, POST, PATCH, PUT, or DELETE"@,
    )
}

/// The HTTP method of `gb api`: the one given, else POST with a request body, else GET.
pub open spec fn spec_resolve_method(method: Option<Seq<char>>, has_input: bool) -> Result<
    Seq<char>,
    Failure,
> {
    match method {
        Some(m) => if is_method_token(m) {
            Ok(m)
        } else {
            Err(bad_method(m))
        },
        None => if has_input {
            Ok("POST"@)
        } else {
            Ok("GET"@)
        },
    }
}

/// The name of the HTTP method `gb api` sends.
pub fn resolve_method(method: Option<&str>, has_input: bool) -> (r: Result<String, GbError>)
    ensures
        str_result(r) == spec_resolve_method(
            match method {
                Some(m) => Some(m@),
                None => None,
            },
            has_input,
        ),
{
    match method {
        Some(value) => match parse_method(value) {
            Some(m) => Ok(m),
            None => {
                let mut msg = chars_of("Invalid HTTP method '");
                crate::text::push_str(&mut msg, value);
                crate::text::push_str(
                    &mut msg,
                    "'. Expected a valid method such as GET, POST, PATCH, PUT, or DELETE",
                );
                Err(crate::error::other(&msg))
            },
        },
        None => if has_input {
            Ok(string_of(&chars_of("POST")))
        } else {
            Ok(string_of(&chars_of("GET")))
        },
    }
}

} // verus!
