//! Decisions of the GitBucket web-form session: how responses are judged and
//! which milestone-state actions exist.
use vstd::prelude::*;

use crate::error::{auth_error, other, str_result, unit_result, Failure, GbError};
use crate::text::{
    chars_of, contains_str, decimal, decimal_of, ends_with_str, eq_str, has_infix, has_suffix,
    push_all, push_str, string_of, trim, trimmed,
};

verus! {

/// A 2xx status.
pub open spec fn is_success(status: u16) -> bool {
    200 <= status <= 299
}

/// A 3xx status.
pub open spec fn is_redirection(status: u16) -> bool {
    300 <= status <= 399
}

/// The session was sent back to sign in, or refused.
pub open spec fn session_rejected(status: u16, final_path: Seq<char>) -> bool {
    status == 401 || status == 403 || has_suffix(final_path, "/signin"@)
}

/// How a web-form response is judged: a rejected session, success (2xx or
/// redirect), or a failure with the status and any body text.
pub open spec fn spec_ensure_success(status: u16, final_path: Seq<char>, body: Seq<char>, action: Seq<char>) -> Result<
    (),
    Failure,
> {
    if session_rejected(status, final_path) {
        Err(
            Failure::Auth(
                "GitBucket web session failed while trying to "@ + action
                    + ". Re-run the command and enter your password again."@,
            ),
        )
    } else if is_success(status) || is_redirection(status) {
        Ok(())
    } else {
        let suffix = if trim(body).len() == 0 {
            Seq::empty()
        } else {
            ": "@ + trim(body)
        };
        Err(Failure::Other("Failed to "@ + action + ": HTTP "@ + decimal(status as nat) + suffix))
    }
}

/// Judges the response to a web-form action; `final_path` is the path after redirects.
pub fn ensure_success(status: u16, final_path: &str, body: &str, action: &str) -> (r: Result<
    (),
    GbError,
>)
    ensures
        unit_result(r) == spec_ensure_success(status, final_path@, body@, action@),
{
    if status == 401 || status == 403 || ends_with_str(&chars_of(final_path), "/signin") {
        let mut msg = chars_of("GitBucket web session failed while trying to ");
        push_str(&mut msg, action);
        push_str(&mut msg, ". Re-run the command and enter your password again.");
        return Err(auth_error(&msg));
    }
    if (200 <= status && status <= 299) || (300 <= status && status <= 399) {
        return Ok(());
    }
    let t = trimmed(&chars_of(body));
    let mut msg = chars_of("Failed to ");
    push_str(&mut msg, action);
    push_str(&mut msg, ": HTTP ");
    push_all(&mut msg, &decimal_of(status as u64));
    let ghost head = msg@;
    if t.len() > 0 {
        push_str(&mut msg, ": ");
        push_all(&mut msg, &t);
    } else {
        assert(msg@ =~= head + Seq::<char>::empty());
    }
    assert(msg@ =~= "Failed to "@ + action@ + ": HTTP "@ + decimal(status as nat) + (if trim(body@).len() == 0 {
        Seq::<char>::empty()
    } else {
        ": "@ + trim(body@)
    }));
    Err(other(&msg))
}

/// How the sign-in response is judged: bad credentials, a failed request, or success.
pub open spec fn spec_sign_in_outcome(status: u16, final_path: Seq<char>, body: Seq<char>, username: Seq<char>) -> Result<
    (),
    Failure,
> {
    if status == 401 || status == 403 || (has_suffix(final_path, "/signin"@) && has_infix(
        body,
        "incorrect"@,
    )) {
        Err(
            Failure::Auth(
                "GitBucket web sign-in failed for '"@ + username
                    + "'. Check your username/password."@,
            ),
        )
    } else if !is_success(status) && !is_redirection(status) {
        Err(Failure::Other("GitBucket web sign-in failed: HTTP "@ + decimal(status as nat)))
    } else {
        Ok(())
    }
}

/// Judges the response to the sign-in form.
pub fn sign_in_outcome(status: u16, final_path: &str, body: &str, username: &str) -> (r: Result<
    (),
    GbError,
>)
    ensures
        unit_result(r) == spec_sign_in_outcome(status, final_path@, body@, username@),
{
    if status == 401 || status == 403 || (ends_with_str(&chars_of(final_path), "/signin")
        && contains_str(&chars_of(body), "incorrect")) {
        let mut msg = chars_of("GitBucket web sign-in failed for '");
        push_str(&mut msg, username);
        push_str(&mut msg, "'. Check your username/password.");
        return Err(auth_error(&msg));
    }
    if !(200 <= status && status <= 299) && !(300 <= status && status <= 399) {
        let mut msg = chars_of("GitBucket web sign-in failed: HTTP ");
        push_all(&mut msg, &decimal_of(status as u64));
        return Err(other(&msg));
    }
    Ok(())
}

/// The milestone-state actions of the web interface: `open` and `close`.
pub open spec fn spec_milestone_state_action(state: Seq<char>) -> Result<Seq<char>, Failure> {
    if state == "open"@ || state == "close"@ {
        Ok(state)
    } else {
        Err(
            Failure::Other(
                "Invalid milestone state action '"@ + state + "'. Expected open or close."@,
            ),
        )
    }
}

/// Checks a milestone-state action for the web interface.
pub fn milestone_state_action(state: &str) -> (r: Result<String, GbError>)
    ensures
        str_result(r) == spec_milestone_state_action(state@),
{
    let s = chars_of(state);
    if eq_str(&s, "open") || eq_str(&s, "close") {
        Ok(string_of(&s))
    } else {
        let mut msg = chars_of("Invalid milestone state action '");
        push_all(&mut msg, &s);
        push_str(&mut msg, "'. Expected open or close.");
        Err(other(&msg))
    }
}

/// How an API response is judged: the body of a 2xx answer, else an API error with the status
/// and the body.
pub open spec fn spec_api_response(status: u16, body: Seq<char>) -> Result<Seq<char>, Failure> {
    if is_success(status) {
        Ok(body)
    } else {
        Err(Failure::Api(status, body))
    }
}

/// Judges an API response by its status.
pub fn api_response(status: u16, body: String) -> (r: Result<String, GbError>)
    ensures
        str_result(r) == spec_api_response(status, body@),
{
    if 200 <= status && status <= 299 {
        Ok(body)
    } else {
        Err(GbError::Api { status, message: body })
    }
}

/// Whether a successful raw API answer carries no JSON (blank body), and so reads as `null`.
pub fn is_blank_body(body: &str) -> (r: bool)
    ensures
        r == (trim(body@).len() == 0),
{
    trimmed(&chars_of(body)).len() == 0
}

} // verus!
