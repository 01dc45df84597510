//! The error type of the client and its abstract view.
use vstd::prelude::*;

use crate::text::{chars_of, decimal, decimal_of, push_all, push_str, string_of};

verus! {

/// Everything that can go wrong in a `gb` command.
#[derive(Debug)]
pub enum GbError {
    /// Invalid or missing local configuration.
    Config(String),
    /// Authentication failed or is not configured.
    Auth(String),
    /// The GitBucket API answered with a non-success status.
    Api { status: u16, message: String },
    /// Any other failure, with its message.
    Other(String),
    /// No repository could be determined.
    RepoNotFound,
    /// No credentials are stored for the host.
    NotAuthenticated,
    /// A transport-level HTTP failure, with its message.
    Http(String),
    /// A JSON encoding or decoding failure, with its message.
    Json(String),
    /// A URL that could not be parsed, with the parser's message.
    Url(String),
    /// An I/O failure, with its message.
    Io(String),
    /// Neither a live nor a saved diff of a pull request could be produced.
    DiffUnavailable { number: u64, cause: String, message: String },
}

/// The abstract value of a [`GbError`]: the same variants over character sequences.
pub enum Failure {
    Config(Seq<char>),
    Auth(Seq<char>),
    Api(u16, Seq<char>),
    Other(Seq<char>),
    RepoNotFound,
    NotAuthenticated,
    Http(Seq<char>),
    Json(Seq<char>),
    Url(Seq<char>),
    Io(Seq<char>),
    DiffUnavailable(u64, Seq<char>, Seq<char>),
}

impl View for GbError {
    type V = Failure;

    open spec fn view(&self) -> Failure {
        match self {
            GbError::Config(m) => Failure::Config(m@),
            GbError::Auth(m) => Failure::Auth(m@),
            GbError::Api { status, message } => Failure::Api(*status, message@),
            GbError::Other(m) => Failure::Other(m@),
            GbError::RepoNotFound => Failure::RepoNotFound,
            GbError::NotAuthenticated => Failure::NotAuthenticated,
            GbError::Http(m) => Failure::Http(m@),
            GbError::Json(m) => Failure::Json(m@),
            GbError::Url(m) => Failure::Url(m@),
            GbError::Io(m) => Failure::Io(m@),
            GbError::DiffUnavailable { number, cause, message } => Failure::DiffUnavailable(
                *number,
                cause@,
                message@,
            ),
        }
    }
}

/// The abstract value of a fallible string computation.
pub open spec fn str_result(r: Result<String, GbError>) -> Result<Seq<char>, Failure> {
    match r {
        Ok(s) => Ok(s@),
        Err(e) => Err(e@),
    }
}

/// The abstract value of a fallible check.
pub open spec fn unit_result(r: Result<(), GbError>) -> Result<(), Failure> {
    match r {
        Ok(_) => Ok(()),
        Err(e) => Err(e@),
    }
}

/// The abstract value of an optional string.
pub open spec fn opt_view(o: Option<String>) -> Option<Seq<char>> {
    match o {
        Some(s) => Some(s@),
        None => None,
    }
}

/// The human-readable text of a failure, as the command line prints it.
pub open spec fn failure_message(f: Failure) -> Seq<char> {
    match f {
        Failure::Config(m) => "Configuration error: "@ + m,
        Failure::Auth(m) => "Authentication error: "@ + m,
        Failure::Api(status, m) => "API error (HTTP "@ + decimal(status as nat) + "): "@ + m,
        Failure::Other(m) => m,
        Failure::RepoNotFound => "Could not determine the repository. Pass -R OWNER/REPO or run inside a git repository with an origin remote."@,
        Failure::NotAuthenticated => "Not authenticated. Run `gb auth login` first."@,
        Failure::Http(m) => "HTTP error: "@ + m,
        Failure::Json(m) => "JSON error: "@ + m,
        Failure::Url(m) => "Invalid URL: "@ + m,
        Failure::Io(m) => "I/O error: "@ + m,
        Failure::DiffUnavailable(n, cause, m) => "Diff for pull request #"@ + decimal(n as nat)
            + " is unavailable ("@ + cause + "): "@ + m,
    }
}

impl GbError {
    /// The human-readable text of this error.
    pub fn message(&self) -> (m: String)
        ensures
            m@ == failure_message(self@),
    {
        let mut out: Vec<char> = Vec::new();
        match self {
            GbError::Config(m) => {
                push_str(&mut out, "Configuration error: ");
                push_str(&mut out, m.as_str());
            },
            GbError::Auth(m) => {
                push_str(&mut out, "Authentication error: ");
                push_str(&mut out, m.as_str());
            },
            GbError::Api { status, message } => {
                push_str(&mut out, "API error (HTTP ");
                let d = decimal_of(*status as u64);
                push_all(&mut out, &d);
                push_str(&mut out, "): ");
                push_str(&mut out, message.as_str());
            },
            GbError::Other(m) => {
                push_str(&mut out, m.as_str());
            },
            GbError::RepoNotFound => {
                push_str(
                    &mut out,
                    "Could not determine the repository. Pass -R OWNER/REPO or run inside a git repository with an origin remote.",
                );
            },
            GbError::NotAuthenticated => {
                push_str(&mut out, "Not authenticated. Run `gb auth login` first.");
            },
            GbError::Http(m) => {
                push_str(&mut out, "HTTP error: ");
                push_str(&mut out, m.as_str());
            },
            GbError::Json(m) => {
                push_str(&mut out, "JSON error: ");
                push_str(&mut out, m.as_str());
            },
            GbError::Url(m) => {
                push_str(&mut out, "Invalid URL: ");
                push_str(&mut out, m.as_str());
            },
            GbError::Io(m) => {
                push_str(&mut out, "I/O error: ");
                push_str(&mut out, m.as_str());
            },
            GbError::DiffUnavailable { number, cause, message } => {
                push_str(&mut out, "Diff for pull request #");
                let d = decimal_of(*number);
                push_all(&mut out, &d);
                push_str(&mut out, " is unavailable (");
                push_str(&mut out, cause.as_str());
                push_str(&mut out, "): ");
                push_str(&mut out, message.as_str());
            },
        }
        string_of(&out)
    }
}

/// A `String` holding exactly the characters of `v`.
pub fn owned(v: &[char]) -> (s: String)
    ensures
        s@ == v@,
{
    string_of(v)
}

/// An `Other` error with the given text.
pub fn other(v: &[char]) -> (e: GbError)
    ensures
        e@ == Failure::Other(v@),
{
    GbError::Other(string_of(v))
}

/// A `Config` error with the given text.
pub fn config_error(v: &[char]) -> (e: GbError)
    ensures
        e@ == Failure::Config(v@),
{
    GbError::Config(string_of(v))
}

/// An `Auth` error with the given text.
pub fn auth_error(v: &[char]) -> (e: GbError)
    ensures
        e@ == Failure::Auth(v@),
{
    GbError::Auth(string_of(v))
}

/// The characters of a literal message.
pub fn text(s: &str) -> (v: Vec<char>)
    ensures
        v@ == s@,
{
    chars_of(s)
}

} // verus!
