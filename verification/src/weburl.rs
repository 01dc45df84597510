//! The URL facts the client needs, obtained from the `url` crate.
//!
//! WHATWG URL parsing and serialisation are left to `url`; the library names
//! their results and reasons about what it does with them.
use vstd::prelude::*;

use crate::error::opt_view;

verus! {

/// The parts of a parsed URL that the client reads: scheme, host, explicit
/// port, port or the scheme's known default, path, query and fragment.
pub type UrlView = (
    Seq<char>,
    Option<Seq<char>>,
    Option<u16>,
    Option<u16>,
    Seq<char>,
    Option<Seq<char>>,
    Option<Seq<char>>,
);

/// What `url::Url::parse` gives for `input`: the parts of the URL, or the
/// parser's error message.
pub uninterp spec fn url_parse_outcome(input: Seq<char>) -> Result<UrlView, Seq<char>>;

/// The serialisation of the URL `base` after `Url::set_path(path)`,
/// `Url::set_query(query)` and `Url::set_fragment(fragment)`, when `base` parses.
pub uninterp spec fn url_replace_tail(
    base: Seq<char>,
    path: Seq<char>,
    query: Option<Seq<char>>,
    fragment: Option<Seq<char>>,
) -> Option<Seq<char>>;

/// The serialisation of `url` after `Url::set_username(user)` and
/// `Url::set_password(Some(password))`, when it parses and both succeed.
pub uninterp spec fn url_set_credentials(
    url: Seq<char>,
    user: Seq<char>,
    password: Seq<char>,
) -> Option<Seq<char>>;

/// The path of `https://example.invalid` after `path_segments_mut().extend(segments)`.
pub uninterp spec fn url_segments_path(segments: Seq<Seq<char>>) -> Seq<char>;

/// The port that `url` knows for a scheme (`url::parser::default_port`).
pub open spec fn default_port(scheme: Seq<char>) -> Option<u16> {
    if scheme == "http"@ || scheme == "ws"@ {
        Some(80)
    } else if scheme == "https"@ || scheme == "wss"@ {
        Some(443)
    } else if scheme == "ftp"@ {
        Some(21)
    } else {
        None
    }
}

/// The most characters that the inputs of one URL edit may hold together. A character takes
/// at most four bytes in UTF-8, which percent-encoding at most triples, so an edit within this
/// limit keeps the serialization (with its few delimiters) below `u32::MAX` bytes; past that,
/// `url`'s setters panic when they convert offsets to `u32`.
pub const URL_CHAR_LIMIT: u64 = 0x1550_0000;

/// Inputs short enough that `url` never overflows its `u32` offsets.
pub open spec fn url_size_ok(n: nat) -> bool {
    n <= URL_CHAR_LIMIT
}

/// The characters that path segments take in a path: each one and its `/`.
pub open spec fn segments_size(segments: Seq<Seq<char>>) -> nat
    decreases segments.len(),
{
    if segments.len() == 0 {
        0
    } else {
        segments_size(segments.drop_last()) + segments.last().len() + 1
    }
}

/// The parts of a URL that parsed.
pub struct ParsedUrl {
    pub scheme: String,
    pub host: Option<String>,
    pub port: Option<u16>,
    pub known_port: Option<u16>,
    pub path: String,
    pub query: Option<String>,
    pub fragment: Option<String>,
}

impl View for ParsedUrl {
    type V = UrlView;

    open spec fn view(&self) -> UrlView {
        (
            self.scheme@,
            opt_view(self.host),
            self.port,
            self.known_port,
            self.path@,
            opt_view(self.query),
            opt_view(self.fragment),
        )
    }
}

/// Calls `url::Url::parse(input)` and reads `scheme()`, `host_str()`, `port()`,
/// `port_or_known_default()`, `path()`, `query()` and `fragment()` off the
/// result.  Claims that the outcome is `url_parse_outcome(input)`, and, as the
/// source of `port_or_known_default` shows, that the known port is the explicit
/// port or else the scheme's default.
#[verifier::external_body]
pub(crate) fn parse_url(input: &str) -> (r: Result<ParsedUrl, String>)
    ensures
        match r {
            Ok(u) => url_parse_outcome(input@) == Ok::<UrlView, Seq<char>>(u@),
            Err(m) => url_parse_outcome(input@) == Err::<UrlView, Seq<char>>(m@),
        },
        r matches Ok(u) ==> u.known_port == (if u.port is Some {
            u.port
        } else {
            default_port(u.scheme@)
        }),
{
    match url::Url::parse(input) {
        Ok(u) => Ok(ParsedUrl {
            scheme: u.scheme().to_string(),
            host: u.host_str().map(|h| h.to_string()),
            port: u.port(),
            known_port: u.port_or_known_default(),
            path: u.path().to_string(),
            query: u.query().map(|q| q.to_string()),
            fragment: u.fragment().map(|f| f.to_string()),
        }),
        Err(e) => Err(e.to_string()),
    }
}

/// Parses `base` with `url::Url::parse`, then calls `set_path(path)`,
/// `set_query(query)` and `set_fragment(fragment)` and returns `as_str()`.
/// Claims that the result is `url_replace_tail(..)` of the arguments, and that
/// it is present exactly when `base` parses (the setters cannot fail).  The
/// setters panic only past `u32` offsets, which `requires` rules out.
#[verifier::external_body]
pub(crate) fn replace_url_tail(base: &str, path: &str, query: Option<&str>, fragment: Option<&str>) -> (r:
    Option<String>)
    requires
        url_size_ok(
            base@.len() + path@.len() + (match query {
                Some(q) => q@.len(),
                None => 0,
            }) + (match fragment {
                Some(f) => f@.len(),
                None => 0,
            }),
        ),
    ensures
        opt_view(r) == url_replace_tail(
            base@,
            path@,
            match query {
                Some(q) => Some(q@),
                None => None,
            },
            match fragment {
                Some(f) => Some(f@),
                None => None,
            },
        ),
        r is Some <==> url_parse_outcome(base@) is Ok,
{
    let mut u = url::Url::parse(base).ok()?;
    u.set_path(path);
    u.set_query(query);
    u.set_fragment(fragment);
    Some(u.as_str().to_string())
}

/// Parses `url` with `url::Url::parse`, then calls `set_username(user)` and
/// `set_password(Some(password))` and returns `as_str()`.  Claims that the
/// result is `url_set_credentials(..)` of the arguments and that it is absent
/// when `url` does not parse.
#[verifier::external_body]
pub(crate) fn add_url_credentials(url: &str, user: &str, password: &str) -> (r: Option<String>)
    requires
        url_size_ok(url@.len() + user@.len() + password@.len()),
    ensures
        opt_view(r) == url_set_credentials(url@, user@, password@),
        url_parse_outcome(url@) is Err ==> r is None,
{
    let mut u = url::Url::parse(url).ok()?;
    u.set_username(user).ok()?;
    u.set_password(Some(password)).ok()?;
    Some(u.as_str().to_string())
}

/// Builds the path of `https://example.invalid` extended by `segments` through
/// `path_segments_mut().extend(..)`, which percent-encodes each segment, and
/// returns `path()`.  Claims that the result is `url_segments_path(segments)`.  The
/// extension panics only past `u32` offsets, which `requires` rules out.
#[verifier::external_body]
pub(crate) fn segments_path(segments: &Vec<String>) -> (r: String)
    requires
        url_size_ok(segments_size(segments@.map_values(|s: String| s@))),
    ensures
        r@ == url_segments_path(segments@.map_values(|s: String| s@)),
{
    let mut url = url::Url::parse("https://example.invalid").expect("static URL must parse");
    url.path_segments_mut().expect("static URL must support path segments").extend(segments.iter());
    url.path().to_string()
}

} // verus!
