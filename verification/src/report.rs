//! The text that `gb config list`, `gb config get` and `gb auth status` print.
use vstd::prelude::*;

use crate::auth::{
    spec_credential_source_label, spec_display_user, credential_source_label, display_user,
    AuthStatusOutput, EffectiveActor, HostStatusOutput, HostSummary, ProfileOutput,
    ProfileStatusOutput,
};
use crate::cli_args::HostField;
use crate::config::AuthConfig;
use crate::entries::lemma_entry_map_dom;
use crate::config::{host_entries, profile_entries};
use crate::error::opt_view;
use crate::text::{chars_of, push_str, string_of};

verus! {

/// `value`, or `<unset>` when there is none.
pub open spec fn or_unset(value: Option<Seq<char>>) -> Seq<char> {
    match value {
        Some(v) => v,
        None => "<unset>"@,
    }
}

fn push_or_unset(out: &mut Vec<char>, value: &Option<String>)
    ensures
        final(out)@ == old(out)@ + or_unset(opt_view(*value)),
{
    match value {
        Some(v) => push_str(out, v.as_str()),
        None => push_str(out, "<unset>"),
    }
}

/// Whether a token is stored, as `gb config` says it.
pub open spec fn token_word(has_token: bool) -> Seq<char> {
    if has_token {
        "configured"@
    } else {
        "missing"@
    }
}

// ---------------------------------------------------------------------------
// `gb config`
// ---------------------------------------------------------------------------

/// The lines describing saved credentials, each behind `indent`.
pub open spec fn summary_lines(h: HostSummary, indent: Seq<char>) -> Seq<char> {
    indent + "User: "@ + spec_display_user(h.user@) + "\n"@ + indent + "Protocol: "@ + h.protocol@
        + "\n"@ + indent + "Token: "@ + token_word(h.has_token) + "\n"@
}

fn push_summary_lines(out: &mut Vec<char>, h: &HostSummary, indent: &str)
    ensures
        final(out)@ == old(out)@ + summary_lines(*h, indent@),
{
    let ghost start = out@;
    push_str(out, indent);
    push_str(out, "User: ");
    push_str(out, display_user(h.user.as_str()).as_str());
    push_str(out, "\n");
    push_str(out, indent);
    push_str(out, "Protocol: ");
    push_str(out, h.protocol.as_str());
    push_str(out, "\n");
    push_str(out, indent);
    push_str(out, "Token: ");
    if h.has_token {
        push_str(out, "configured");
    } else {
        push_str(out, "missing");
    }
    push_str(out, "\n");
    assert(out@ =~= start + summary_lines(*h, indent@));
}

/// Saved hosts in list order: each name behind `name_indent`, then its lines behind `indent`.
pub open spec fn hosts_lines(hs: Seq<(String, HostSummary)>, name_indent: Seq<char>, indent: Seq<char>) -> Seq<
    char,
>
    decreases hs.len(),
{
    if hs.len() == 0 {
        Seq::empty()
    } else {
        hosts_lines(hs.drop_last(), name_indent, indent) + name_indent + hs.last().0@ + "\n"@
            + summary_lines(hs.last().1, indent)
    }
}

fn push_hosts_lines(out: &mut Vec<char>, hs: &Vec<(String, HostSummary)>, name_indent: &str, indent: &str)
    ensures
        final(out)@ == old(out)@ + hosts_lines(hs@, name_indent@, indent@),
{
    let ghost start = out@;
    let mut i: usize = 0;
    assert(hs@.take(0) =~= Seq::<(String, HostSummary)>::empty());
    while i < hs.len()
        invariant
            i <= hs@.len(),
            out@ == start + hosts_lines(hs@.take(i as int), name_indent@, indent@),
        decreases hs@.len() - i,
    {
        push_str(out, name_indent);
        push_str(out, hs[i].0.as_str());
        push_str(out, "\n");
        push_summary_lines(out, &hs[i].1, indent);
        assert(hs@.take(i + 1).drop_last() =~= hs@.take(i as int));
        assert(out@ =~= start + hosts_lines(hs@.take(i + 1), name_indent@, indent@));
        i = i + 1;
    }
    assert(hs@.take(hs@.len() as int) =~= hs@);
}

/// A `Hosts:` section, or `Hosts: <none>` behind `indent`.
pub open spec fn hosts_section(
    hs: Seq<(String, HostSummary)>,
    indent: Seq<char>,
    name_indent: Seq<char>,
    line_indent: Seq<char>,
) -> Seq<char> {
    if hs.len() == 0 {
        indent + "Hosts: <none>\n"@
    } else {
        indent + "Hosts:\n"@ + hosts_lines(hs, name_indent, line_indent)
    }
}

fn push_hosts_section(
    out: &mut Vec<char>,
    hs: &Vec<(String, HostSummary)>,
    indent: &str,
    name_indent: &str,
    line_indent: &str,
)
    ensures
        final(out)@ == old(out)@ + hosts_section(hs@, indent@, name_indent@, line_indent@),
{
    let ghost start = out@;
    push_str(out, indent);
    if hs.len() == 0 {
        push_str(out, "Hosts: <none>\n");
    } else {
        push_str(out, "Hosts:\n");
        push_hosts_lines(out, hs, name_indent, line_indent);
    }
    assert(out@ =~= start + hosts_section(hs@, indent@, name_indent@, line_indent@));
}

/// A profile in `gb config list`.
pub open spec fn profile_lines(name: Seq<char>, p: ProfileOutput) -> Seq<char> {
    name + "\n"@ + "  Default host: "@ + or_unset(opt_view(p.default_host)) + "\n"@
        + "  Default repo: "@ + or_unset(opt_view(p.default_repo)) + "\n"@ + hosts_section(
        p.hosts@,
        "  "@,
        "  "@,
        "    "@,
    )
}

/// The profiles of `gb config list`, in list order.
pub open spec fn profiles_lines(ps: Seq<(String, ProfileOutput)>) -> Seq<char>
    decreases ps.len(),
{
    if ps.len() == 0 {
        Seq::empty()
    } else {
        profiles_lines(ps.drop_last()) + profile_lines(ps.last().0@, ps.last().1)
    }
}

fn push_profile_lines(out: &mut Vec<char>, name: &str, p: &ProfileOutput)
    ensures
        final(out)@ == old(out)@ + profile_lines(name@, *p),
{
    let ghost start = out@;
    push_str(out, name);
    push_str(out, "\n");
    push_str(out, "  Default host: ");
    push_or_unset(out, &p.default_host);
    push_str(out, "\n");
    push_str(out, "  Default repo: ");
    push_or_unset(out, &p.default_repo);
    push_str(out, "\n");
    push_hosts_section(out, &p.hosts, "  ", "  ", "    ");
    assert(out@ =~= start + profile_lines(name@, *p));
}

/// The default-host or default-profile line of `gb config list`.
pub open spec fn default_line(what: Seq<char>, value: Option<Seq<char>>, saved: bool) -> Seq<char> {
    match value {
        Some(v) => if saved {
            "Default "@ + what + ": "@ + v + "\n"@
        } else {
            "Default "@ + what + ": "@ + v + " (missing saved "@ + what + " entry)\n"@
        },
        None => "Default "@ + what + ": <unset>\n"@,
    }
}

fn push_default_line(out: &mut Vec<char>, what: &str, value: &Option<String>, saved: bool)
    ensures
        final(out)@ == old(out)@ + default_line(what@, opt_view(*value), saved),
{
    let ghost start = out@;
    push_str(out, "Default ");
    push_str(out, what);
    match value {
        Some(v) => {
            push_str(out, ": ");
            push_str(out, v.as_str());
            if saved {
                push_str(out, "\n");
            } else {
                push_str(out, " (missing saved ");
                push_str(out, what);
                push_str(out, " entry)\n");
            }
        },
        None => {
            push_str(out, ": <unset>\n");
        },
    }
    assert(out@ =~= start + default_line(what@, opt_view(*value), saved));
}

/// The text of `gb config list`, given the summaries of the saved hosts and profiles.
pub open spec fn spec_config_list_text(
    default_host: Option<Seq<char>>,
    host_saved: bool,
    default_profile: Option<Seq<char>>,
    profile_saved: bool,
    path: Seq<char>,
    hosts: Seq<(String, HostSummary)>,
    profiles: Seq<(String, ProfileOutput)>,
) -> Seq<char> {
    "Path: "@ + path + "\n"@ + default_line("host"@, default_host, host_saved) + default_line(
        "profile"@,
        default_profile,
        profile_saved,
    ) + hosts_section(hosts, ""@, ""@, "  "@) + if profiles.len() == 0 {
        "Profiles: <none>\n"@
    } else {
        "Profiles:\n"@ + profiles_lines(profiles)
    }
}

/// Renders `gb config list` from the configuration and the summaries of its hosts and profiles
/// (see `summarize_hosts` and `summarize_profiles`).
pub fn config_list_text(
    config: &AuthConfig,
    path: &str,
    hosts: &Vec<(String, HostSummary)>,
    profiles: &Vec<(String, ProfileOutput)>,
) -> (r: String)
    requires
        config.wf(),
    ensures
        r@ == spec_config_list_text(
            config@.default_host,
            config@.default_host matches Some(h) && config@.hosts.dom().contains(h),
            config@.default_profile,
            config@.default_profile matches Some(p) && config@.profiles.dom().contains(p),
            path@,
            hosts@,
            profiles@,
        ),
{
    let mut out = chars_of("Path: ");
    push_str(&mut out, path);
    push_str(&mut out, "\n");
    let host_saved = match &config.default_host {
        Some(h) => config.stored_hostname(h.as_str()).is_some(),
        None => false,
    };
    let profile_saved = match &config.default_profile {
        Some(p) => config.profile(p.as_str()).is_ok(),
        None => false,
    };
    push_default_line(&mut out, "host", &config.default_host, host_saved);
    push_default_line(&mut out, "profile", &config.default_profile, profile_saved);
    push_hosts_section(&mut out, hosts, "", "", "  ");
    let ghost mid = out@;
    if profiles.len() == 0 {
        push_str(&mut out, "Profiles: <none>\n");
    } else {
        push_str(&mut out, "Profiles:\n");
        let ghost start = out@;
        let mut i: usize = 0;
        assert(profiles@.take(0) =~= Seq::<(String, ProfileOutput)>::empty());
        while i < profiles.len()
            invariant
                i <= profiles@.len(),
                out@ == start + profiles_lines(profiles@.take(i as int)),
            decreases profiles@.len() - i,
        {
            push_profile_lines(&mut out, profiles[i].0.as_str(), &profiles[i].1);
            assert(profiles@.take(i + 1).drop_last() =~= profiles@.take(i as int));
            assert(out@ =~= start + profiles_lines(profiles@.take(i + 1)));
            i = i + 1;
        }
        assert(profiles@.take(profiles@.len() as int) =~= profiles@);
    }
    proof {
        reveal_strlit("");
    }
    string_of(&out)
}

/// The text of `gb config get host`: one field, or every field.
pub open spec fn spec_host_text(hostname: Seq<char>, h: HostSummary, field: Option<HostField>) -> Seq<
    char,
> {
    match field {
        Some(HostField::User) => h.user@ + "\n"@,
        Some(HostField::Protocol) => h.protocol@ + "\n"@,
        Some(HostField::HasToken) => (if h.has_token {
            "true"@
        } else {
            "false"@
        }) + "\n"@,
        None => "Host: "@ + hostname + "\n"@ + summary_lines(h, ""@),
    }
}

/// Renders `gb config get host`.
pub fn host_text(hostname: &str, h: &HostSummary, field: Option<HostField>) -> (r: String)
    ensures
        r@ == spec_host_text(hostname@, *h, field),
{
    let mut out: Vec<char> = Vec::new();
    match field {
        Some(HostField::User) => {
            push_str(&mut out, h.user.as_str());
            push_str(&mut out, "\n");
        },
        Some(HostField::Protocol) => {
            push_str(&mut out, h.protocol.as_str());
            push_str(&mut out, "\n");
        },
        Some(HostField::HasToken) => {
            if h.has_token {
                push_str(&mut out, "true");
            } else {
                push_str(&mut out, "false");
            }
            push_str(&mut out, "\n");
        },
        None => {
            push_str(&mut out, "Host: ");
            push_str(&mut out, hostname);
            push_str(&mut out, "\n");
            push_summary_lines(&mut out, h, "");
        },
    }
    proof {
        reveal_strlit("");
    }
    assert(out@ =~= spec_host_text(hostname@, *h, field));
    string_of(&out)
}

/// The text of `gb config get profile`.
pub open spec fn spec_profile_text(p: ProfileOutput) -> Seq<char> {
    "Profile: "@ + p.name@ + "\n"@ + "Default host: "@ + or_unset(opt_view(p.default_host)) + "\n"@
        + "Default repo: "@ + or_unset(opt_view(p.default_repo)) + "\n"@ + hosts_section(
        p.hosts@,
        ""@,
        ""@,
        "  "@,
    )
}

/// Renders `gb config get profile`.
pub fn profile_text(p: &ProfileOutput) -> (r: String)
    ensures
        r@ == spec_profile_text(*p),
{
    let mut out = chars_of("Profile: ");
    push_str(&mut out, p.name.as_str());
    push_str(&mut out, "\n");
    push_str(&mut out, "Default host: ");
    push_or_unset(&mut out, &p.default_host);
    push_str(&mut out, "\n");
    push_str(&mut out, "Default repo: ");
    push_or_unset(&mut out, &p.default_repo);
    push_str(&mut out, "\n");
    push_hosts_section(&mut out, &p.hosts, "", "", "  ");
    string_of(&out)
}

// ---------------------------------------------------------------------------
// `gb auth status`
// ---------------------------------------------------------------------------

/// The effective-actor line behind `indent`.
pub open spec fn actor_line(a: EffectiveActor, indent: Seq<char>) -> Seq<char> {
    indent + "Effective actor: "@ + a.user@ + " @ "@ + a.host@ + " ("@ + spec_credential_source_label(
        a.credential_source,
    ) + ")\n"@
}

fn push_actor_line(out: &mut Vec<char>, a: &EffectiveActor, indent: &str)
    ensures
        final(out)@ == old(out)@ + actor_line(*a, indent@),
{
    let ghost start = out@;
    push_str(out, indent);
    push_str(out, "Effective actor: ");
    push_str(out, a.user.as_str());
    push_str(out, " @ ");
    push_str(out, a.host.as_str());
    push_str(out, " (");
    push_str(out, credential_source_label(a.credential_source));
    push_str(out, ")\n");
    assert(out@ =~= start + actor_line(*a, indent@));
}

/// Logged-in hosts in list order: each name behind `name_indent`, then its user and protocol
/// behind `indent`.
pub open spec fn logged_in_lines(
    hs: Seq<(String, HostStatusOutput)>,
    name_indent: Seq<char>,
    indent: Seq<char>,
) -> Seq<char>
    decreases hs.len(),
{
    if hs.len() == 0 {
        Seq::empty()
    } else {
        logged_in_lines(hs.drop_last(), name_indent, indent) + name_indent + hs.last().0@ + "\n"@
            + indent + "\u{2713} Logged in as "@ + hs.last().1.user@ + "\n"@ + indent + "Protocol: "@
            + hs.last().1.protocol@ + "\n"@
    }
}

fn push_logged_in_lines(
    out: &mut Vec<char>,
    hs: &Vec<(String, HostStatusOutput)>,
    name_indent: &str,
    indent: &str,
)
    ensures
        final(out)@ == old(out)@ + logged_in_lines(hs@, name_indent@, indent@),
{
    let ghost start = out@;
    let mut i: usize = 0;
    assert(hs@.take(0) =~= Seq::<(String, HostStatusOutput)>::empty());
    while i < hs.len()
        invariant
            i <= hs@.len(),
            out@ == start + logged_in_lines(hs@.take(i as int), name_indent@, indent@),
        decreases hs@.len() - i,
    {
        push_str(out, name_indent);
        push_str(out, hs[i].0.as_str());
        push_str(out, "\n");
        push_str(out, indent);
        push_str(out, "\u{2713} Logged in as ");
        push_str(out, hs[i].1.user.as_str());
        push_str(out, "\n");
        push_str(out, indent);
        push_str(out, "Protocol: ");
        push_str(out, hs[i].1.protocol.as_str());
        push_str(out, "\n");
        assert(hs@.take(i + 1).drop_last() =~= hs@.take(i as int));
        assert(out@ =~= start + logged_in_lines(hs@.take(i + 1), name_indent@, indent@));
        i = i + 1;
    }
    assert(hs@.take(hs@.len() as int) =~= hs@);
}

/// An optional `  Default ...:` line.
pub open spec fn optional_default(what: Seq<char>, value: Option<Seq<char>>) -> Seq<char> {
    match value {
        Some(v) => "  Default "@ + what + ": "@ + v + "\n"@,
        None => Seq::empty(),
    }
}

fn push_optional_default(out: &mut Vec<char>, what: &str, value: &Option<String>)
    ensures
        final(out)@ == old(out)@ + optional_default(what@, opt_view(*value)),
{
    let ghost start = out@;
    match value {
        Some(v) => {
            push_str(out, "  Default ");
            push_str(out, what);
            push_str(out, ": ");
            push_str(out, v.as_str());
            push_str(out, "\n");
        },
        None => {},
    }
    proof {
        reveal_strlit("");
    }
    assert(out@ =~= start + optional_default(what@, opt_view(*value)));
}

/// A profile in the overall `gb auth status`.
pub open spec fn status_profile_lines(name: Seq<char>, p: ProfileStatusOutput) -> Seq<char> {
    name + "\n"@ + optional_default("host"@, opt_view(p.default_host)) + optional_default(
        "repo"@,
        opt_view(p.default_repo),
    ) + match p.effective_actor {
        Some(a) => actor_line(a, "  "@),
        None => Seq::empty(),
    } + logged_in_lines(p.hosts@, "  "@, "    "@)
}

/// The profiles of the overall `gb auth status`, in list order.
pub open spec fn status_profiles_lines(ps: Seq<(String, ProfileStatusOutput)>) -> Seq<char>
    decreases ps.len(),
{
    if ps.len() == 0 {
        Seq::empty()
    } else {
        status_profiles_lines(ps.drop_last()) + status_profile_lines(ps.last().0@, ps.last().1)
    }
}

fn push_status_profile_lines(out: &mut Vec<char>, name: &str, p: &ProfileStatusOutput)
    ensures
        final(out)@ == old(out)@ + status_profile_lines(name@, *p),
{
    let ghost start = out@;
    push_str(out, name);
    push_str(out, "\n");
    push_optional_default(out, "host", &p.default_host);
    push_optional_default(out, "repo", &p.default_repo);
    let ghost mid = out@;
    match &p.effective_actor {
        Some(a) => push_actor_line(out, a, "  "),
        None => {},
    }
    proof {
        reveal_strlit("");
    }
    assert(out@ =~= mid + match p.effective_actor {
        Some(a) => actor_line(a, "  "@),
        None => Seq::empty(),
    });
    push_logged_in_lines(out, &p.hosts, "  ", "    ");
    assert(out@ =~= start + status_profile_lines(name@, *p));
}

/// What `gb auth status` prints for nobody logged in anywhere.
pub open spec fn not_logged_in_text() -> Seq<char> {
    "Not logged in to any GitBucket instance.\nRun `gb auth login` to authenticate.\n"@
}

/// The overall text of `gb auth status`.
pub open spec fn spec_status_text(o: AuthStatusOutput, nothing_stored: bool) -> Seq<char> {
    if nothing_stored {
        not_logged_in_text()
    } else {
        logged_in_lines(o.hosts@, ""@, "  "@) + if o.profiles@.len() > 0 {
            "Profiles:\n"@ + status_profiles_lines(o.profiles@)
        } else {
            Seq::empty()
        }
    }
}

/// Renders the overall `gb auth status`; `nothing_stored` says that no credentials are saved
/// anywhere (see [`no_credentials_stored`]).
pub fn status_text(o: &AuthStatusOutput, nothing_stored: bool) -> (r: String)
    ensures
        r@ == spec_status_text(*o, nothing_stored),
{
    if nothing_stored {
        return string_of(
            &chars_of(
                "Not logged in to any GitBucket instance.\nRun `gb auth login` to authenticate.\n",
            ),
        );
    }
    let mut out: Vec<char> = Vec::new();
    push_logged_in_lines(&mut out, &o.hosts, "", "  ");
    if o.profiles.len() > 0 {
        push_str(&mut out, "Profiles:\n");
        let ghost start = out@;
        let mut i: usize = 0;
        assert(o.profiles@.take(0) =~= Seq::<(String, ProfileStatusOutput)>::empty());
        while i < o.profiles.len()
            invariant
                i <= o.profiles@.len(),
                out@ == start + status_profiles_lines(o.profiles@.take(i as int)),
            decreases o.profiles@.len() - i,
        {
            push_status_profile_lines(&mut out, o.profiles[i].0.as_str(), &o.profiles[i].1);
            assert(o.profiles@.take(i + 1).drop_last() =~= o.profiles@.take(i as int));
            assert(out@ =~= start + status_profiles_lines(o.profiles@.take(i + 1)));
            i = i + 1;
        }
        assert(o.profiles@.take(o.profiles@.len() as int) =~= o.profiles@);
    }
    proof {
        reveal_strlit("");
    }
    string_of(&out)
}

/// The text of `gb auth status` narrowed to one profile: its defaults, actor and credentials.
pub open spec fn spec_profile_status_text(o: AuthStatusOutput) -> Seq<char> {
    if o.profiles@.len() == 0 {
        Seq::empty()
    } else {
        let name = o.profiles@[0].0@;
        let p = o.profiles@[0].1;
        "Profile: "@ + name + "\n"@ + "  Default host: "@ + or_unset(opt_view(p.default_host))
            + "\n"@ + "  Default repo: "@ + or_unset(opt_view(p.default_repo)) + "\n"@
            + match p.effective_actor {
            Some(a) => actor_line(a, "  "@),
            None => "  Effective actor: <not authenticated>\n"@,
        } + if p.hosts@.len() > 0 {
            "  Stored credentials:\n"@ + logged_in_lines(p.hosts@, "    "@, "      "@)
        } else {
            Seq::empty()
        }
    }
}

/// Renders `gb auth status` narrowed to the first profile shown.
pub fn profile_status_text(o: &AuthStatusOutput) -> (r: String)
    ensures
        r@ == spec_profile_status_text(*o),
{
    let mut out: Vec<char> = Vec::new();
    if o.profiles.len() == 0 {
        proof {
            reveal_strlit("");
        }
        return string_of(&out);
    }
    let name = &o.profiles[0].0;
    let p = &o.profiles[0].1;
    push_str(&mut out, "Profile: ");
    push_str(&mut out, name.as_str());
    push_str(&mut out, "\n");
    push_str(&mut out, "  Default host: ");
    push_or_unset(&mut out, &p.default_host);
    push_str(&mut out, "\n");
    push_str(&mut out, "  Default repo: ");
    push_or_unset(&mut out, &p.default_repo);
    push_str(&mut out, "\n");
    let ghost mid = out@;
    match &p.effective_actor {
        Some(a) => push_actor_line(&mut out, a, "  "),
        None => push_str(&mut out, "  Effective actor: <not authenticated>\n"),
    }
    let ghost mid2 = out@;
    if p.hosts.len() > 0 {
        push_str(&mut out, "  Stored credentials:\n");
        push_logged_in_lines(&mut out, &p.hosts, "    ", "      ");
    }
    proof {
        reveal_strlit("");
    }
    assert(out@ =~= spec_profile_status_text(*o));
    string_of(&out)
}

/// Whether no credentials are saved anywhere, globally or in any profile.
pub open spec fn spec_no_credentials_stored(c: crate::config::AuthView) -> bool {
    &&& c.hosts.dom() =~= Set::empty()
    &&& forall|k: Seq<char>| #[trigger] c.profiles.dom().contains(k) ==> c.profiles[k].hosts.dom()
        =~= Set::empty()
}

/// Whether no credentials are saved anywhere.
pub fn no_credentials_stored(config: &AuthConfig) -> (r: bool)
    requires
        config.wf(),
    ensures
        r == spec_no_credentials_stored(config@),
{
    let ghost c = config@;
    proof {
        if config.hosts@.len() > 0 {
            let k = host_entries(config.hosts@)[0].0;
            lemma_entry_map_dom(host_entries(config.hosts@), k);
            assert(c.hosts.dom().contains(k));
        } else {
            assert forall|k: Seq<char>| !c.hosts.dom().contains(k) by {
                lemma_entry_map_dom(host_entries(config.hosts@), k);
            }
        }
    }
    if config.hosts.len() > 0 {
        return false;
    }
    let ghost t = profile_entries(config.profiles@);
    let mut i: usize = 0;
    while i < config.profiles.len()
        invariant
            i <= config.profiles@.len(),
            config.wf(),
            c == config@,
            t == profile_entries(config.profiles@),
            forall|j: int| 0 <= j < i ==> (#[trigger] config.profiles@[j]).1.hosts@.len() == 0,
        decreases config.profiles@.len() - i,
    {
        if config.profiles[i].1.hosts.len() > 0 {
            proof {
                assert(t[i as int] == (config.profiles@[i as int].0@, config.profiles@[i as int].1@));
                crate::entries::lemma_entry_map_at(t, i as int);
                let hs = config.profiles@[i as int].1.hosts@;
                lemma_entry_map_dom(host_entries(hs), host_entries(hs)[0].0);
                assert(c.profiles[t[i as int].0].hosts.dom().contains(host_entries(hs)[0].0));
            }
            return false;
        }
        i = i + 1;
    }
    proof {
        assert forall|k: Seq<char>| #[trigger] c.profiles.dom().contains(k) implies c.profiles[k].hosts.dom()
            =~= Set::empty() by {
            lemma_entry_map_dom(t, k);
            let j = choose|j: int| 0 <= j < t.len() && t[j].0 == k;
            assert(t[j] == (config.profiles@[j].0@, config.profiles@[j].1@));
            crate::entries::lemma_entry_map_at(t, j);
            assert forall|h: Seq<char>| !c.profiles[k].hosts.dom().contains(h) by {
                lemma_entry_map_dom(host_entries(config.profiles@[j].1.hosts@), h);
            }
        }
    }
    true
}

} // verus!
