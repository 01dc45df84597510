//! What `gb auth` and `gb config` report about the stored configuration, and the choices they
//! make: which profile is in use, which credentials act, and how login failures read.
use vstd::prelude::*;

use crate::config::{
    host_entries, host_map, profile_entries, spec_config_hostname, spec_get_host_for_profile,
    spec_active_profile_name, spec_profile, str_opt, stored_for_profile, AuthConfig, AuthView,
    HostConfig, HostView, ProfileConfig, ProfileView,
};
use crate::common::opt_str_result;
use crate::entries::{
    distinct_names, entry_map, insert_in_order, keyed, lemma_mapped_step, lemma_same_names,
    lemma_sorted_distinct, mapped, names_sorted,
};
use crate::error::{auth_error, config_error, opt_view, str_result, Failure, GbError};
use crate::text::{chars_of, push_str, string_of, trim, trimmed};

verus! {

fn copy_string(s: &String) -> (r: String)
    ensures
        r@ == s@,
{
    s.clone()
}

fn copy_opt_string(s: &Option<String>) -> (r: Option<String>)
    ensures
        opt_view(r) == opt_view(*s),
{
    match s {
        Some(v) => Some(v.clone()),
        None => None,
    }
}

// ---------------------------------------------------------------------------
// Host summaries
// ---------------------------------------------------------------------------

/// What `gb config` shows of saved credentials: never the token itself.
pub struct HostSummary {
    pub user: String,
    pub protocol: String,
    pub has_token: bool,
}

/// The abstract value of a host summary.
pub struct HostSummaryView {
    pub user: Seq<char>,
    pub protocol: Seq<char>,
    pub has_token: bool,
}

impl View for HostSummary {
    type V = HostSummaryView;

    open spec fn view(&self) -> HostSummaryView {
        HostSummaryView { user: self.user@, protocol: self.protocol@, has_token: self.has_token }
    }
}

/// The summary of saved credentials.
pub open spec fn spec_host_summary(h: HostView) -> HostSummaryView {
    HostSummaryView { user: h.user, protocol: h.protocol, has_token: h.token.len() > 0 }
}

/// Summarizes saved credentials.
pub fn host_summary(host: &HostConfig) -> (r: HostSummary)
    ensures
        r@ == spec_host_summary(host@),
{
    HostSummary {
        user: copy_string(&host.user),
        protocol: copy_string(&host.protocol),
        has_token: chars_of(host.token.as_str()).len() > 0,
    }
}

/// The abstract entries of a list of host summaries.
pub open spec fn summary_entries(s: Seq<(String, HostSummary)>) -> Seq<(Seq<char>, HostSummaryView)> {
    s.map_values(|e: (String, HostSummary)| (e.0@, e.1@))
}

/// Every saved host of a list, summarized, in name order.
pub fn summarize_hosts(hosts: &Vec<(String, HostConfig)>) -> (r: Vec<(String, HostSummary)>)
    requires
        distinct_names(host_entries(hosts@)),
    ensures
        names_sorted(summary_entries(r@)),
        entry_map(summary_entries(r@)) == mapped(
            host_map(hosts@),
            |k: Seq<char>, h: HostView| spec_host_summary(h),
        ),
{
    let ghost t = host_entries(hosts@);
    let ghost f = |k: Seq<char>, h: HostView| spec_host_summary(h);
    let mut out: Vec<(String, HostSummary)> = Vec::new();
    let mut i: usize = 0;
    proof {
        assert(entry_map(summary_entries(out@)) =~= mapped(entry_map(t.take(0)), f));
    }
    assert(forall|k: Seq<char>, h: HostView| #[trigger] f(k, h) == spec_host_summary(h));
    while i < hosts.len()
        invariant
            i <= hosts@.len(),
            t == host_entries(hosts@),
            distinct_names(t),
            forall|k: Seq<char>, h: HostView| #[trigger] f(k, h) == spec_host_summary(h),
            names_sorted(summary_entries(out@)),
            entry_map(summary_entries(out@)) == mapped(entry_map(t.take(i as int)), f),
        decreases hosts@.len() - i,
    {
        let name = copy_string(&hosts[i].0);
        let value = host_summary(&hosts[i].1);
        let ghost o = summary_entries(out@);
        let ghost before = out@;
        proof {
            lemma_sorted_distinct(o);
            assert(t[i as int] == (hosts@[i as int].0@, hosts@[i as int].1@));
            lemma_mapped_step(t, i as int, o, 0, f);
            lemma_same_names(o, keyed(before));
            assert forall|j: int| 0 <= j < before.len() implies before[j].0@ != name@ by {
                assert(o[j].0 == before[j].0@);
            }
        }
        insert_in_order(&mut out, name, value);
        proof {
            let pos = choose|pos: int|
                0 <= pos <= before.len() && out@ == before.insert(pos, (name, value));
            lemma_mapped_step(t, i as int, o, pos, f);
            assert(summary_entries(out@) =~= o.insert(
                pos,
                (t[i as int].0, f(t[i as int].0, t[i as int].1)),
            ));
            lemma_same_names(summary_entries(out@), keyed(out@));
        }
        i = i + 1;
    }
    assert(t.take(hosts@.len() as int) =~= t);
    out
}

// ---------------------------------------------------------------------------
// Credential sources and display helpers
// ---------------------------------------------------------------------------

/// Where the credentials that act come from.
#[derive(Clone, Copy, PartialEq, Eq, Structural, Debug)]
pub enum CredentialSource {
    Profile,
    Global,
    Environment,
}

/// How a credential source reads in `gb auth status`.
pub open spec fn spec_credential_source_label(source: CredentialSource) -> Seq<char> {
    match source {
        CredentialSource::Profile => "profile credentials"@,
        CredentialSource::Global => "global credentials"@,
        CredentialSource::Environment => "environment token"@,
    }
}

/// How a credential source reads in `gb auth status`.
pub fn credential_source_label(source: CredentialSource) -> (r: &'static str)
    ensures
        r@ == spec_credential_source_label(source),
{
    match source {
        CredentialSource::Profile => "profile credentials",
        CredentialSource::Global => "global credentials",
        CredentialSource::Environment => "environment token",
    }
}

/// A stored user name for display: `<unset>` when empty.
pub open spec fn spec_display_user(user: Seq<char>) -> Seq<char> {
    if user.len() == 0 {
        "<unset>"@
    } else {
        user
    }
}

/// A stored user name for display.
pub fn display_user(user: &str) -> (r: String)
    ensures
        r@ == spec_display_user(user@),
{
    let u = chars_of(user);
    if u.len() == 0 {
        string_of(&chars_of("<unset>"))
    } else {
        string_of(&u)
    }
}

// ---------------------------------------------------------------------------
// Host status
// ---------------------------------------------------------------------------

/// What `gb auth status` shows of saved credentials.
pub struct HostStatusOutput {
    pub user: String,
    pub protocol: String,
    pub has_token: bool,
    pub credential_source: CredentialSource,
}

/// The abstract value of a host status.
pub struct HostStatusView {
    pub user: Seq<char>,
    pub protocol: Seq<char>,
    pub has_token: bool,
    pub credential_source: CredentialSource,
}

impl View for HostStatusOutput {
    type V = HostStatusView;

    open spec fn view(&self) -> HostStatusView {
        HostStatusView {
            user: self.user@,
            protocol: self.protocol@,
            has_token: self.has_token,
            credential_source: self.credential_source,
        }
    }
}

/// The status of saved credentials from the given source.
pub open spec fn spec_host_status(h: HostView, source: CredentialSource) -> HostStatusView {
    HostStatusView {
        user: h.user,
        protocol: h.protocol,
        has_token: h.token.len() > 0,
        credential_source: source,
    }
}

/// The status of saved credentials from the given source.
pub fn host_status_output(host: &HostConfig, credential_source: CredentialSource) -> (r:
    HostStatusOutput)
    ensures
        r@ == spec_host_status(host@, credential_source),
{
    HostStatusOutput {
        user: copy_string(&host.user),
        protocol: copy_string(&host.protocol),
        has_token: chars_of(host.token.as_str()).len() > 0,
        credential_source,
    }
}

/// The abstract entries of a list of host statuses.
pub open spec fn status_entries(s: Seq<(String, HostStatusOutput)>) -> Seq<(Seq<char>, HostStatusView)> {
    s.map_values(|e: (String, HostStatusOutput)| (e.0@, e.1@))
}

/// The statuses of a list of saved hosts from the given source, in name order.
fn host_statuses(hosts: &Vec<(String, HostConfig)>, source: CredentialSource) -> (r: Vec<
    (String, HostStatusOutput),
>)
    requires
        distinct_names(host_entries(hosts@)),
    ensures
        names_sorted(status_entries(r@)),
        entry_map(status_entries(r@)) == mapped(
            host_map(hosts@),
            |k: Seq<char>, h: HostView| spec_host_status(h, source),
        ),
{
    let ghost t = host_entries(hosts@);
    let ghost f = |k: Seq<char>, h: HostView| spec_host_status(h, source);
    let mut out: Vec<(String, HostStatusOutput)> = Vec::new();
    let mut i: usize = 0;
    proof {
        assert(entry_map(status_entries(out@)) =~= mapped(entry_map(t.take(0)), f));
    }
    assert(forall|k: Seq<char>, h: HostView| #[trigger] f(k, h) == spec_host_status(h, source));
    while i < hosts.len()
        invariant
            i <= hosts@.len(),
            t == host_entries(hosts@),
            distinct_names(t),
            forall|k: Seq<char>, h: HostView| #[trigger] f(k, h) == spec_host_status(h, source),
            names_sorted(status_entries(out@)),
            entry_map(status_entries(out@)) == mapped(entry_map(t.take(i as int)), f),
        decreases hosts@.len() - i,
    {
        let name = copy_string(&hosts[i].0);
        let value = host_status_output(&hosts[i].1, source);
        let ghost o = status_entries(out@);
        let ghost before = out@;
        proof {
            lemma_sorted_distinct(o);
            assert(t[i as int] == (hosts@[i as int].0@, hosts@[i as int].1@));
            lemma_mapped_step(t, i as int, o, 0, f);
            lemma_same_names(o, keyed(before));
            assert forall|j: int| 0 <= j < before.len() implies before[j].0@ != name@ by {
                assert(o[j].0 == before[j].0@);
            }
        }
        insert_in_order(&mut out, name, value);
        proof {
            let pos = choose|pos: int|
                0 <= pos <= before.len() && out@ == before.insert(pos, (name, value));
            lemma_mapped_step(t, i as int, o, pos, f);
            assert(status_entries(out@) =~= o.insert(
                pos,
                (t[i as int].0, f(t[i as int].0, t[i as int].1)),
            ));
            lemma_same_names(status_entries(out@), keyed(out@));
        }
        i = i + 1;
    }
    assert(t.take(hosts@.len() as int) =~= t);
    out
}

/// Every globally saved host with its status, in name order.
pub fn summarize_global_hosts(config: &AuthConfig) -> (r: Vec<(String, HostStatusOutput)>)
    requires
        config.wf(),
    ensures
        names_sorted(status_entries(r@)),
        entry_map(status_entries(r@)) == mapped(
            config@.hosts,
            |k: Seq<char>, h: HostView| spec_host_status(h, CredentialSource::Global),
        ),
{
    host_statuses(&config.hosts, CredentialSource::Global)
}

// ---------------------------------------------------------------------------
// Profile summaries
// ---------------------------------------------------------------------------

/// What `gb config` shows of a profile.
pub struct ProfileOutput {
    pub name: String,
    pub default_host: Option<String>,
    pub default_repo: Option<String>,
    /// The profile's own saved hosts, in name order.
    pub hosts: Vec<(String, HostSummary)>,
}

/// The abstract value of a profile summary.
pub struct ProfileOutputView {
    pub name: Seq<char>,
    pub default_host: Option<Seq<char>>,
    pub default_repo: Option<Seq<char>>,
    pub hosts: Map<Seq<char>, HostSummaryView>,
}

impl View for ProfileOutput {
    type V = ProfileOutputView;

    open spec fn view(&self) -> ProfileOutputView {
        ProfileOutputView {
            name: self.name@,
            default_host: opt_view(self.default_host),
            default_repo: opt_view(self.default_repo),
            hosts: entry_map(summary_entries(self.hosts@)),
        }
    }
}

impl ProfileOutput {
    /// The hosts are listed in name order.
    pub open spec fn in_order(&self) -> bool {
        names_sorted(summary_entries(self.hosts@))
    }
}

/// The summary of a profile.
pub open spec fn spec_profile_output(name: Seq<char>, p: ProfileView) -> ProfileOutputView {
    ProfileOutputView {
        name,
        default_host: p.default_host,
        default_repo: p.default_repo,
        hosts: mapped(p.hosts, |k: Seq<char>, h: HostView| spec_host_summary(h)),
    }
}

/// Summarizes a profile.
pub fn profile_output(name: &str, profile: &ProfileConfig) -> (r: ProfileOutput)
    requires
        profile.wf(),
    ensures
        r@ == spec_profile_output(name@, profile@),
        r.in_order(),
{
    ProfileOutput {
        name: string_of(&chars_of(name)),
        default_host: copy_opt_string(&profile.default_host),
        default_repo: copy_opt_string(&profile.default_repo),
        hosts: summarize_hosts(&profile.hosts),
    }
}

/// The abstract entries of a list of profile summaries.
pub open spec fn profile_output_entries(s: Seq<(String, ProfileOutput)>) -> Seq<
    (Seq<char>, ProfileOutputView),
> {
    s.map_values(|e: (String, ProfileOutput)| (e.0@, e.1@))
}

/// Every profile of a list, summarized, in name order.
pub fn summarize_profiles(profiles: &Vec<(String, ProfileConfig)>) -> (r: Vec<(String, ProfileOutput)>)
    requires
        distinct_names(profile_entries(profiles@)),
        forall|i: int| 0 <= i < profiles@.len() ==> (#[trigger] profiles@[i]).1.wf(),
    ensures
        names_sorted(profile_output_entries(r@)),
        entry_map(profile_output_entries(r@)) == mapped(
            entry_map(profile_entries(profiles@)),
            |k: Seq<char>, p: ProfileView| spec_profile_output(k, p),
        ),
        forall|i: int| 0 <= i < r@.len() ==> (#[trigger] r@[i]).1.in_order(),
{
    let ghost t = profile_entries(profiles@);
    let ghost f = |k: Seq<char>, p: ProfileView| spec_profile_output(k, p);
    let mut out: Vec<(String, ProfileOutput)> = Vec::new();
    let mut i: usize = 0;
    proof {
        assert(entry_map(profile_output_entries(out@)) =~= mapped(entry_map(t.take(0)), f));
    }
    assert(forall|k: Seq<char>, p: ProfileView| #[trigger] f(k, p) == spec_profile_output(k, p));
    while i < profiles.len()
        invariant
            i <= profiles@.len(),
            t == profile_entries(profiles@),
            distinct_names(t),
            forall|k: Seq<char>, p: ProfileView| #[trigger] f(k, p) == spec_profile_output(k, p),
            forall|j: int| 0 <= j < profiles@.len() ==> (#[trigger] profiles@[j]).1.wf(),
            names_sorted(profile_output_entries(out@)),
            entry_map(profile_output_entries(out@)) == mapped(entry_map(t.take(i as int)), f),
            forall|j: int| 0 <= j < out@.len() ==> (#[trigger] out@[j]).1.in_order(),
        decreases profiles@.len() - i,
    {
        let name = copy_string(&profiles[i].0);
        assert(profiles@[i as int].1.wf());
        let value = profile_output(profiles[i].0.as_str(), &profiles[i].1);
        let ghost o = profile_output_entries(out@);
        let ghost before = out@;
        proof {
            lemma_sorted_distinct(o);
            assert(t[i as int] == (profiles@[i as int].0@, profiles@[i as int].1@));
            lemma_mapped_step(t, i as int, o, 0, f);
            lemma_same_names(o, keyed(before));
            assert forall|j: int| 0 <= j < before.len() implies before[j].0@ != name@ by {
                assert(o[j].0 == before[j].0@);
            }
        }
        insert_in_order(&mut out, name, value);
        proof {
            let pos = choose|pos: int|
                0 <= pos <= before.len() && out@ == before.insert(pos, (name, value));
            lemma_mapped_step(t, i as int, o, pos, f);
            assert(profile_output_entries(out@) =~= o.insert(
                pos,
                (t[i as int].0, f(t[i as int].0, t[i as int].1)),
            ));
            lemma_same_names(profile_output_entries(out@), keyed(out@));
            assert forall|j: int| 0 <= j < out@.len() implies (#[trigger] out@[j]).1.in_order() by {
                if j < pos {
                    assert(out@[j] == before[j]);
                } else if j > pos {
                    assert(out@[j] == before[j - 1]);
                }
            }
        }
        i = i + 1;
    }
    assert(t.take(profiles@.len() as int) =~= t);
    out
}

// ---------------------------------------------------------------------------
// The acting credentials
// ---------------------------------------------------------------------------

/// The host and user whose credentials a command would use.
pub struct EffectiveActor {
    pub host: String,
    pub user: String,
    pub protocol: String,
    pub credential_source: CredentialSource,
}

/// The abstract value of an effective actor.
pub struct ActorView {
    pub host: Seq<char>,
    pub user: Seq<char>,
    pub protocol: Seq<char>,
    pub credential_source: CredentialSource,
}

impl View for EffectiveActor {
    type V = ActorView;

    open spec fn view(&self) -> ActorView {
        ActorView {
            host: self.host@,
            user: self.user@,
            protocol: self.protocol@,
            credential_source: self.credential_source,
        }
    }
}

/// The abstract value of an optional actor.
pub open spec fn actor_opt(a: Option<EffectiveActor>) -> Option<ActorView> {
    match a {
        Some(a) => Some(a@),
        None => None,
    }
}

/// Who would act: none when no host is known or no credentials are stored for it; the token
/// comes from the environment when one is set there, else from the profile when it stores its
/// own credentials for the host, else from the global ones.
pub open spec fn spec_effective_actor(
    c: AuthView,
    cli_hostname: Option<Seq<char>>,
    profile: Option<Seq<char>>,
    env_token: bool,
) -> Result<Option<ActorView>, Failure> {
    match spec_config_hostname(c, cli_hostname, profile) {
        Err(e) => Err(e),
        Ok(None) => Ok(None),
        Ok(Some(h)) => match spec_get_host_for_profile(c, h, profile) {
            Err(Failure::NotAuthenticated) => Ok(None),
            Err(e) => Err(e),
            Ok(hv) => Ok(
                Some(
                    ActorView {
                        host: h,
                        user: hv.user,
                        protocol: hv.protocol,
                        credential_source: if env_token {
                            CredentialSource::Environment
                        } else if profile matches Some(p) && stored_for_profile(c, p, h) {
                            CredentialSource::Profile
                        } else {
                            CredentialSource::Global
                        },
                    },
                ),
            ),
        },
    }
}

/// Who would act for the given host and profile; `env_token` says whether a token is set in
/// the environment.
pub fn effective_actor(
    config: &AuthConfig,
    cli_hostname: Option<&str>,
    profile: Option<&str>,
    env_token: bool,
) -> (r: Result<Option<EffectiveActor>, GbError>)
    requires
        config.wf(),
    ensures
        match r {
            Ok(a) => spec_effective_actor(config@, str_opt(cli_hostname), str_opt(profile), env_token)
                == Ok::<Option<ActorView>, Failure>(actor_opt(a)),
            Err(e) => spec_effective_actor(
                config@,
                str_opt(cli_hostname),
                str_opt(profile),
                env_token,
            ) == Err::<Option<ActorView>, Failure>(e@),
        },
{
    let hostname = match config.resolve_hostname(cli_hostname, profile)? {
        Some(h) => h,
        None => {
            return Ok(None);
        },
    };
    let host = match config.get_host_for_profile(hostname.as_str(), profile) {
        Ok(h) => h,
        Err(GbError::NotAuthenticated) => {
            return Ok(None);
        },
        Err(e) => {
            return Err(e);
        },
    };
    let credential_source = if env_token {
        CredentialSource::Environment
    } else if match profile {
        Some(p) => config.stored_hostname_for_profile(p, hostname.as_str()).is_some(),
        None => false,
    } {
        CredentialSource::Profile
    } else {
        CredentialSource::Global
    };
    Ok(Some(EffectiveActor { host: hostname, user: host.user, protocol: host.protocol, credential_source }))
}

/// A saved profile always has a definite actor when no host is given on the command line.
proof fn lemma_profile_actor_defined(c: AuthView, name: Seq<char>, env_token: bool)
    requires
        c.profiles.dom().contains(name),
    ensures
        spec_effective_actor(c, None, Some(name), env_token) is Ok,
{
}

// ---------------------------------------------------------------------------
// Profile and overall status
// ---------------------------------------------------------------------------

/// What `gb auth status` shows of a profile.
pub struct ProfileStatusOutput {
    pub default_host: Option<String>,
    pub default_repo: Option<String>,
    pub effective_actor: Option<EffectiveActor>,
    /// The profile's own saved hosts, in name order.
    pub hosts: Vec<(String, HostStatusOutput)>,
}

/// The abstract value of a profile status.
pub struct ProfileStatusView {
    pub default_host: Option<Seq<char>>,
    pub default_repo: Option<Seq<char>>,
    pub effective_actor: Option<ActorView>,
    pub hosts: Map<Seq<char>, HostStatusView>,
}

impl View for ProfileStatusOutput {
    type V = ProfileStatusView;

    open spec fn view(&self) -> ProfileStatusView {
        ProfileStatusView {
            default_host: opt_view(self.default_host),
            default_repo: opt_view(self.default_repo),
            effective_actor: actor_opt(self.effective_actor),
            hosts: entry_map(status_entries(self.hosts@)),
        }
    }
}

impl ProfileStatusOutput {
    /// The hosts are listed in name order.
    pub open spec fn in_order(&self) -> bool {
        names_sorted(status_entries(self.hosts@))
    }
}

/// The status of a profile, with the actor for the given host.
pub open spec fn spec_profile_status(
    c: AuthView,
    name: Seq<char>,
    p: ProfileView,
    cli_hostname: Option<Seq<char>>,
    env_token: bool,
) -> Result<ProfileStatusView, Failure> {
    match spec_effective_actor(c, cli_hostname, Some(name), env_token) {
        Err(e) => Err(e),
        Ok(a) => Ok(
            ProfileStatusView {
                default_host: p.default_host,
                default_repo: p.default_repo,
                effective_actor: a,
                hosts: mapped(
                    p.hosts,
                    |k: Seq<char>, h: HostView| spec_host_status(h, CredentialSource::Profile),
                ),
            },
        ),
    }
}

/// The status of a profile.
pub fn profile_status_output(
    config: &AuthConfig,
    profile_name: &str,
    profile: &ProfileConfig,
    cli_hostname: Option<&str>,
    env_token: bool,
) -> (r: Result<ProfileStatusOutput, GbError>)
    requires
        config.wf(),
        profile.wf(),
    ensures
        match r {
            Ok(o) => o.in_order() && spec_profile_status(
                config@,
                profile_name@,
                profile@,
                str_opt(cli_hostname),
                env_token,
            ) == Ok::<ProfileStatusView, Failure>(o@),
            Err(e) => spec_profile_status(
                config@,
                profile_name@,
                profile@,
                str_opt(cli_hostname),
                env_token,
            ) == Err::<ProfileStatusView, Failure>(e@),
        },
{
    let effective_actor = effective_actor(config, cli_hostname, Some(profile_name), env_token)?;
    let hosts = host_statuses(&profile.hosts, CredentialSource::Profile);
    Ok(
        ProfileStatusOutput {
            default_host: copy_opt_string(&profile.default_host),
            default_repo: copy_opt_string(&profile.default_repo),
            effective_actor,
            hosts,
        },
    )
}

/// The abstract entries of a list of profile statuses.
pub open spec fn profile_status_entries(s: Seq<(String, ProfileStatusOutput)>) -> Seq<
    (Seq<char>, ProfileStatusView),
> {
    s.map_values(|e: (String, ProfileStatusOutput)| (e.0@, e.1@))
}

/// The status of every profile, as listed without a host argument.
pub open spec fn all_profile_statuses(c: AuthView, env_token: bool) -> Map<Seq<char>, ProfileStatusView> {
    mapped(
        c.profiles,
        |k: Seq<char>, p: ProfileView| spec_profile_status(c, k, p, None, env_token)->Ok_0,
    )
}

/// The status of every saved profile, in name order.
fn profile_statuses(config: &AuthConfig, env_token: bool) -> (r: Vec<(String, ProfileStatusOutput)>)
    requires
        config.wf(),
    ensures
        names_sorted(profile_status_entries(r@)),
        entry_map(profile_status_entries(r@)) == all_profile_statuses(config@, env_token),
        forall|i: int| 0 <= i < r@.len() ==> (#[trigger] r@[i]).1.in_order(),
{
    let ghost c = config@;
    let ghost t = profile_entries(config.profiles@);
    let ghost f = |k: Seq<char>, p: ProfileView| spec_profile_status(c, k, p, None, env_token)->Ok_0;
    let mut out: Vec<(String, ProfileStatusOutput)> = Vec::new();
    let mut i: usize = 0;
    proof {
        assert(entry_map(profile_status_entries(out@)) =~= mapped(entry_map(t.take(0)), f));
    }
    assert(forall|k: Seq<char>, p: ProfileView|
        #[trigger] f(k, p) == spec_profile_status(c, k, p, None, env_token)->Ok_0);
    while i < config.profiles.len()
        invariant
            i <= config.profiles@.len(),
            config.wf(),
            c == config@,
            t == profile_entries(config.profiles@),
            forall|k: Seq<char>, p: ProfileView|
                #[trigger] f(k, p) == spec_profile_status(c, k, p, None, env_token)->Ok_0,
            names_sorted(profile_status_entries(out@)),
            entry_map(profile_status_entries(out@)) == mapped(entry_map(t.take(i as int)), f),
            forall|j: int| 0 <= j < out@.len() ==> (#[trigger] out@[j]).1.in_order(),
        decreases config.profiles@.len() - i,
    {
        let name = copy_string(&config.profiles[i].0);
        assert(config.profiles@[i as int].1.wf());
        proof {
            assert(t[i as int] == (config.profiles@[i as int].0@, config.profiles@[i as int].1@));
            crate::entries::lemma_entry_map_at(t, i as int);
            lemma_profile_actor_defined(c, t[i as int].0, env_token);
        }
        let value = match profile_status_output(
            config,
            config.profiles[i].0.as_str(),
            &config.profiles[i].1,
            None,
            env_token,
        ) {
            Ok(v) => v,
            Err(_) => {
                proof {
                    assert(false);
                }
                return out;
            },
        };
        let ghost o = profile_status_entries(out@);
        let ghost before = out@;
        proof {
            lemma_sorted_distinct(o);
            lemma_mapped_step(t, i as int, o, 0, f);
            lemma_same_names(o, keyed(before));
            assert forall|j: int| 0 <= j < before.len() implies before[j].0@ != name@ by {
                assert(o[j].0 == before[j].0@);
            }
        }
        insert_in_order(&mut out, name, value);
        proof {
            let pos = choose|pos: int|
                0 <= pos <= before.len() && out@ == before.insert(pos, (name, value));
            lemma_mapped_step(t, i as int, o, pos, f);
            assert(profile_status_entries(out@) =~= o.insert(
                pos,
                (t[i as int].0, f(t[i as int].0, t[i as int].1)),
            ));
            lemma_same_names(profile_status_entries(out@), keyed(out@));
            assert forall|j: int| 0 <= j < out@.len() implies (#[trigger] out@[j]).1.in_order() by {
                if j < pos {
                    assert(out@[j] == before[j]);
                } else if j > pos {
                    assert(out@[j] == before[j - 1]);
                }
            }
        }
        i = i + 1;
    }
    assert(t.take(config.profiles@.len() as int) =~= t);
    out
}

/// Everything `gb auth status` reports.
pub struct AuthStatusOutput {
    pub active_profile: Option<String>,
    pub effective_actor: Option<EffectiveActor>,
    /// The globally saved hosts, in name order (none when one profile is shown).
    pub hosts: Vec<(String, HostStatusOutput)>,
    /// The profiles shown, in name order.
    pub profiles: Vec<(String, ProfileStatusOutput)>,
}

/// The abstract value of an authentication status.
pub struct AuthStatusView {
    pub active_profile: Option<Seq<char>>,
    pub effective_actor: Option<ActorView>,
    pub hosts: Map<Seq<char>, HostStatusView>,
    pub profiles: Map<Seq<char>, ProfileStatusView>,
}

impl View for AuthStatusOutput {
    type V = AuthStatusView;

    open spec fn view(&self) -> AuthStatusView {
        AuthStatusView {
            active_profile: opt_view(self.active_profile),
            effective_actor: actor_opt(self.effective_actor),
            hosts: entry_map(status_entries(self.hosts@)),
            profiles: entry_map(profile_status_entries(self.profiles@)),
        }
    }
}

impl AuthStatusOutput {
    /// Hosts and profiles, and each profile's hosts, are listed in name order.
    pub open spec fn in_order(&self) -> bool {
        &&& names_sorted(status_entries(self.hosts@))
        &&& names_sorted(profile_status_entries(self.profiles@))
        &&& forall|i: int| 0 <= i < self.profiles@.len() ==> (#[trigger] self.profiles@[i]).1.in_order()
    }
}

/// The profiles `gb auth status` shows: the one selected explicitly, else all of them.
pub open spec fn spec_status_profiles(
    c: AuthView,
    cli_hostname: Option<Seq<char>>,
    profile_filter: Option<Seq<char>>,
    env_token: bool,
) -> Result<Map<Seq<char>, ProfileStatusView>, Failure> {
    match profile_filter {
        Some(name) => match spec_profile(c, name) {
            Err(e) => Err(e),
            Ok(p) => match spec_profile_status(c, name, p, cli_hostname, env_token) {
                Err(e) => Err(e),
                Ok(s) => Ok(Map::empty().insert(name, s)),
            },
        },
        None => Ok(all_profile_statuses(c, env_token)),
    }
}

/// What `gb auth status` reports: the global hosts unless one profile is selected explicitly,
/// the profiles shown, and the actor of the active profile.
pub open spec fn spec_status_output(
    c: AuthView,
    cli_hostname: Option<Seq<char>>,
    active_profile: Option<Seq<char>>,
    profile_filter: Option<Seq<char>>,
    env_token: bool,
) -> Result<AuthStatusView, Failure> {
    let hosts = if profile_filter is None {
        mapped(c.hosts, |k: Seq<char>, h: HostView| spec_host_status(h, CredentialSource::Global))
    } else {
        Map::empty()
    };
    match spec_status_profiles(c, cli_hostname, profile_filter, env_token) {
        Err(e) => Err(e),
        Ok(profiles) => match active_profile {
            Some(p) => match spec_effective_actor(c, cli_hostname, Some(p), env_token) {
                Err(e) => Err(e),
                Ok(a) => Ok(
                    AuthStatusView { active_profile: Some(p), effective_actor: a, hosts, profiles },
                ),
            },
            None => Ok(
                AuthStatusView { active_profile: None, effective_actor: None, hosts, profiles },
            ),
        },
    }
}

/// Builds what `gb auth status` reports.
pub fn status_output(
    config: &AuthConfig,
    cli_hostname: Option<&str>,
    active_profile: Option<&str>,
    profile_filter: Option<&str>,
    env_token: bool,
) -> (r: Result<AuthStatusOutput, GbError>)
    requires
        config.wf(),
    ensures
        match r {
            Ok(o) => o.in_order() && spec_status_output(
                config@,
                str_opt(cli_hostname),
                str_opt(active_profile),
                str_opt(profile_filter),
                env_token,
            ) == Ok::<AuthStatusView, Failure>(o@),
            Err(e) => spec_status_output(
                config@,
                str_opt(cli_hostname),
                str_opt(active_profile),
                str_opt(profile_filter),
                env_token,
            ) == Err::<AuthStatusView, Failure>(e@),
        },
{
    let hosts = if profile_filter.is_none() {
        summarize_global_hosts(config)
    } else {
        let v: Vec<(String, HostStatusOutput)> = Vec::new();
        assert(entry_map(status_entries(v@)) =~= Map::empty());
        v
    };
    let profiles = match profile_filter {
        Some(name) => {
            let p = config.profile(name)?;
            let s = profile_status_output(config, name, p, cli_hostname, env_token)?;
            let mut v: Vec<(String, ProfileStatusOutput)> = Vec::new();
            v.push((string_of(&chars_of(name)), s));
            proof {
                let e = profile_status_entries(v@);
                assert(e.drop_last() =~= Seq::<(Seq<char>, ProfileStatusView)>::empty());
                assert(entry_map(e.drop_last()) =~= Map::<Seq<char>, ProfileStatusView>::empty());
                assert(e.last() == (name@, v@[0].1@));
                assert(entry_map(e) =~= Map::<Seq<char>, ProfileStatusView>::empty().insert(
                    name@,
                    v@[0].1@,
                ));
            }
            v
        },
        None => profile_statuses(config, env_token),
    };
    let effective_actor = match active_profile {
        Some(p) => effective_actor(config, cli_hostname, Some(p), env_token)?,
        None => None,
    };
    let active = match active_profile {
        Some(p) => Some(string_of(&chars_of(p))),
        None => None,
    };
    Ok(AuthStatusOutput { active_profile: active, effective_actor, hosts, profiles })
}

// ---------------------------------------------------------------------------
// Profile selection
// ---------------------------------------------------------------------------

/// The refusal of a blank profile name.
pub open spec fn empty_profile_name() -> Failure {
    Failure::Config("Profile name cannot be empty."@)
}

/// A profile name, trimmed; it must not be blank.
pub open spec fn spec_sanitize_profile_name(profile: Seq<char>) -> Result<Seq<char>, Failure> {
    if trim(profile).len() == 0 {
        Err(empty_profile_name())
    } else {
        Ok(trim(profile))
    }
}

/// Trims a profile name and refuses a blank one.
pub fn sanitize_profile_name(profile: String) -> (r: Result<String, GbError>)
    ensures
        str_result(r) == spec_sanitize_profile_name(profile@),
{
    let t = trimmed(&chars_of(profile.as_str()));
    if t.len() == 0 {
        Err(config_error(&chars_of("Profile name cannot be empty.")))
    } else {
        Ok(string_of(&t))
    }
}

/// The profile that `gb auth login` saves into: the one named on the command line, else in the
/// environment, else the default one (which need not be saved yet), sanitized.
pub open spec fn spec_selected_profile_for_write(
    c: AuthView,
    cli_profile: Option<Seq<char>>,
    env_profile: Option<Seq<char>>,
) -> Result<Option<Seq<char>>, Failure> {
    let selected = match cli_profile {
        Some(p) => Some(p),
        None => match env_profile {
            Some(p) => Some(p),
            None => c.default_profile,
        },
    };
    match selected {
        Some(p) => match spec_sanitize_profile_name(p) {
            Ok(n) => Ok(Some(n)),
            Err(e) => Err(e),
        },
        None => Ok(None),
    }
}

/// The profile that `gb auth login` saves into.
pub fn selected_profile_for_write(
    config: &AuthConfig,
    cli_profile: Option<String>,
    env_profile: Option<String>,
) -> (r: Result<Option<String>, GbError>)
    ensures
        opt_str_result(r) == spec_selected_profile_for_write(
            config@,
            opt_view(cli_profile),
            opt_view(env_profile),
        ),
{
    let profile = match cli_profile {
        Some(p) => Some(p),
        None => match env_profile {
            Some(p) => Some(p),
            None => copy_opt_string(&config.default_profile),
        },
    };
    match profile {
        Some(p) => Ok(Some(sanitize_profile_name(p)?)),
        None => Ok(None),
    }
}

/// The profile in use for reading: see [`AuthConfig::active_profile_name`].
pub fn selected_profile_for_read(
    config: &AuthConfig,
    cli_profile: Option<&str>,
    env_profile: Option<&str>,
) -> (r: Result<Option<String>, GbError>)
    requires
        config.wf(),
    ensures
        opt_str_result(r) == spec_active_profile_name(
            config@,
            str_opt(cli_profile),
            str_opt(env_profile),
        ),
{
    config.active_profile_name(cli_profile, env_profile)
}

/// `gb auth status` shows only the active profile when one was selected explicitly, on the
/// command line or in the environment.
pub open spec fn spec_selected_profile_filter(
    active_profile: Option<Seq<char>>,
    cli_profile_given: bool,
    env_profile_set: bool,
) -> Option<Seq<char>> {
    if cli_profile_given || env_profile_set {
        active_profile
    } else {
        None
    }
}

/// The profile `gb auth status` is narrowed to, if any.
pub fn selected_profile_filter<'a>(
    active_profile: Option<&'a str>,
    cli_profile_given: bool,
    env_profile_set: bool,
) -> (r: Option<&'a str>)
    ensures
        str_opt(r) == spec_selected_profile_filter(
            str_opt(active_profile),
            cli_profile_given,
            env_profile_set,
        ),
{
    if cli_profile_given || env_profile_set {
        active_profile
    } else {
        None
    }
}

/// Checks that the selected profile, if any, is saved.
pub fn validate_selected_profile(
    config: &AuthConfig,
    cli_profile: Option<&str>,
    env_profile: Option<&str>,
) -> (r: Result<(), GbError>)
    requires
        config.wf(),
    ensures
        match r {
            Ok(_) => spec_active_profile_name(config@, str_opt(cli_profile), str_opt(env_profile)) is Ok,
            Err(e) => spec_active_profile_name(config@, str_opt(cli_profile), str_opt(env_profile))
                == Err::<Option<Seq<char>>, Failure>(e@),
        },
{
    config.active_profile_name(cli_profile, env_profile)?;
    Ok(())
}

/// The credentials for a host in the profile in use.
pub fn resolve_host_config(config: &AuthConfig, hostname: &str, cli_profile: Option<&str>) -> (r:
    Result<HostConfig, GbError>)
    requires
        config.wf(),
    ensures
        match r {
            Ok(h) => spec_get_host_for_profile(config@, hostname@, str_opt(cli_profile)) == Ok::<
                HostView,
                Failure,
            >(h@),
            Err(e) => spec_get_host_for_profile(config@, hostname@, str_opt(cli_profile)) == Err::<
                HostView,
                Failure,
            >(e@),
        },
{
    config.get_host_for_profile(hostname, cli_profile)
}

// ---------------------------------------------------------------------------
// Login, logout and tokens
// ---------------------------------------------------------------------------

/// What a failed login attempt is reported as: a missing base path for 404, a rejected token
/// for 401, a connection hint for transport failures, and anything else unchanged.
pub open spec fn spec_map_login_error(hostname: Seq<char>, err: Failure) -> Failure {
    match err {
        Failure::Api(status, _) if status == 404 => Failure::Auth(
            "Failed to authenticate against "@ + hostname
                + " (HTTP 404). The configured host/URL may be missing a GitBucket base path such as `/gitbucket`."@,
        ),
        Failure::Api(status, _) if status == 401 => Failure::Auth(
            "Failed to authenticate against "@ + hostname
                + " (HTTP 401). The URL is reachable, but the token was rejected."@,
        ),
        Failure::Http(source) => Failure::Auth(
            "Failed to connect to "@ + hostname + ": "@ + source
                + ". Check the protocol, certificate, and GitBucket base URL/path."@,
        ),
        other => other,
    }
}

/// Explains a failed login attempt against `hostname`.
pub fn map_login_error(hostname: &str, err: GbError) -> (r: GbError)
    ensures
        r@ == spec_map_login_error(hostname@, err@),
{
    match err {
        GbError::Api { status, message } => {
            if status == 404 {
                let mut m = chars_of("Failed to authenticate against ");
                push_str(&mut m, hostname);
                push_str(
                    &mut m,
                    " (HTTP 404). The configured host/URL may be missing a GitBucket base path such as `/gitbucket`.",
                );
                auth_error(&m)
            } else if status == 401 {
                let mut m = chars_of("Failed to authenticate against ");
                push_str(&mut m, hostname);
                push_str(&mut m, " (HTTP 401). The URL is reachable, but the token was rejected.");
                auth_error(&m)
            } else {
                GbError::Api { status, message }
            }
        },
        GbError::Http(source) => {
            let mut m = chars_of("Failed to connect to ");
            push_str(&mut m, hostname);
            push_str(&mut m, ": ");
            push_str(&mut m, source.as_str());
            push_str(&mut m, ". Check the protocol, certificate, and GitBucket base URL/path.");
            auth_error(&m)
        },
        other => other,
    }
}

/// The refusal of a command that needs a host when none is configured.
pub open spec fn no_hosts() -> Failure {
    Failure::Auth("No hosts configured."@)
}

/// The host a logout or token request is about.
pub open spec fn spec_target_host(
    c: AuthView,
    hostname: Option<Seq<char>>,
    profile: Option<Seq<char>>,
) -> Result<Seq<char>, Failure> {
    match spec_config_hostname(c, hostname, profile) {
        Err(e) => Err(e),
        Ok(None) => Err(no_hosts()),
        Ok(Some(h)) => Ok(h),
    }
}

fn target_host(config: &AuthConfig, hostname: Option<&str>, profile: Option<&str>) -> (r: Result<
    String,
    GbError,
>)
    requires
        config.wf(),
    ensures
        str_result(r) == spec_target_host(config@, str_opt(hostname), str_opt(profile)),
{
    match config.resolve_hostname(hostname, profile)? {
        Some(h) => Ok(h),
        None => Err(auth_error(&chars_of("No hosts configured."))),
    }
}

/// What `gb auth logout` did.
pub enum LogoutOutcome {
    /// The profile's own credentials for the host were removed.
    RemovedFromProfile { host: String, profile: String },
    /// The profile had none of its own; the global credentials it used were removed.
    RemovedGlobalForProfile { host: String, profile: String },
    /// Neither the profile nor the global configuration held credentials for the host.
    NotLoggedInForProfile { host: String, profile: String },
    /// The global credentials for the host were removed.
    Removed { host: String },
    /// No global credentials were stored for the host.
    NotLoggedIn { host: String },
}

impl LogoutOutcome {
    /// Whether the configuration changed and must be saved.
    pub open spec fn changed(&self) -> bool {
        self is RemovedFromProfile || self is RemovedGlobalForProfile || self is Removed
    }

    /// Whether the configuration changed and must be saved.
    pub fn needs_save(&self) -> (r: bool)
        ensures
            r == self.changed(),
    {
        match self {
            LogoutOutcome::RemovedFromProfile { .. } => true,
            LogoutOutcome::RemovedGlobalForProfile { .. } => true,
            LogoutOutcome::Removed { .. } => true,
            _ => false,
        }
    }

    /// The line `gb auth logout` prints.
    pub fn message(&self) -> (r: String)
        ensures
            r@ == spec_logout_message(*self),
    {
        let mut m: Vec<char> = Vec::new();
        match self {
            LogoutOutcome::RemovedFromProfile { host, profile } => {
                push_str(&mut m, "\u{2713} Logged out from ");
                push_str(&mut m, host.as_str());
                push_str(&mut m, " for profile ");
                push_str(&mut m, profile.as_str());
            },
            LogoutOutcome::RemovedGlobalForProfile { host, profile } => {
                push_str(&mut m, "\u{2713} Logged out from ");
                push_str(&mut m, host.as_str());
                push_str(&mut m, " (global credentials used by profile ");
                push_str(&mut m, profile.as_str());
                push_str(&mut m, ")");
            },
            LogoutOutcome::NotLoggedInForProfile { host, profile } => {
                push_str(&mut m, "Not logged in to ");
                push_str(&mut m, host.as_str());
                push_str(&mut m, " for profile ");
                push_str(&mut m, profile.as_str());
            },
            LogoutOutcome::Removed { host } => {
                push_str(&mut m, "\u{2713} Logged out from ");
                push_str(&mut m, host.as_str());
            },
            LogoutOutcome::NotLoggedIn { host } => {
                push_str(&mut m, "Not logged in to ");
                push_str(&mut m, host.as_str());
            },
        }
        proof {
            reveal_strlit("");
        }
        string_of(&m)
    }
}

/// The line `gb auth logout` prints for an outcome.
pub open spec fn spec_logout_message(o: LogoutOutcome) -> Seq<char> {
    match o {
        LogoutOutcome::RemovedFromProfile { host, profile } => "\u{2713} Logged out from "@ + host@
            + " for profile "@ + profile@,
        LogoutOutcome::RemovedGlobalForProfile { host, profile } => "\u{2713} Logged out from "@
            + host@ + " (global credentials used by profile "@ + profile@ + ")"@,
        LogoutOutcome::NotLoggedInForProfile { host, profile } => "Not logged in to "@ + host@
            + " for profile "@ + profile@,
        LogoutOutcome::Removed { host } => "\u{2713} Logged out from "@ + host@,
        LogoutOutcome::NotLoggedIn { host } => "Not logged in to "@ + host@,
    }
}

/// Logs out of a host: with a profile in use, its own credentials are removed, else the global
/// ones it falls back on; without one, the global credentials are removed.
pub fn logout(config: &mut AuthConfig, hostname: Option<&str>, profile: Option<&str>) -> (r: Result<
    LogoutOutcome,
    GbError,
>)
    requires
        old(config).wf(),
    ensures
        final(config).wf(),
        match r {
            Err(e) => spec_target_host(old(config)@, str_opt(hostname), str_opt(profile)) == Err::<
                Seq<char>,
                Failure,
            >(e@) && final(config)@ == old(config)@,
            Ok(o) => spec_target_host(old(config)@, str_opt(hostname), str_opt(profile)) matches Ok(
                h,
            ) && match profile {
                Some(p) => if stored_for_profile(old(config)@, p@, h) {
                    o matches LogoutOutcome::RemovedFromProfile { host, profile: pn } && host@ == h
                        && pn@ == p@ && final(config)@ == crate::config::spec_remove_profile_host(
                        old(config)@,
                        p@,
                        h,
                    )
                } else if old(config)@.hosts.dom().contains(h) {
                    o matches LogoutOutcome::RemovedGlobalForProfile { host, profile: pn } && host@
                        == h && pn@ == p@ && final(config)@ == crate::config::spec_remove_host(
                        old(config)@,
                        h,
                    )
                } else {
                    o matches LogoutOutcome::NotLoggedInForProfile { host, profile: pn } && host@
                        == h && pn@ == p@ && final(config)@ == old(config)@
                },
                None => if old(config)@.hosts.dom().contains(h) {
                    o matches LogoutOutcome::Removed { host } && host@ == h && final(config)@
                        == crate::config::spec_remove_host(old(config)@, h)
                } else {
                    o matches LogoutOutcome::NotLoggedIn { host } && host@ == h && final(config)@
                        == old(config)@
                },
            },
        },
{
    let host = target_host(config, hostname, profile)?;
    let ghost before = config@;
    match profile {
        Some(p) => {
            let pn = string_of(&chars_of(p));
            if config.remove_host_for_profile(Some(p), host.as_str()) {
                Ok(LogoutOutcome::RemovedFromProfile { host, profile: pn })
            } else if config.remove_host(host.as_str()) {
                Ok(LogoutOutcome::RemovedGlobalForProfile { host, profile: pn })
            } else {
                proof {
                    assert(before.hosts.remove(host@) =~= before.hosts);
                }
                Ok(LogoutOutcome::NotLoggedInForProfile { host, profile: pn })
            }
        },
        None => {
            if config.remove_host(host.as_str()) {
                Ok(LogoutOutcome::Removed { host })
            } else {
                proof {
                    assert(before.hosts.remove(host@) =~= before.hosts);
                }
                Ok(LogoutOutcome::NotLoggedIn { host })
            }
        },
    }
}

/// The token `gb auth token` prints: the acting credentials' token for the target host.
pub open spec fn spec_token_for(
    c: AuthView,
    hostname: Option<Seq<char>>,
    profile: Option<Seq<char>>,
) -> Result<Seq<char>, Failure> {
    match spec_target_host(c, hostname, profile) {
        Err(e) => Err(e),
        Ok(h) => match spec_get_host_for_profile(c, h, profile) {
            Ok(hv) => Ok(hv.token),
            Err(e) => Err(e),
        },
    }
}

/// The token `gb auth token` prints.
pub fn token_for(config: &AuthConfig, hostname: Option<&str>, profile: Option<&str>) -> (r: Result<
    String,
    GbError,
>)
    requires
        config.wf(),
    ensures
        str_result(r) == spec_token_for(config@, str_opt(hostname), str_opt(profile)),
{
    let host = target_host(config, hostname, profile)?;
    let h = config.get_host_for_profile(host.as_str(), profile)?;
    Ok(h.token)
}

/// The credentials a request uses: the stored ones, with the token from the environment when
/// one is set there.
pub fn acting_credentials(stored: HostConfig, env_token: Option<String>) -> (r: HostConfig)
    ensures
        r.user@ == stored.user@,
        r.protocol@ == stored.protocol@,
        r.token@ == match env_token {
            Some(t) => t@,
            None => stored.token@,
        },
{
    match env_token {
        Some(t) => HostConfig { token: t, user: stored.user, protocol: stored.protocol },
        None => stored,
    }
}

} // verus!
