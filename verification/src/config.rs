//! The stored configuration: saved hosts, profiles and defaults, and the lookups over them.
use vstd::prelude::*;

use crate::entries::{
    distinct_names, entry_map, find_entry, lemma_entry_map_at, lemma_entry_map_dom,
    lemma_entry_map_push, lemma_entry_map_remove, lemma_entry_map_update,
};
use crate::common::{parse_owner_repo, spec_parse_owner_repo};
use crate::error::{config_error, opt_view, str_result, unit_result, Failure, GbError};
use crate::text::{chars_of, eq, eq_str, push_str, string_of};

verus! {

/// The credentials saved for one host.
pub struct HostConfig {
    pub token: String,
    pub user: String,
    /// `http` or `https`.
    pub protocol: String,
}

/// The abstract value of saved credentials.
pub struct HostView {
    pub token: Seq<char>,
    pub user: Seq<char>,
    pub protocol: Seq<char>,
}

impl View for HostConfig {
    type V = HostView;

    open spec fn view(&self) -> HostView {
        HostView { token: self.token@, user: self.user@, protocol: self.protocol@ }
    }
}

fn copy_string(s: &String) -> (r: String)
    ensures
        r@ == s@,
{
    s.clone()
}

fn copy_opt_string(s: &Option<String>) -> (r: Option<String>)
    ensures
        opt_view(r) == opt_view(*s),
{
    match s {
        Some(v) => Some(v.clone()),
        None => None,
    }
}

impl HostConfig {
    /// A copy of these credentials.
    pub fn copy(&self) -> (r: HostConfig)
        ensures
            r@ == self@,
    {
        HostConfig {
            token: copy_string(&self.token),
            user: copy_string(&self.user),
            protocol: copy_string(&self.protocol),
        }
    }
}

/// The abstract entries of a list of saved hosts.
pub open spec fn host_entries(s: Seq<(String, HostConfig)>) -> Seq<(Seq<char>, HostView)> {
    s.map_values(|e: (String, HostConfig)| (e.0@, e.1@))
}

/// The saved hosts of a list, by name.
pub open spec fn host_map(s: Seq<(String, HostConfig)>) -> Map<Seq<char>, HostView> {
    entry_map(host_entries(s))
}

/// A named profile: its defaults and its own saved hosts.
pub struct ProfileConfig {
    pub default_host: Option<String>,
    pub default_repo: Option<String>,
    pub hosts: Vec<(String, HostConfig)>,
}

/// The abstract value of a profile.
pub struct ProfileView {
    pub default_host: Option<Seq<char>>,
    pub default_repo: Option<Seq<char>>,
    pub hosts: Map<Seq<char>, HostView>,
}

impl View for ProfileConfig {
    type V = ProfileView;

    open spec fn view(&self) -> ProfileView {
        ProfileView {
            default_host: opt_view(self.default_host),
            default_repo: opt_view(self.default_repo),
            hosts: host_map(self.hosts@),
        }
    }
}

impl ProfileConfig {
    /// No host is saved twice.
    pub open spec fn wf(&self) -> bool {
        distinct_names(host_entries(self.hosts@))
    }
}

/// The abstract entries of a list of profiles.
pub open spec fn profile_entries(s: Seq<(String, ProfileConfig)>) -> Seq<(Seq<char>, ProfileView)> {
    s.map_values(|e: (String, ProfileConfig)| (e.0@, e.1@))
}

/// The profiles of a list, by name.
pub open spec fn profile_map(s: Seq<(String, ProfileConfig)>) -> Map<Seq<char>, ProfileView> {
    entry_map(profile_entries(s))
}

/// The whole stored configuration.
pub struct AuthConfig {
    pub default_host: Option<String>,
    pub default_profile: Option<String>,
    /// Hosts saved outside any profile.
    pub hosts: Vec<(String, HostConfig)>,
    pub profiles: Vec<(String, ProfileConfig)>,
}

/// The abstract value of the configuration.
pub struct AuthView {
    pub default_host: Option<Seq<char>>,
    pub default_profile: Option<Seq<char>>,
    pub hosts: Map<Seq<char>, HostView>,
    pub profiles: Map<Seq<char>, ProfileView>,
}

impl View for AuthConfig {
    type V = AuthView;

    open spec fn view(&self) -> AuthView {
        AuthView {
            default_host: opt_view(self.default_host),
            default_profile: opt_view(self.default_profile),
            hosts: host_map(self.hosts@),
            profiles: profile_map(self.profiles@),
        }
    }
}

/// A profile with no defaults and no saved hosts.
pub open spec fn empty_profile() -> ProfileView {
    ProfileView { default_host: None, default_repo: None, hosts: Map::empty() }
}

/// The refusal of a profile name that is not saved.
pub open spec fn missing_profile(name: Seq<char>) -> Failure {
    Failure::Config(
        "No saved profile named "@ + name + ". Run `gb config set profile "@ + name + "` first."@,
    )
}

/// The refusal of a host that is not saved.
pub open spec fn missing_host(host: Seq<char>) -> Failure {
    Failure::Config(
        "No saved host entry matches "@ + host + ". Run `gb auth login -H "@ + host + "` first."@,
    )
}

/// A saved profile.
pub open spec fn spec_profile(c: AuthView, name: Seq<char>) -> Result<ProfileView, Failure> {
    if c.profiles.dom().contains(name) {
        Ok(c.profiles[name])
    } else {
        Err(missing_profile(name))
    }
}

/// The profile in use: the one named on the command line, else in the environment, else the
/// default one; it must be saved.
pub open spec fn spec_active_profile_name(
    c: AuthView,
    cli_profile: Option<Seq<char>>,
    env_profile: Option<Seq<char>>,
) -> Result<Option<Seq<char>>, Failure> {
    let selected = match cli_profile {
        Some(p) => Some(p),
        None => match env_profile {
            Some(p) => Some(p),
            None => c.default_profile,
        },
    };
    match selected {
        Some(p) => if c.profiles.dom().contains(p) {
            Ok(Some(p))
        } else {
            Err(missing_profile(p))
        },
        None => Ok(None),
    }
}

/// The host to talk to: the one given, else the profile's default host, else the default host.
pub open spec fn spec_config_hostname(
    c: AuthView,
    cli_hostname: Option<Seq<char>>,
    profile: Option<Seq<char>>,
) -> Result<Option<Seq<char>>, Failure> {
    match cli_hostname {
        Some(h) => Ok(Some(h)),
        None => match profile {
            Some(p) => match spec_profile(c, p) {
                Ok(pv) => Ok(pv.default_host),
                Err(e) => Err(e),
            },
            None => Ok(c.default_host),
        },
    }
}

/// The repository to work on: the one given, else the profile's default repository.
pub open spec fn spec_config_repo(
    c: AuthView,
    cli_repo: Option<Seq<char>>,
    profile: Option<Seq<char>>,
) -> Result<Option<Seq<char>>, Failure> {
    match cli_repo {
        Some(r) => Ok(Some(r)),
        None => match profile {
            Some(p) => match spec_profile(c, p) {
                Ok(pv) => Ok(pv.default_repo),
                Err(e) => Err(e),
            },
            None => Ok(None),
        },
    }
}

/// Whether the profile has its own credentials for the host.
pub open spec fn stored_for_profile(c: AuthView, profile: Seq<char>, hostname: Seq<char>) -> bool {
    c.profiles.dom().contains(profile) && c.profiles[profile].hosts.dom().contains(hostname)
}

/// The credentials for a host: the profile's own, else the global ones.
pub open spec fn spec_get_host_for_profile(
    c: AuthView,
    hostname: Seq<char>,
    profile: Option<Seq<char>>,
) -> Result<HostView, Failure> {
    match profile {
        Some(p) if stored_for_profile(c, p, hostname) => Ok(c.profiles[p].hosts[hostname]),
        _ => if c.hosts.dom().contains(hostname) {
            Ok(c.hosts[hostname])
        } else {
            Err(Failure::NotAuthenticated)
        },
    }
}

/// The configuration after saving credentials for a host, in a profile or globally.
pub open spec fn spec_set_host(
    c: AuthView,
    profile: Option<Seq<char>>,
    hostname: Seq<char>,
    host: HostView,
) -> AuthView {
    match profile {
        None => AuthView { hosts: c.hosts.insert(hostname, host), ..c },
        Some(p) => {
            let cur = if c.profiles.dom().contains(p) {
                c.profiles[p]
            } else {
                empty_profile()
            };
            AuthView {
                profiles: c.profiles.insert(
                    p,
                    ProfileView { hosts: cur.hosts.insert(hostname, host), ..cur },
                ),
                ..c
            }
        },
    }
}

/// The configuration after forgetting the global credentials for a host.
pub open spec fn spec_remove_host(c: AuthView, hostname: Seq<char>) -> AuthView {
    AuthView { hosts: c.hosts.remove(hostname), ..c }
}

/// The configuration after forgetting a profile's own credentials for a host.
pub open spec fn spec_remove_profile_host(c: AuthView, profile: Seq<char>, hostname: Seq<char>) -> AuthView {
    if stored_for_profile(c, profile, hostname) {
        let cur = c.profiles[profile];
        AuthView {
            profiles: c.profiles.insert(
                profile,
                ProfileView { hosts: cur.hosts.remove(hostname), ..cur },
            ),
            ..c
        }
    } else {
        c
    }
}

/// The configuration after updating a profile (made if missing); `None` keeps a field.
pub open spec fn spec_update_profile(
    c: AuthView,
    name: Seq<char>,
    default_host: Option<Seq<char>>,
    default_repo: Option<Seq<char>>,
) -> AuthView {
    let cur = if c.profiles.dom().contains(name) {
        c.profiles[name]
    } else {
        empty_profile()
    };
    let next = ProfileView {
        default_host: match default_host {
            Some(h) => Some(h),
            None => cur.default_host,
        },
        default_repo: match default_repo {
            Some(r) => Some(r),
            None => cur.default_repo,
        },
        ..cur
    };
    AuthView { profiles: c.profiles.insert(name, next), ..c }
}

/// Saves `host` under `name` in a list of hosts, replacing any earlier entry.
fn put_host(hosts: &mut Vec<(String, HostConfig)>, name: String, host: HostConfig)
    requires
        distinct_names(host_entries(old(hosts)@)),
    ensures
        distinct_names(host_entries(final(hosts)@)),
        host_map(final(hosts)@) == host_map(old(hosts)@).insert(name@, host@),
{
    let ghost nv = name@;
    let ghost hv = host@;
    match find_entry(hosts, name.as_str()) {
        Some(i) => {
            let ghost before = hosts@;
            proof {
                lemma_entry_map_update(host_entries(before), i as int, hv);
            }
            hosts.set(i, (name, host));
            assert(host_entries(hosts@) =~= host_entries(before).update(
                i as int,
                (host_entries(before)[i as int].0, hv),
            ));
        },
        None => {
            let ghost before = hosts@;
            proof {
                lemma_entry_map_dom(host_entries(before), nv);
                if host_map(before).dom().contains(nv) {
                    let j = choose|j: int|
                        0 <= j < host_entries(before).len() && host_entries(before)[j].0 == nv;
                    assert(before[j].0@ == nv);
                }
                lemma_entry_map_push(host_entries(before), nv, hv);
            }
            hosts.push((name, host));
            assert(host_entries(hosts@) =~= host_entries(before).push((nv, hv)));
        },
    }
}

/// Forgets the entry `name` in a list of hosts; whether there was one.
fn drop_host(hosts: &mut Vec<(String, HostConfig)>, name: &str) -> (r: bool)
    requires
        distinct_names(host_entries(old(hosts)@)),
    ensures
        distinct_names(host_entries(final(hosts)@)),
        r == host_map(old(hosts)@).dom().contains(name@),
        host_map(final(hosts)@) == host_map(old(hosts)@).remove(name@),
{
    let ghost before = hosts@;
    proof {
        lemma_entry_map_dom(host_entries(before), name@);
    }
    match find_entry(hosts, name) {
        Some(i) => {
            proof {
                lemma_entry_map_remove(host_entries(before), i as int);
                assert(host_entries(before)[i as int].0 == name@);
            }
            hosts.remove(i);
            assert(host_entries(hosts@) =~= host_entries(before).remove(i as int));
            true
        },
        None => {
            assert(host_map(before).remove(name@) =~= host_map(before));
            false
        },
    }
}

/// Looks up a saved host in a list; the index of its entry.
fn lookup_host(hosts: &Vec<(String, HostConfig)>, name: &str) -> (r: Option<usize>)
    requires
        distinct_names(host_entries(hosts@)),
    ensures
        r is Some <==> host_map(hosts@).dom().contains(name@),
        r matches Some(i) ==> i < hosts@.len() && hosts@[i as int].0@ == name@
            && host_map(hosts@)[name@] == hosts@[i as int].1@,
{
    proof {
        lemma_entry_map_dom(host_entries(hosts@), name@);
    }
    let r = find_entry(hosts, name);
    match r {
        Some(i) => {
            proof {
                lemma_entry_map_at(host_entries(hosts@), i as int);
            }
        },
        None => {
            proof {
                if host_map(hosts@).dom().contains(name@) {
                    let j = choose|j: int|
                        0 <= j < host_entries(hosts@).len() && host_entries(hosts@)[j].0 == name@;
                    assert(hosts@[j].0@ == name@);
                }
            }
        },
    }
    r
}

impl AuthConfig {
    /// No host or profile is saved twice, in any list.
    pub open spec fn wf(&self) -> bool {
        &&& distinct_names(host_entries(self.hosts@))
        &&& distinct_names(profile_entries(self.profiles@))
        &&& forall|i: int| 0 <= i < self.profiles@.len() ==> (#[trigger] self.profiles@[i]).1.wf()
    }

    /// An empty configuration.
    pub fn new() -> (r: AuthConfig)
        ensures
            r.wf(),
            r@ == (AuthView {
                default_host: None,
                default_profile: None,
                hosts: Map::empty(),
                profiles: Map::empty(),
            }),
    {
        let r = AuthConfig {
            default_host: None,
            default_profile: None,
            hosts: Vec::new(),
            profiles: Vec::new(),
        };
        assert(host_map(r.hosts@) =~= Map::empty());
        assert(profile_map(r.profiles@) =~= Map::empty());
        r
    }

    /// The index of the profile `name`.
    fn profile_index(&self, name: &str) -> (r: Option<usize>)
        requires
            self.wf(),
        ensures
            r is Some <==> self@.profiles.dom().contains(name@),
            r matches Some(i) ==> i < self.profiles@.len() && self.profiles@[i as int].0@ == name@
                && self@.profiles[name@] == self.profiles@[i as int].1@,
    {
        let ghost t = profile_entries(self.profiles@);
        proof {
            lemma_entry_map_dom(t, name@);
        }
        let r = find_entry(&self.profiles, name);
        match r {
            Some(i) => {
                proof {
                    assert(t[i as int] == (self.profiles@[i as int].0@, self.profiles@[i as int].1@));
                    lemma_entry_map_at(t, i as int);
                }
            },
            None => {
                proof {
                    if self@.profiles.dom().contains(name@) {
                        let j = choose|j: int| 0 <= j < t.len() && t[j].0 == name@;
                        assert(self.profiles@[j].0@ == name@);
                    }
                }
            },
        }
        r
    }

    /// A saved profile.
    pub fn profile(&self, name: &str) -> (r: Result<&ProfileConfig, GbError>)
        requires
            self.wf(),
        ensures
            match r {
                Ok(p) => spec_profile(self@, name@) == Ok::<ProfileView, Failure>(p@) && p.wf(),
                Err(e) => spec_profile(self@, name@) == Err::<ProfileView, Failure>(e@),
            },
    {
        match self.profile_index(name) {
            Some(i) => {
                assert(self.profiles@[i as int].1.wf());
                Ok(&self.profiles[i].1)
            },
            None => Err(missing_profile_error(name)),
        }
    }

    /// The saved global host named `host`.
    pub fn stored_hostname(&self, host: &str) -> (r: Option<String>)
        requires
            self.wf(),
        ensures
            r is Some <==> self@.hosts.dom().contains(host@),
            r matches Some(h) ==> h@ == host@,
    {
        match lookup_host(&self.hosts, host) {
            Some(i) => Some(copy_string(&self.hosts[i].0)),
            None => None,
        }
    }

    /// The host named `host` among the profile's own saved hosts.
    pub fn stored_hostname_for_profile(&self, profile: &str, host: &str) -> (r: Option<String>)
        requires
            self.wf(),
        ensures
            r is Some <==> stored_for_profile(self@, profile@, host@),
            r matches Some(h) ==> h@ == host@,
    {
        match self.profile_index(profile) {
            Some(i) => {
                assert(self.profiles@[i as int].1.wf());
                match lookup_host(&self.profiles[i].1.hosts, host) {
                    Some(j) => Some(copy_string(&self.profiles[i].1.hosts[j].0)),
                    None => None,
                }
            },
            None => None,
        }
    }

    /// The profile in use, given the command-line and environment selections.
    pub fn active_profile_name(&self, cli_profile: Option<&str>, env_profile: Option<&str>) -> (r:
        Result<Option<String>, GbError>)
        requires
            self.wf(),
        ensures
            match r {
                Ok(p) => spec_active_profile_name(
                    self@,
                    str_opt(cli_profile),
                    str_opt(env_profile),
                ) == Ok::<Option<Seq<char>>, Failure>(opt_view(p)),
                Err(e) => spec_active_profile_name(
                    self@,
                    str_opt(cli_profile),
                    str_opt(env_profile),
                ) == Err::<Option<Seq<char>>, Failure>(e@),
            },
    {
        let selected: Option<String> = match cli_profile {
            Some(p) => Some(string_of(&chars_of(p))),
            None => match env_profile {
                Some(p) => Some(string_of(&chars_of(p))),
                None => copy_opt_string(&self.default_profile),
            },
        };
        match selected {
            Some(p) => {
                if self.profile_index(p.as_str()).is_some() {
                    Ok(Some(p))
                } else {
                    Err(missing_profile_error(p.as_str()))
                }
            },
            None => Ok(None),
        }
    }

    /// The host to talk to, given the command-line host and the profile in use.
    pub fn resolve_hostname(&self, cli_hostname: Option<&str>, profile: Option<&str>) -> (r: Result<
        Option<String>,
        GbError,
    >)
        requires
            self.wf(),
        ensures
            match r {
                Ok(h) => spec_config_hostname(
                    self@,
                    str_opt(cli_hostname),
                    str_opt(profile),
                ) == Ok::<Option<Seq<char>>, Failure>(opt_view(h)),
                Err(e) => spec_config_hostname(self@, str_opt(cli_hostname), str_opt(profile))
                    == Err::<Option<Seq<char>>, Failure>(e@),
            },
    {
        match cli_hostname {
            Some(h) => Ok(Some(string_of(&chars_of(h)))),
            None => match profile {
                Some(p) => {
                    let pc = self.profile(p)?;
                    Ok(copy_opt_string(&pc.default_host))
                },
                None => Ok(copy_opt_string(&self.default_host)),
            },
        }
    }

    /// The repository to work on: the one given, else the profile's default repository.
    pub fn resolve_repo(&self, cli_repo: Option<&str>, profile: Option<&str>) -> (r: Result<
        Option<String>,
        GbError,
    >)
        requires
            self.wf(),
        ensures
            match r {
                Ok(v) => spec_config_repo(self@, str_opt(cli_repo), str_opt(profile)) == Ok::<
                    Option<Seq<char>>,
                    Failure,
                >(opt_view(v)),
                Err(e) => spec_config_repo(self@, str_opt(cli_repo), str_opt(profile)) == Err::<
                    Option<Seq<char>>,
                    Failure,
                >(e@),
            },
    {
        match cli_repo {
            Some(r) => Ok(Some(string_of(&chars_of(r)))),
            None => match profile {
                Some(p) => {
                    let pc = self.profile(p)?;
                    Ok(copy_opt_string(&pc.default_repo))
                },
                None => Ok(None),
            },
        }
    }

    /// The credentials for a host in the profile in use.
    pub fn get_host_for_profile(&self, hostname: &str, profile: Option<&str>) -> (r: Result<
        HostConfig,
        GbError,
    >)
        requires
            self.wf(),
        ensures
            match r {
                Ok(h) => spec_get_host_for_profile(self@, hostname@, str_opt(profile)) == Ok::<
                    HostView,
                    Failure,
                >(h@),
                Err(e) => spec_get_host_for_profile(self@, hostname@, str_opt(profile)) == Err::<
                    HostView,
                    Failure,
                >(e@),
            },
    {
        if let Some(p) = profile {
            if let Some(i) = self.profile_index(p) {
                assert(self.profiles@[i as int].1.wf());
                if let Some(j) = lookup_host(&self.profiles[i].1.hosts, hostname) {
                    return Ok(self.profiles[i].1.hosts[j].1.copy());
                }
            }
        }
        match lookup_host(&self.hosts, hostname) {
            Some(j) => Ok(self.hosts[j].1.copy()),
            None => Err(GbError::NotAuthenticated),
        }
    }

    /// Saves credentials for a host, in a profile (made if missing) or globally.
    pub fn set_host_for_profile(&mut self, profile: Option<&str>, hostname: String, host: HostConfig)
        requires
            old(self).wf(),
        ensures
            final(self).wf(),
            final(self)@ == spec_set_host(old(self)@, str_opt(profile), hostname@, host@),
    {
        let ghost c = self@;
        let ghost hn = hostname@;
        let ghost hv = host@;
        match profile {
            None => {
                put_host(&mut self.hosts, hostname, host);
                assert(self@ == spec_set_host(c, None, hn, hv));
            },
            Some(p) => {
                let ghost pn = p@;
                match self.profile_index(p) {
                    Some(i) => {
                        let ghost before = self.profiles@;
                        let ghost t = profile_entries(before);
                        let (name, mut pc) = self.profiles.remove(i);
                        assert(before[i as int].1.wf());
                        let ghost cur = pc@;
                        put_host(&mut pc.hosts, hostname, host);
                        let ghost next = pc@;
                        assert(next == ProfileView { hosts: cur.hosts.insert(hn, hv), ..cur });
                        proof {
                            lemma_entry_map_update(t, i as int, next);
                        }
                        self.profiles.insert(i, (name, pc));
                        assert(self.profiles@ =~= before.update(i as int, self.profiles@[i as int]));
                        assert(profile_entries(self.profiles@) =~= t.update(
                            i as int,
                            (t[i as int].0, next),
                        ));
                        assert forall|k: int| 0 <= k < self.profiles@.len() implies (
                        #[trigger] self.profiles@[k]).1.wf() by {
                            if k != i {
                                assert(self.profiles@[k] == before[k]);
                            }
                        }
                        assert(self@ =~= spec_set_host(c, Some(pn), hn, hv));
                    },
                    None => {
                        let ghost before = self.profiles@;
                        let ghost t = profile_entries(before);
                        let mut hosts: Vec<(String, HostConfig)> = Vec::new();
                        assert(host_map(hosts@) =~= Map::empty());
                        put_host(&mut hosts, hostname, host);
                        let pc = ProfileConfig { default_host: None, default_repo: None, hosts };
                        let ghost next = pc@;
                        proof {
                            lemma_entry_map_dom(t, pn);
                            if entry_map(t).dom().contains(pn) {
                                let j = choose|j: int| 0 <= j < t.len() && t[j].0 == pn;
                                assert(before[j].0@ == pn);
                            }
                            lemma_entry_map_push(t, pn, next);
                        }
                        self.profiles.push((string_of(&chars_of(p)), pc));
                        assert(profile_entries(self.profiles@) =~= t.push((pn, next)));
                        assert forall|k: int| 0 <= k < self.profiles@.len() implies (
                        #[trigger] self.profiles@[k]).1.wf() by {
                            if k < before.len() {
                                assert(self.profiles@[k] == before[k]);
                            }
                        }
                        assert(self@ =~= spec_set_host(c, Some(pn), hn, hv));
                    },
                }
            },
        }
    }

    /// Forgets the global credentials for a host; whether there were any.
    pub fn remove_host(&mut self, hostname: &str) -> (r: bool)
        requires
            old(self).wf(),
        ensures
            final(self).wf(),
            r == old(self)@.hosts.dom().contains(hostname@),
            final(self)@ == spec_remove_host(old(self)@, hostname@),
    {
        let ghost c = self@;
        let r = drop_host(&mut self.hosts, hostname);
        assert(self@ == spec_remove_host(c, hostname@));
        r
    }

    /// Forgets the profile's own credentials for a host (or, without a profile, the global
    /// ones); whether there were any.
    pub fn remove_host_for_profile(&mut self, profile: Option<&str>, hostname: &str) -> (r: bool)
        requires
            old(self).wf(),
        ensures
            final(self).wf(),
            match profile {
                Some(p) => r == stored_for_profile(old(self)@, p@, hostname@) && final(self)@
                    == spec_remove_profile_host(old(self)@, p@, hostname@),
                None => r == old(self)@.hosts.dom().contains(hostname@) && final(self)@
                    == spec_remove_host(old(self)@, hostname@),
            },
    {
        let p = match profile {
            Some(p) => p,
            None => {
                return self.remove_host(hostname);
            },
        };
        let ghost c = self@;
        match self.profile_index(p) {
            Some(i) => {
                let ghost before = self.profiles@;
                let ghost t = profile_entries(before);
                let (name, mut pc) = self.profiles.remove(i);
                assert(before[i as int].1.wf());
                let ghost cur = pc@;
                let removed = drop_host(&mut pc.hosts, hostname);
                let ghost next = pc@;
                proof {
                    lemma_entry_map_update(t, i as int, next);
                }
                self.profiles.insert(i, (name, pc));
                assert(self.profiles@ =~= before.update(i as int, self.profiles@[i as int]));
                assert(profile_entries(self.profiles@) =~= t.update(i as int, (t[i as int].0, next)));
                assert forall|k: int| 0 <= k < self.profiles@.len() implies (
                #[trigger] self.profiles@[k]).1.wf() by {
                    if k != i {
                        assert(self.profiles@[k] == before[k]);
                    }
                }
                if removed {
                    assert(self@ =~= spec_remove_profile_host(c, p@, hostname@));
                } else {
                    assert(next.hosts =~= cur.hosts);
                    assert(next == cur);
                    assert(c.profiles.insert(p@, cur) =~= c.profiles);
                    assert(self@ =~= c);
                }
                removed
            },
            None => false,
        }
    }

    /// Updates a profile's defaults, making the profile if it is missing.
    pub fn update_profile(&mut self, name: &str, default_host: Option<String>, default_repo: Option<
        String,
    >)
        requires
            old(self).wf(),
        ensures
            final(self).wf(),
            final(self)@ == spec_update_profile(
                old(self)@,
                name@,
                opt_view(default_host),
                opt_view(default_repo),
            ),
    {
        let ghost c = self@;
        let ghost dh = opt_view(default_host);
        let ghost dr = opt_view(default_repo);
        let ghost before = self.profiles@;
        let ghost t = profile_entries(before);
        match self.profile_index(name) {
            Some(i) => {
                let (pname, mut pc) = self.profiles.remove(i);
                assert(before[i as int].1.wf());
                if default_host.is_some() {
                    pc.default_host = default_host;
                }
                if default_repo.is_some() {
                    pc.default_repo = default_repo;
                }
                let ghost next = pc@;
                proof {
                    lemma_entry_map_update(t, i as int, next);
                }
                self.profiles.insert(i, (pname, pc));
                assert(self.profiles@ =~= before.update(i as int, self.profiles@[i as int]));
                assert(profile_entries(self.profiles@) =~= t.update(i as int, (t[i as int].0, next)));
                assert forall|k: int| 0 <= k < self.profiles@.len() implies (
                #[trigger] self.profiles@[k]).1.wf() by {
                    if k != i {
                        assert(self.profiles@[k] == before[k]);
                    }
                }
                assert(self@ =~= spec_update_profile(c, name@, dh, dr));
            },
            None => {
                let hosts: Vec<(String, HostConfig)> = Vec::new();
                assert(host_map(hosts@) =~= Map::empty());
                let pc = ProfileConfig { default_host, default_repo, hosts };
                let ghost next = pc@;
                proof {
                    lemma_entry_map_dom(t, name@);
                    if entry_map(t).dom().contains(name@) {
                        let j = choose|j: int| 0 <= j < t.len() && t[j].0 == name@;
                        assert(before[j].0@ == name@);
                    }
                    lemma_entry_map_push(t, name@, next);
                }
                self.profiles.push((string_of(&chars_of(name)), pc));
                assert(profile_entries(self.profiles@) =~= t.push((name@, next)));
                assert forall|k: int| 0 <= k < self.profiles@.len() implies (
                #[trigger] self.profiles@[k]).1.wf() by {
                    if k < before.len() {
                        assert(self.profiles@[k] == before[k]);
                    }
                }
                assert(self@ =~= spec_update_profile(c, name@, dh, dr));
            },
        }
    }
}

// ---------------------------------------------------------------------------
// `gb config` decisions
// ---------------------------------------------------------------------------

/// The refusal of an unknown protocol.
pub open spec fn bad_protocol() -> Failure {
    Failure::Config("Protocol must be `http` or `https`."@)
}

/// A protocol must be `http` or `https`.
pub open spec fn spec_validate_protocol(protocol: Seq<char>) -> Result<(), Failure> {
    if protocol == "http"@ || protocol == "https"@ {
        Ok(())
    } else {
        Err(bad_protocol())
    }
}

/// Checks that a protocol is `http` or `https`.
pub fn validate_protocol(protocol: &str) -> (r: Result<(), GbError>)
    ensures
        unit_result(r) == spec_validate_protocol(protocol@),
{
    let p = chars_of(protocol);
    if eq_str(&p, "http") || eq_str(&p, "https") {
        Ok(())
    } else {
        Err(config_error(&chars_of("Protocol must be `http` or `https`.")))
    }
}

/// The saved host that a host argument names.
pub open spec fn spec_resolve_saved_hostname(c: AuthView, host: Seq<char>) -> Result<Seq<char>, Failure> {
    if c.hosts.dom().contains(host) {
        Ok(host)
    } else {
        Err(missing_host(host))
    }
}

/// The saved host that a host argument names, or the advice to log in first.
pub fn resolve_saved_hostname(config: &AuthConfig, host: &str) -> (r: Result<String, GbError>)
    requires
        config.wf(),
    ensures
        str_result(r) == spec_resolve_saved_hostname(config@, host@),
{
    match config.stored_hostname(host) {
        Some(h) => Ok(h),
        None => {
            let mut m = chars_of("No saved host entry matches ");
            push_str(&mut m, host);
            push_str(&mut m, ". Run `gb auth login -H ");
            push_str(&mut m, host);
            push_str(&mut m, "` first.");
            Err(config_error(&m))
        },
    }
}

/// The refusal of `gb config set host` without anything to change.
pub open spec fn nothing_to_update() -> Failure {
    Failure::Config("Nothing to update. Specify --user, --protocol, or --default."@)
}

/// The configuration after `gb config set host`: the user and protocol replaced where given,
/// and the host made the default when asked.
pub open spec fn spec_update_host(
    c: AuthView,
    host: Seq<char>,
    user: Option<Seq<char>>,
    protocol: Option<Seq<char>>,
    make_default: bool,
) -> Result<AuthView, Failure> {
    if user is None && protocol is None && !make_default {
        Err(nothing_to_update())
    } else if !c.hosts.dom().contains(host) {
        Err(missing_host(host))
    } else if protocol matches Some(p) && spec_validate_protocol(p) is Err {
        Err(bad_protocol())
    } else {
        let cur = c.hosts[host];
        let next = HostView {
            user: match user {
                Some(u) => u,
                None => cur.user,
            },
            protocol: match protocol {
                Some(p) => p,
                None => cur.protocol,
            },
            ..cur
        };
        Ok(
            AuthView {
                hosts: c.hosts.insert(host, next),
                default_host: if make_default {
                    Some(host)
                } else {
                    c.default_host
                },
                ..c
            },
        )
    }
}

/// The configuration after `gb config set default-profile`.
pub open spec fn spec_set_default_profile(c: AuthView, name: Seq<char>) -> Result<AuthView, Failure> {
    if c.profiles.dom().contains(name) {
        Ok(AuthView { default_profile: Some(name), ..c })
    } else {
        Err(missing_profile(name))
    }
}

/// The configuration after `gb config set profile`: the default repository must read
/// `OWNER/REPO`.
pub open spec fn spec_set_profile(
    c: AuthView,
    name: Seq<char>,
    default_host: Option<Seq<char>>,
    default_repo: Option<Seq<char>>,
) -> Result<AuthView, Failure> {
    match default_repo {
        Some(r) if spec_parse_owner_repo(r) is Err => Err(spec_parse_owner_repo(r)->Err_0),
        _ => Ok(spec_update_profile(c, name, default_host, default_repo)),
    }
}

/// The stored default, or the failure to report when there is none.
pub open spec fn spec_default_value(value: Option<Seq<char>>, what: Seq<char>) -> Result<Seq<char>, Failure> {
    match value {
        Some(v) => Ok(v),
        None => Err(Failure::Config("No default "@ + what + " configured."@)),
    }
}

fn default_value(value: &Option<String>, what: &str) -> (r: Result<String, GbError>)
    ensures
        str_result(r) == spec_default_value(opt_view(*value), what@),
{
    match value {
        Some(v) => Ok(copy_string(v)),
        None => {
            let mut m = chars_of("No default ");
            push_str(&mut m, what);
            push_str(&mut m, " configured.");
            Err(config_error(&m))
        },
    }
}

impl AuthConfig {
    /// Whether no host or profile is saved twice.
    pub fn is_well_formed(&self) -> (r: bool)
        ensures
            r == self.wf(),
    {
        if !hosts_distinct(&self.hosts) {
            return false;
        }
        let ghost t = profile_entries(self.profiles@);
        let mut i: usize = 0;
        while i < self.profiles.len()
            invariant
                i <= self.profiles@.len(),
                t == profile_entries(self.profiles@),
                forall|a: int, b: int|
                    0 <= a < b < self.profiles@.len() && a < i ==> self.profiles@[a].0@
                        != self.profiles@[b].0@,
                forall|k: int| 0 <= k < i ==> (#[trigger] self.profiles@[k]).1.wf(),
            decreases self.profiles@.len() - i,
        {
            if !hosts_distinct(&self.profiles[i].1.hosts) {
                return false;
            }
            let name = chars_of(self.profiles[i].0.as_str());
            let mut j: usize = i + 1;
            while j < self.profiles.len()
                invariant
                    i < j <= self.profiles@.len(),
                    t == profile_entries(self.profiles@),
                    name@ == self.profiles@[i as int].0@,
                    forall|b: int| i < b < j ==> self.profiles@[i as int].0@ != self.profiles@[b].0@,
                decreases self.profiles@.len() - j,
            {
                if eq(&name, &chars_of(self.profiles[j].0.as_str())) {
                    assert(t[i as int].0 == t[j as int].0);
                    return false;
                }
                j = j + 1;
            }
            i = i + 1;
        }
        assert(distinct_names(t)) by {
            assert forall|a: int, b: int| 0 <= a < b < t.len() implies t[a].0 != t[b].0 by {
                assert(t[a].0 == self.profiles@[a].0@);
                assert(t[b].0 == self.profiles@[b].0@);
            }
        }
        true
    }

    /// The stored default host.
    pub fn default_host_value(&self) -> (r: Result<String, GbError>)
        ensures
            str_result(r) == spec_default_value(self@.default_host, "host"@),
    {
        default_value(&self.default_host, "host")
    }

    /// The stored default profile.
    pub fn default_profile_value(&self) -> (r: Result<String, GbError>)
        ensures
            str_result(r) == spec_default_value(self@.default_profile, "profile"@),
    {
        default_value(&self.default_profile, "profile")
    }

    /// Makes a saved host the default; the host's saved name.
    pub fn set_default_host(&mut self, host: &str) -> (r: Result<String, GbError>)
        requires
            old(self).wf(),
        ensures
            final(self).wf(),
            str_result(r) == spec_resolve_saved_hostname(old(self)@, host@),
            r is Ok ==> final(self)@ == (AuthView { default_host: Some(host@), ..old(self)@ }),
            r is Err ==> final(self)@ == old(self)@,
    {
        let h = resolve_saved_hostname(self, host)?;
        self.default_host = Some(copy_string(&h));
        Ok(h)
    }

    /// Makes a saved profile the default.
    pub fn set_default_profile(&mut self, name: &str) -> (r: Result<(), GbError>)
        requires
            old(self).wf(),
        ensures
            final(self).wf(),
            match r {
                Ok(_) => spec_set_default_profile(old(self)@, name@) == Ok::<AuthView, Failure>(
                    final(self)@,
                ),
                Err(e) => spec_set_default_profile(old(self)@, name@) == Err::<AuthView, Failure>(
                    e@,
                ) && final(self)@ == old(self)@,
            },
    {
        if self.profile_index(name).is_none() {
            return Err(missing_profile_error(name));
        }
        self.default_profile = Some(string_of(&chars_of(name)));
        Ok(())
    }

    /// `gb config set host`: replaces the user and protocol where given and makes the host the
    /// default when asked; the host's saved name.
    pub fn update_host(
        &mut self,
        host: &str,
        user: Option<String>,
        protocol: Option<String>,
        make_default: bool,
    ) -> (r: Result<String, GbError>)
        requires
            old(self).wf(),
        ensures
            final(self).wf(),
            match r {
                Ok(h) => h@ == host@ && spec_update_host(
                    old(self)@,
                    host@,
                    opt_view(user),
                    opt_view(protocol),
                    make_default,
                ) == Ok::<AuthView, Failure>(final(self)@),
                Err(e) => spec_update_host(
                    old(self)@,
                    host@,
                    opt_view(user),
                    opt_view(protocol),
                    make_default,
                ) == Err::<AuthView, Failure>(e@) && final(self)@ == old(self)@,
            },
    {
        if user.is_none() && protocol.is_none() && !make_default {
            return Err(
                config_error(&chars_of("Nothing to update. Specify --user, --protocol, or --default.")),
            );
        }
        let h = resolve_saved_hostname(self, host)?;
        if let Some(p) = &protocol {
            validate_protocol(p.as_str())?;
        }
        let ghost c = self@;
        let i = match lookup_host(&self.hosts, host) {
            Some(i) => i,
            None => {
                return Err(GbError::NotAuthenticated);
            },
        };
        let cur = self.hosts[i].1.copy();
        let next = HostConfig {
            token: cur.token,
            user: match user {
                Some(u) => u,
                None => cur.user,
            },
            protocol: match protocol {
                Some(p) => p,
                None => cur.protocol,
            },
        };
        put_host(&mut self.hosts, string_of(&chars_of(host)), next);
        if make_default {
            self.default_host = Some(copy_string(&h));
        }
        assert(self@ =~= spec_update_host(c, host@, opt_view(user), opt_view(protocol), make_default)->Ok_0);
        Ok(h)
    }

    /// `gb config set profile`: checks the default repository, then updates the profile.
    pub fn set_profile(&mut self, name: &str, default_host: Option<String>, default_repo: Option<
        String,
    >) -> (r: Result<(), GbError>)
        requires
            old(self).wf(),
        ensures
            final(self).wf(),
            match r {
                Ok(_) => spec_set_profile(
                    old(self)@,
                    name@,
                    opt_view(default_host),
                    opt_view(default_repo),
                ) == Ok::<AuthView, Failure>(final(self)@),
                Err(e) => spec_set_profile(
                    old(self)@,
                    name@,
                    opt_view(default_host),
                    opt_view(default_repo),
                ) == Err::<AuthView, Failure>(e@) && final(self)@ == old(self)@,
            },
    {
        if let Some(repo) = &default_repo {
            match parse_owner_repo(repo.as_str()) {
                Ok(_) => {},
                Err(e) => {
                    return Err(e);
                },
            }
        }
        self.update_profile(name, default_host, default_repo);
        Ok(())
    }

    /// Clears the default host; whether one was set.
    pub fn clear_default_host(&mut self) -> (r: bool)
        requires
            old(self).wf(),
        ensures
            final(self).wf(),
            r == old(self)@.default_host is Some,
            final(self)@ == (AuthView { default_host: None, ..old(self)@ }),
    {
        let was = self.default_host.is_some();
        self.default_host = None;
        was
    }

    /// Clears the default profile; whether one was set.
    pub fn clear_default_profile(&mut self) -> (r: bool)
        requires
            old(self).wf(),
        ensures
            final(self).wf(),
            r == old(self)@.default_profile is Some,
            final(self)@ == (AuthView { default_profile: None, ..old(self)@ }),
    {
        let was = self.default_profile.is_some();
        self.default_profile = None;
        was
    }
}

/// Whether no host is saved twice in a list.
fn hosts_distinct(hosts: &Vec<(String, HostConfig)>) -> (r: bool)
    ensures
        r == distinct_names(host_entries(hosts@)),
{
    let ghost t = host_entries(hosts@);
    let mut i: usize = 0;
    while i < hosts.len()
        invariant
            i <= hosts@.len(),
            t == host_entries(hosts@),
            forall|a: int, b: int| 0 <= a < b < hosts@.len() && a < i ==> hosts@[a].0@ != hosts@[b].0@,
        decreases hosts@.len() - i,
    {
        let name = chars_of(hosts[i].0.as_str());
        let mut j: usize = i + 1;
        while j < hosts.len()
            invariant
                i < j <= hosts@.len(),
                name@ == hosts@[i as int].0@,
                t == host_entries(hosts@),
                forall|b: int| i < b < j ==> hosts@[i as int].0@ != hosts@[b].0@,
            decreases hosts@.len() - j,
        {
            if eq(&name, &chars_of(hosts[j].0.as_str())) {
                assert(t[i as int].0 == t[j as int].0);
                return false;
            }
            j = j + 1;
        }
        i = i + 1;
    }
    assert forall|a: int, b: int| 0 <= a < b < t.len() implies t[a].0 != t[b].0 by {
        assert(t[a].0 == hosts@[a].0@);
        assert(t[b].0 == hosts@[b].0@);
    }
    true
}

/// The abstract value of an optional string slice.
pub open spec fn str_opt(o: Option<&str>) -> Option<Seq<char>> {
    match o {
        Some(s) => Some(s@),
        None => None,
    }
}

fn missing_profile_error(name: &str) -> (e: GbError)
    ensures
        e@ == missing_profile(name@),
{
    let mut m = chars_of("No saved profile named ");
    push_str(&mut m, name);
    push_str(&mut m, ". Run `gb config set profile ");
    push_str(&mut m, name);
    push_str(&mut m, "` first.");
    config_error(&m)
}

} // verus!
