use gb::auth::{
    credential_source_label, display_user, effective_actor, profile_output, status_output,
    summarize_global_hosts, summarize_hosts, summarize_profiles, CredentialSource,
};
use gb::cli_args::HostField;
use gb::config::{AuthConfig, HostConfig};
use gb::report::{
    config_list_text, host_text, no_credentials_stored, profile_status_text, profile_text,
    status_text,
};

fn host(token: &str, user: &str) -> HostConfig {
    HostConfig {
        token: token.into(),
        user: user.into(),
        protocol: "https".into(),
    }
}

fn sample() -> AuthConfig {
    let mut c = AuthConfig::new();
    c.set_host_for_profile(None, "zeta.example.com".into(), host("t1", "alice"));
    c.set_host_for_profile(None, "alpha.example.com".into(), host("", ""));
    c.set_host_for_profile(Some("work"), "work.example.com".into(), host("t2", "bob"));
    c.update_profile("work", Some("work.example.com".into()), None);
    c.update_profile("empty", None, None);
    c.default_host = Some("zeta.example.com".into());
    c
}

#[test]
fn summaries_are_sorted_by_name_and_hide_tokens() {
    let c = sample();
    let hosts = summarize_hosts(&c.hosts);
    let names: Vec<&str> = hosts.iter().map(|(n, _)| n.as_str()).collect();
    assert_eq!(names, vec!["alpha.example.com", "zeta.example.com"]);
    assert!(!hosts[0].1.has_token);
    assert!(hosts[1].1.has_token);
    let profiles = summarize_profiles(&c.profiles);
    let names: Vec<&str> = profiles.iter().map(|(n, _)| n.as_str()).collect();
    assert_eq!(names, vec!["empty", "work"]);
    let global = summarize_global_hosts(&c);
    assert_eq!(global[1].1.credential_source, CredentialSource::Global);
}

#[test]
fn credential_labels_and_user_display() {
    assert_eq!(credential_source_label(CredentialSource::Profile), "profile credentials");
    assert_eq!(credential_source_label(CredentialSource::Global), "global credentials");
    assert_eq!(credential_source_label(CredentialSource::Environment), "environment token");
    assert_eq!(display_user(""), "<unset>");
    assert_eq!(display_user("bob"), "bob");
}

#[test]
fn effective_actor_follows_credentials() {
    let c = sample();
    let a = effective_actor(&c, None, Some("work"), false).unwrap().unwrap();
    assert_eq!((a.host.as_str(), a.user.as_str()), ("work.example.com", "bob"));
    assert_eq!(a.credential_source, CredentialSource::Profile);
    let a = effective_actor(&c, None, None, true).unwrap().unwrap();
    assert_eq!(a.credential_source, CredentialSource::Environment);
    assert_eq!(a.user, "alice");
    let a = effective_actor(&c, Some("zeta.example.com"), Some("work"), false).unwrap().unwrap();
    assert_eq!(a.credential_source, CredentialSource::Global);
    assert!(effective_actor(&c, None, Some("empty"), false).unwrap().is_none());
    assert!(effective_actor(&c, Some("unknown.host"), None, false).unwrap().is_none());
    assert!(effective_actor(&c, None, Some("missing"), false).is_err());
}

#[test]
fn status_lists_everything_without_a_selection() {
    let c = sample();
    let out = status_output(&c, None, None, None, false).unwrap();
    assert_eq!(out.hosts.len(), 2);
    assert_eq!(out.profiles.len(), 2);
    assert!(out.effective_actor.is_none());
    let text = status_text(&out, no_credentials_stored(&c));
    let expected = [
        "alpha.example.com\n",
        "  \u{2713} Logged in as \n",
        "  Protocol: https\n",
        "zeta.example.com\n",
        "  \u{2713} Logged in as alice\n",
        "  Protocol: https\n",
        "Profiles:\n",
        "empty\n",
        "work\n",
        "  Default host: work.example.com\n",
        "  Effective actor: bob @ work.example.com (profile credentials)\n",
        "  work.example.com\n",
        "    \u{2713} Logged in as bob\n",
        "    Protocol: https\n",
    ]
    .concat();
    assert_eq!(text, expected);
}

#[test]
fn status_narrowed_to_a_profile() {
    let c = sample();
    let out = status_output(&c, None, Some("work"), Some("work"), false).unwrap();
    assert!(out.hosts.is_empty());
    assert_eq!(out.profiles.len(), 1);
    assert_eq!(out.active_profile, Some("work".into()));
    let expected = [
        "Profile: work\n",
        "  Default host: work.example.com\n",
        "  Default repo: <unset>\n",
        "  Effective actor: bob @ work.example.com (profile credentials)\n",
        "  Stored credentials:\n",
        "    work.example.com\n",
        "      \u{2713} Logged in as bob\n",
        "      Protocol: https\n",
    ]
    .concat();
    assert_eq!(profile_status_text(&out), expected);
    assert!(status_output(&c, None, Some("work"), Some("missing"), false).is_err());
}

#[test]
fn status_of_an_empty_configuration() {
    let c = AuthConfig::new();
    let out = status_output(&c, None, None, None, false).unwrap();
    assert!(no_credentials_stored(&c));
    assert_eq!(
        status_text(&out, true),
        "Not logged in to any GitBucket instance.\nRun `gb auth login` to authenticate.\n"
    );
    assert!(!no_credentials_stored(&sample()));
}

#[test]
fn config_list_text_marks_missing_defaults() {
    let mut c = sample();
    c.default_profile = Some("ghost".into());
    let hosts = summarize_hosts(&c.hosts);
    let profiles = summarize_profiles(&c.profiles);
    let text = config_list_text(&c, "/home/u/.config/gb/config.toml", &hosts, &profiles);
    let expected = [
        "Path: /home/u/.config/gb/config.toml\n",
        "Default host: zeta.example.com\n",
        "Default profile: ghost (missing saved profile entry)\n",
        "Hosts:\n",
        "alpha.example.com\n",
        "  User: <unset>\n",
        "  Protocol: https\n",
        "  Token: missing\n",
        "zeta.example.com\n",
        "  User: alice\n",
        "  Protocol: https\n",
        "  Token: configured\n",
        "Profiles:\n",
        "empty\n",
        "  Default host: <unset>\n",
        "  Default repo: <unset>\n",
        "  Hosts: <none>\n",
        "work\n",
        "  Default host: work.example.com\n",
        "  Default repo: <unset>\n",
        "  Hosts:\n",
        "  work.example.com\n",
        "    User: bob\n",
        "    Protocol: https\n",
        "    Token: configured\n",
    ]
    .concat();
    assert_eq!(text, expected);
    let empty = AuthConfig::new();
    assert_eq!(
        config_list_text(&empty, "p", &Vec::new(), &Vec::new()),
        "Path: p\nDefault host: <unset>\nDefault profile: <unset>\nHosts: <none>\nProfiles: <none>\n"
    );
}

#[test]
fn config_get_texts() {
    let c = sample();
    let hosts = summarize_hosts(&c.hosts);
    let (name, summary) = &hosts[1];
    assert_eq!(host_text(name, summary, Some(HostField::User)), "alice\n");
    assert_eq!(host_text(name, summary, Some(HostField::Protocol)), "https\n");
    assert_eq!(host_text(name, summary, Some(HostField::HasToken)), "true\n");
    assert_eq!(
        host_text(name, summary, None),
        "Host: zeta.example.com\nUser: alice\nProtocol: https\nToken: configured\n"
    );
    let p = profile_output("work", c.profile("work").unwrap());
    assert_eq!(
        profile_text(&p),
        "Profile: work\nDefault host: work.example.com\nDefault repo: <unset>\nHosts:\n\
work.example.com\n  User: bob\n  Protocol: https\n  Token: configured\n"
    );
}
