use gb::auth::{
    logout, resolve_host_config, sanitize_profile_name, selected_profile_filter,
    selected_profile_for_read, selected_profile_for_write, token_for, validate_selected_profile,
    LogoutOutcome,
};
use gb::config::{resolve_saved_hostname, validate_protocol, AuthConfig, HostConfig};
use gb::error::GbError;

fn host(token: &str, user: &str) -> HostConfig {
    HostConfig {
        token: token.into(),
        user: user.into(),
        protocol: "https".into(),
    }
}

fn sample() -> AuthConfig {
    let mut c = AuthConfig::new();
    c.set_host_for_profile(None, "gb.example.com".into(), host("t1", "alice"));
    c.set_host_for_profile(Some("work"), "work.example.com".into(), host("t2", "bob"));
    c.update_profile("work", Some("work.example.com".into()), Some("team/app".into()));
    c.default_host = Some("gb.example.com".into());
    c
}

#[test]
fn saved_credentials_are_the_ones_used() {
    let mut c = AuthConfig::new();
    c.set_host_for_profile(None, "h".into(), host("secret", "alice"));
    let got = c.get_host_for_profile("h", None).unwrap();
    assert_eq!(got.token, "secret");
    assert_eq!(got.user, "alice");
    c.set_host_for_profile(None, "h".into(), host("new", "carol"));
    assert_eq!(c.get_host_for_profile("h", None).unwrap().token, "new");
    assert_eq!(c.hosts.len(), 1);
    assert!(c.is_well_formed());
}

#[test]
fn profile_credentials_shadow_global_ones() {
    let mut c = sample();
    c.set_host_for_profile(Some("work"), "gb.example.com".into(), host("t3", "dave"));
    assert_eq!(c.get_host_for_profile("gb.example.com", Some("work")).unwrap().user, "dave");
    assert_eq!(c.get_host_for_profile("gb.example.com", None).unwrap().user, "alice");
    assert!(matches!(
        c.get_host_for_profile("nowhere", Some("work")),
        Err(GbError::NotAuthenticated)
    ));
}

#[test]
fn saving_one_host_keeps_the_others() {
    let mut c = sample();
    c.set_host_for_profile(None, "other.example.com".into(), host("t9", "zed"));
    assert_eq!(c.get_host_for_profile("gb.example.com", None).unwrap().token, "t1");
    assert_eq!(
        c.get_host_for_profile("work.example.com", Some("work")).unwrap().token,
        "t2"
    );
}

#[test]
fn logging_out_forgets_credentials() {
    let mut c = sample();
    assert!(c.remove_host("gb.example.com"));
    assert!(!c.remove_host("gb.example.com"));
    assert!(matches!(
        c.get_host_for_profile("gb.example.com", None),
        Err(GbError::NotAuthenticated)
    ));
    assert!(c.stored_hostname("gb.example.com").is_none());
}

#[test]
fn profile_logout_falls_back_to_global_credentials() {
    let mut c = sample();
    c.set_host_for_profile(Some("work"), "gb.example.com".into(), host("t3", "dave"));
    assert!(c.remove_host_for_profile(Some("work"), "gb.example.com"));
    assert_eq!(c.get_host_for_profile("gb.example.com", Some("work")).unwrap().user, "alice");
    assert!(!c.remove_host_for_profile(Some("work"), "gb.example.com"));
}

#[test]
fn logout_reports_what_it_removed() {
    let mut c = sample();
    let out = logout(&mut c, None, Some("work")).unwrap();
    assert!(matches!(out, LogoutOutcome::RemovedFromProfile { .. }));
    assert!(out.needs_save());
    assert_eq!(out.message(), "\u{2713} Logged out from work.example.com for profile work");

    let out = logout(&mut c, Some("gb.example.com"), Some("work")).unwrap();
    assert_eq!(
        out.message(),
        "\u{2713} Logged out from gb.example.com (global credentials used by profile work)"
    );
    let out = logout(&mut c, Some("gb.example.com"), Some("work")).unwrap();
    assert!(!out.needs_save());
    assert_eq!(out.message(), "Not logged in to gb.example.com for profile work");

    let mut empty = AuthConfig::new();
    let err = logout(&mut empty, None, None).err().unwrap();
    assert_eq!(err.message(), "Authentication error: No hosts configured.");
    let out = logout(&mut empty, Some("x"), None).unwrap();
    assert_eq!(out.message(), "Not logged in to x");
}

#[test]
fn resolves_hostnames_and_profiles() {
    let c = sample();
    assert_eq!(c.resolve_hostname(Some("cli.host"), None).unwrap(), Some("cli.host".into()));
    assert_eq!(c.resolve_hostname(None, None).unwrap(), Some("gb.example.com".into()));
    assert_eq!(
        c.resolve_hostname(None, Some("work")).unwrap(),
        Some("work.example.com".into())
    );
    assert_eq!(
        c.resolve_hostname(None, Some("missing")).unwrap_err().message(),
        "Configuration error: No saved profile named missing. Run `gb config set profile missing` first."
    );
    assert_eq!(
        selected_profile_for_read(&c, None, Some("work")).unwrap(),
        Some("work".into())
    );
    assert_eq!(selected_profile_for_read(&c, None, None).unwrap(), None);
    assert!(validate_selected_profile(&c, Some("nope"), None).is_err());
    assert!(validate_selected_profile(&c, None, None).is_ok());
    assert_eq!(
        resolve_host_config(&c, "work.example.com", Some("work")).unwrap().token,
        "t2"
    );
    assert_eq!(token_for(&c, None, None).unwrap(), "t1");
}

#[test]
fn profile_names_are_sanitized() {
    assert_eq!(sanitize_profile_name("  work ".into()).unwrap(), "work");
    assert_eq!(
        sanitize_profile_name("   ".into()).unwrap_err().message(),
        "Configuration error: Profile name cannot be empty."
    );
    let once = sanitize_profile_name(" x y ".into()).unwrap();
    assert_eq!(sanitize_profile_name(once.clone()).unwrap(), once);
    let mut c = AuthConfig::new();
    c.default_profile = Some(" home ".into());
    assert_eq!(selected_profile_for_write(&c, None, None).unwrap(), Some("home".into()));
    assert_eq!(
        selected_profile_for_write(&c, Some("cli".into()), Some("env".into())).unwrap(),
        Some("cli".into())
    );
    assert_eq!(
        selected_profile_for_write(&c, None, Some("env".into())).unwrap(),
        Some("env".into())
    );
    assert_eq!(selected_profile_filter(Some("work"), false, false), None);
    assert_eq!(selected_profile_filter(Some("work"), false, true), Some("work"));
    assert_eq!(selected_profile_filter(Some("work"), true, false), Some("work"));
}

#[test]
fn config_set_commands_check_their_inputs() {
    let mut c = sample();
    assert_eq!(
        c.update_host("gb.example.com", None, None, false).unwrap_err().message(),
        "Configuration error: Nothing to update. Specify --user, --protocol, or --default."
    );
    assert_eq!(
        c.update_host("unknown", Some("u".into()), None, false).unwrap_err().message(),
        "Configuration error: No saved host entry matches unknown. Run `gb auth login -H unknown` first."
    );
    assert_eq!(
        c.update_host("gb.example.com", None, Some("ftp".into()), false).unwrap_err().message(),
        "Configuration error: Protocol must be `http` or `https`."
    );
    assert_eq!(c.get_host_for_profile("gb.example.com", None).unwrap().protocol, "https");
    assert_eq!(
        c.update_host("gb.example.com", Some("eve".into()), Some("http".into()), true).unwrap(),
        "gb.example.com"
    );
    let h = c.get_host_for_profile("gb.example.com", None).unwrap();
    assert_eq!((h.user.as_str(), h.protocol.as_str(), h.token.as_str()), ("eve", "http", "t1"));
    assert_eq!(c.default_host_value().unwrap(), "gb.example.com");

    assert!(c.set_default_profile("nope").is_err());
    c.set_default_profile("work").unwrap();
    assert_eq!(c.default_profile_value().unwrap(), "work");
    assert!(c.clear_default_profile());
    assert!(!c.clear_default_profile());
    assert_eq!(
        c.default_profile_value().unwrap_err().message(),
        "Configuration error: No default profile configured."
    );
    assert!(c.clear_default_host());
    assert_eq!(
        c.default_host_value().unwrap_err().message(),
        "Configuration error: No default host configured."
    );
    assert_eq!(c.set_default_host("work.example.com").unwrap_err().message(),
        "Configuration error: No saved host entry matches work.example.com. Run `gb auth login -H work.example.com` first.");
    assert_eq!(c.set_default_host("gb.example.com").unwrap(), "gb.example.com");

    assert!(c.set_profile("new", None, Some("bad".into())).is_err());
    assert!(c.profile("new").is_err());
    c.set_profile("new", Some("h".into()), Some("o/r".into())).unwrap();
    let p = c.profile("new").unwrap();
    assert_eq!(p.default_host, Some("h".into()));
    assert_eq!(p.default_repo, Some("o/r".into()));
    c.set_profile("new", None, None).unwrap();
    assert_eq!(c.profile("new").unwrap().default_host, Some("h".into()));
    assert!(validate_protocol("http").is_ok());
    assert_eq!(resolve_saved_hostname(&c, "gb.example.com").unwrap(), "gb.example.com");
    assert!(c.is_well_formed());
}

#[test]
fn duplicate_entries_are_detected() {
    let mut c = AuthConfig::new();
    c.hosts.push(("a".into(), host("1", "u")));
    c.hosts.push(("a".into(), host("2", "u")));
    assert!(!c.is_well_formed());
}
