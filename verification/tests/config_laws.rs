use gb::common::assignee_changes;
use gb::config::AuthConfig;

#[test]
fn command_line_host_wins_and_default_host_is_used_otherwise() {
    let mut c = AuthConfig::new();
    c.default_host = Some("stored.example.com".into());
    assert_eq!(
        c.resolve_hostname(Some("cli.example.com"), None).unwrap().as_deref(),
        Some("cli.example.com")
    );
    assert_eq!(c.resolve_hostname(None, None).unwrap().as_deref(), Some("stored.example.com"));
}

#[test]
fn profile_defaults_set_are_the_ones_used() {
    let mut c = AuthConfig::new();
    c.set_profile("work", Some("work.example.com".into()), Some("team/app".into())).unwrap();
    assert_eq!(c.active_profile_name(Some("work"), None).unwrap().as_deref(), Some("work"));
    assert_eq!(c.resolve_hostname(None, Some("work")).unwrap().as_deref(), Some("work.example.com"));
    assert_eq!(c.resolve_repo(None, Some("work")).unwrap().as_deref(), Some("team/app"));
    assert!(c.set_profile("work", None, Some("not-a-repo".into())).is_err());
    assert_eq!(c.resolve_repo(None, Some("work")).unwrap().as_deref(), Some("team/app"));
}

#[test]
fn assignee_moves_reach_the_next_list() {
    let current = vec!["alice".to_string(), "bob".to_string()];
    let next = vec!["bob".to_string(), "carol".to_string()];
    let (removals, additions) = assignee_changes(&current, &next);
    assert_eq!(removals, vec!["alice".to_string()]);
    assert_eq!(additions, vec!["carol".to_string()]);
    let mut after: Vec<String> = current.into_iter().filter(|a| !removals.contains(a)).collect();
    after.extend(additions);
    after.sort();
    assert_eq!(after, next);
}

#[test]
fn merging_again_changes_nothing() {
    let current = vec!["bug".to_string(), "ui".to_string()];
    let additions = vec!["docs".to_string(), "bug".to_string()];
    let removals = vec!["ui".to_string()];
    let once = gb::common::merge_named_values(current, additions.clone(), removals.clone());
    assert_eq!(once, vec!["bug".to_string(), "docs".to_string()]);
    let twice = gb::common::merge_named_values(once.clone(), additions, removals);
    assert_eq!(twice, once);
}

#[test]
fn normalized_api_base_is_kept() {
    for (host, protocol) in [
        ("gitbucket.example.com/gitbucket", "https"),
        ("https://gitbucket.example.com:8443/gitbucket/", "http"),
        ("http://localhost:8080", "https"),
    ] {
        let base = gb::api_url::normalize_base_url(host, protocol).unwrap();
        for again in ["http", "https"] {
            assert_eq!(gb::api_url::normalize_base_url(&base, again).unwrap(), base);
        }
    }
}

#[test]
fn long_label_names_make_label_paths() {
    let name = "a".repeat(1_500_000);
    let path = gb::label::label_path("alice", "project", &name);
    assert_eq!(path.len(), "/repos/alice/project/labels/".len() + name.len());
    assert!(path.starts_with("/repos/alice/project/labels/aaa"));
}
