use gb::common::{
    merge_named_values, normalize_edit_state, normalize_list_state, normalize_str_vec,
    parse_git_url, parse_owner_repo,
};

#[test]
fn test_parse_owner_repo() {
    let (owner, repo) = parse_owner_repo("alice/my-repo").unwrap();
    assert_eq!(owner, "alice");
    assert_eq!(repo, "my-repo");
}

#[test]
fn test_parse_owner_repo_invalid() {
    assert!(parse_owner_repo("noslash").is_err());
    assert!(parse_owner_repo("/repo").is_err());
    assert!(parse_owner_repo("owner/").is_err());
}

#[test]
fn test_normalize_list_state() {
    assert_eq!(normalize_list_state("OPEN").unwrap(), "open");
    assert_eq!(normalize_list_state("closed").unwrap(), "closed");
    assert_eq!(normalize_list_state("all").unwrap(), "all");
    assert!(normalize_list_state("draft").is_err());
}

#[test]
fn common_normalize_edit_state_accepts_open_and_closed() {
    assert_eq!(
        normalize_edit_state("issue", Some("open".into())).unwrap(),
        Some("open".into())
    );
    assert_eq!(
        normalize_edit_state("issue", Some("Closed".into())).unwrap(),
        Some("closed".into())
    );
}

#[test]
fn common_normalize_edit_state_rejects_other_values() {
    assert!(normalize_edit_state("issue", Some("all".into())).is_err());
}

#[test]
fn common_merge_named_values_applies_removals_then_additions() {
    let merged = merge_named_values(
        vec!["bug".into(), "urgent".into()],
        vec!["enhancement".into(), "urgent".into()],
        vec!["bug".into()],
    );

    assert_eq!(merged, vec!["urgent", "enhancement"]);
}

#[test]
fn common_normalize_str_vec_trims_whitespace_and_drops_empty() {
    assert_eq!(
        normalize_str_vec(vec!["bug".into(), " urgent".into(), "".into()]),
        vec!["bug", "urgent"]
    );
    assert_eq!(
        normalize_str_vec(vec!["  alice  ".into(), "  ".into(), "bob".into()]),
        vec!["alice", "bob"]
    );
    assert_eq!(
        normalize_str_vec(vec!["".into(), "  ".into()]),
        Vec::<String>::new()
    );
}

#[test]
fn test_parse_git_url_https() {
    let (owner, repo) = parse_git_url("https://gitbucket.example.com/alice/my-repo.git").unwrap();
    assert_eq!(owner, "alice");
    assert_eq!(repo, "my-repo");
}

#[test]
fn test_parse_git_url_ssh() {
    let (owner, repo) = parse_git_url("git@gitbucket.example.com:alice/my-repo.git").unwrap();
    assert_eq!(owner, "alice");
    assert_eq!(repo, "my-repo");
}

#[test]
fn test_parse_git_url_with_git_prefix() {
    let (owner, repo) =
        parse_git_url("https://gitbucket.example.com/git/alice/my-repo.git").unwrap();
    assert_eq!(owner, "alice");
    assert_eq!(repo, "my-repo");
}

#[test]
fn test_parse_git_url_with_subpath() {
    let (owner, repo) =
        parse_git_url("https://gitbucket.example.com/gitbucket/alice/my-repo.git").unwrap();
    assert_eq!(owner, "alice");
    assert_eq!(repo, "my-repo");
}

#[test]
fn test_parse_git_url_with_subpath_and_git_prefix() {
    let (owner, repo) =
        parse_git_url("https://gitbucket.example.com/gitbucket/git/alice/my-repo.git").unwrap();
    assert_eq!(owner, "alice");
    assert_eq!(repo, "my-repo");
}

#[test]
fn parse_git_url_rejects_other_forms() {
    assert!(parse_git_url("ftp://example.com/alice/repo.git").is_err());
    assert!(parse_git_url("https://gitbucket.example.com/alice").is_err());
}

#[test]
fn merge_lets_an_addition_win_over_its_removal() {
    let merged = merge_named_values(
        vec!["a".into(), "b".into()],
        vec!["b".into()],
        vec!["b".into()],
    );
    assert_eq!(merged, vec!["a", "b"]);
}

#[test]
fn owner_repo_round_trips_with_slash_in_repo() {
    let (owner, repo) = parse_owner_repo("alice/sub/repo").unwrap();
    assert_eq!(owner, "alice");
    assert_eq!(repo, "sub/repo");
    assert_eq!(
        parse_owner_repo("noslash").unwrap_err().message(),
        "Invalid repository format: 'noslash'. Expected OWNER/REPO"
    );
}
