use gb::common::{
    merge_named_values, normalize_edit_state, normalize_list_state, normalize_str_vec,
    parse_git_url, parse_owner_repo,
};

#[test]
fn normalize_list_state_accepts_supported_values() {
    assert_eq!(normalize_list_state("OPEN").unwrap(), "open");
    assert_eq!(normalize_list_state("closed").unwrap(), "closed");
    assert_eq!(normalize_list_state("all").unwrap(), "all");
    assert!(normalize_list_state("draft").is_err());
}

#[test]
fn edit_values_normalize_edit_state_accepts_open_and_closed() {
    assert_eq!(
        normalize_edit_state("issue", Some("open".into())).unwrap(),
        Some("open".into())
    );
    assert_eq!(
        normalize_edit_state("issue", Some("Closed".into())).unwrap(),
        Some("closed".into())
    );
}

#[test]
fn edit_values_normalize_edit_state_rejects_other_values() {
    assert!(normalize_edit_state("issue", Some("all".into())).is_err());
}

#[test]
fn edit_values_merge_named_values_applies_removals_then_additions() {
    let merged = merge_named_values(
        vec!["bug".into(), "urgent".into()],
        vec!["enhancement".into(), "urgent".into()],
        vec!["bug".into()],
    );

    assert_eq!(merged, vec!["urgent", "enhancement"]);
}

#[test]
fn edit_values_normalize_str_vec_trims_whitespace_and_drops_empty() {
    assert_eq!(
        normalize_str_vec(vec!["bug".into(), " urgent".into(), "".into()]),
        vec!["bug", "urgent"]
    );
    assert_eq!(
        normalize_str_vec(vec!["  alice  ".into(), "  ".into(), "bob".into()]),
        vec!["alice", "bob"]
    );
    assert_eq!(
        normalize_str_vec(vec!["".into(), "  ".into()]),
        Vec::<String>::new()
    );
}

#[test]
fn parse_owner_repo_accepts_owner_repo() {
    let (owner, repo) = parse_owner_repo("alice/my-repo").unwrap();
    assert_eq!(owner, "alice");
    assert_eq!(repo, "my-repo");
}

#[test]
fn parse_owner_repo_rejects_invalid_values() {
    assert!(parse_owner_repo("noslash").is_err());
    assert!(parse_owner_repo("/repo").is_err());
    assert!(parse_owner_repo("owner/").is_err());
}

#[test]
fn parse_git_url_https() {
    let (owner, repo) = parse_git_url("https://gitbucket.example.com/alice/my-repo.git").unwrap();
    assert_eq!(owner, "alice");
    assert_eq!(repo, "my-repo");
}

#[test]
fn parse_git_url_ssh() {
    let (owner, repo) = parse_git_url("git@gitbucket.example.com:alice/my-repo.git").unwrap();
    assert_eq!(owner, "alice");
    assert_eq!(repo, "my-repo");
}

#[test]
fn parse_git_url_with_git_prefix() {
    let (owner, repo) =
        parse_git_url("https://gitbucket.example.com/git/alice/my-repo.git").unwrap();
    assert_eq!(owner, "alice");
    assert_eq!(repo, "my-repo");
}

#[test]
fn parse_git_url_with_subpath() {
    let (owner, repo) =
        parse_git_url("https://gitbucket.example.com/gitbucket/alice/my-repo.git").unwrap();
    assert_eq!(owner, "alice");
    assert_eq!(repo, "my-repo");
}

#[test]
fn parse_git_url_with_subpath_and_git_prefix() {
    let (owner, repo) =
        parse_git_url("https://gitbucket.example.com/gitbucket/git/alice/my-repo.git").unwrap();
    assert_eq!(owner, "alice");
    assert_eq!(repo, "my-repo");
}

#[test]
fn normalized_values_are_stable() {
    let once = normalize_str_vec(vec![" a ".into(), "\t".into(), "b c".into()]);
    let twice = normalize_str_vec(once.clone());
    assert_eq!(once, vec!["a", "b c"]);
    assert_eq!(once, twice);
}

#[test]
fn normalized_states_are_stable() {
    let once = normalize_list_state("ALL").unwrap();
    assert_eq!(normalize_list_state(&once).unwrap(), once);
    let edit = normalize_edit_state("pull request", Some("Open".into())).unwrap();
    assert_eq!(normalize_edit_state("pull request", edit.clone()).unwrap(), edit);
    assert_eq!(
        normalize_edit_state("pull request", Some("draft".into())).unwrap_err().message(),
        "Invalid pull request state. Expected 'open' or 'closed'."
    );
    assert_eq!(normalize_edit_state("issue", None).unwrap(), None);
}
