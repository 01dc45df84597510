use gb::common::{resolve_hostname, web_username};
use gb::error::GbError;
use gb::models::{PullRequest, PullRequestRef, Repository};
use gb::pr_git::{matching_remote_name, pr_head_fetch_source};
use gb::pull_request::{
    format_pr_ref, is_unsupported_status, issue_pr_candidates, pr_url,
    pull_request_has_comparable_refs, pull_request_matches_head_base,
};
use gb::repo::{fork_fallback, repository_is_requested_fork, resolve_fork_target, ForkFallback};

fn repo(full_name: &str, clone: Option<&str>) -> Repository {
    Repository {
        full_name: full_name.into(),
        clone_url: clone.map(|c| c.to_string()),
        html_url: None,
        fork: true,
        parent_full_name: Some("up/demo".into()),
        source_full_name: None,
        description: None,
        is_private: false,
        default_branch: None,
        watchers_count: None,
        forks_count: None,
        open_issues_count: None,
    }
}

fn pr_with(head_owner: &str, head: &str, base: &str) -> PullRequest {
    PullRequest {
        number: 4,
        title: "T".into(),
        state: "open".into(),
        merged: None,
        body: None,
        user_login: None,
        created_at: None,
        html_url: Some("https://gb/up/demo/pulls/4".into()),
        diff_url: None,
        patch_url: None,
        head: Some(PullRequestRef {
            ref_name: head.into(),
            label: Some(format!("{}:{}", head_owner, head)),
            repo: Some(repo(&format!("{}/demo", head_owner), Some("https://gb/git/x/demo.git"))),
        }),
        base: Some(PullRequestRef { ref_name: base.into(), label: None, repo: None }),
    }
}

#[test]
fn fork_target_and_fallback() {
    assert_eq!(resolve_fork_target(Some("team".into()), None, Ok("me".into())).unwrap(), "team");
    assert_eq!(resolve_fork_target(None, Some("env".into()), Ok("me".into())).unwrap(), "env");
    assert_eq!(resolve_fork_target(None, Some(String::new()), Ok("me".into())).unwrap(), "me");
    assert!(matches!(
        resolve_fork_target(None, None, Ok(String::new())),
        Err(GbError::Auth(_))
    ));
    assert!(matches!(fork_fallback(404), ForkFallback::ExistingThenWeb));
    assert!(matches!(fork_fallback(409), ForkFallback::ExistingThenFail));
    assert!(matches!(fork_fallback(503), ForkFallback::ExistingThenFail));
    assert!(matches!(fork_fallback(403), ForkFallback::Fail));
    assert!(repository_is_requested_fork(&repo("me/demo", None), "me", "demo", "up", "demo"));
    assert!(!repository_is_requested_fork(&repo("me/demo", None), "me", "demo", "other", "demo"));
}

#[test]
fn host_and_user_resolution() {
    assert_eq!(resolve_hostname(Some("h".into()), false).unwrap(), "h");
    assert_eq!(
        resolve_hostname(None, true).unwrap_err().message(),
        "Authentication error: No GitBucket host or URL configured for the selected profile. Pass --hostname or set the profile default host."
    );
    assert_eq!(
        resolve_hostname(None, false).unwrap_err().message(),
        "Authentication error: No GitBucket host or URL configured. Run `gb auth login` first."
    );
    assert_eq!(web_username(Some("env".into()), "stored").unwrap(), "env");
    assert_eq!(web_username(None, "stored").unwrap(), "stored");
    assert!(web_username(None, "").is_err());
}

#[test]
fn existing_pull_request_matching() {
    let pr = pr_with("alice", "feature", "main");
    assert!(pull_request_matches_head_base(&pr, "up", "demo", "alice:feature", "main"));
    assert!(!pull_request_matches_head_base(&pr, "up", "demo", "alice:feature", "dev"));
    assert!(pull_request_has_comparable_refs(&pr));
    assert!(is_unsupported_status(404) && is_unsupported_status(501) && !is_unsupported_status(500));
    assert_eq!(issue_pr_candidates(&vec![1, 2], &vec![(2, true), (3, true), (4, false), (3, true)]), vec![3]);
    assert_eq!(format_pr_ref(pr.head.as_ref().unwrap()), "alice/demo:feature");
    assert_eq!(pr_url("https://gb/api/v3", "up", "demo", &pr), "https://gb/up/demo/pull/4");
}

#[test]
fn remotes_are_matched_by_url() {
    let r = repo("x/demo", Some("https://gb/git/x/demo.git"));
    let remotes = vec![
        ("origin".to_string(), Some("https://gb/git/me/demo.git".to_string())),
        ("fork".to_string(), Some("https://gb/git/x/demo.git".to_string())),
    ];
    assert_eq!(matching_remote_name(&r, &remotes), Some("fork".into()));
    let pr = pr_with("x", "feature", "main");
    assert_eq!(pr_head_fetch_source(&pr, &remotes), "fork");
    assert_eq!(pr_head_fetch_source(&pr, &Vec::new()), "https://gb/git/x/demo.git");
}
