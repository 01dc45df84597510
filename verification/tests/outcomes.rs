use gb::models::{PullRequest, PullRequestRef};
use gb::outcomes::{
    issue_comment_text, issue_state_change, issue_state_text, merge_outcome, optional_body,
    pr_comment_text, pr_result_text, resolve_head_branch,
};

#[test]
fn head_branch_defaults_to_current_branch() {
    assert_eq!(resolve_head_branch(Some("f".into()), Some("g".into())).unwrap(), "f");
    assert_eq!(resolve_head_branch(None, Some("g".into())).unwrap(), "g");
    assert_eq!(
        resolve_head_branch(None, None).unwrap_err().message(),
        "Could not determine current branch. Specify --head when running from a detached HEAD state."
    );
    assert_eq!(optional_body(String::new()), None);
    assert_eq!(optional_body("x".into()), Some("x".into()));
}

#[test]
fn merge_and_comment_reports() {
    assert_eq!(merge_outcome(3, Some(true), None).unwrap(), "\u{2713} Merged pull request #3");
    assert_eq!(
        merge_outcome(3, Some(false), None).unwrap_err().message(),
        "Failed to merge pull request #3: Unknown error"
    );
    assert_eq!(
        merge_outcome(3, None, Some("conflict".into())).unwrap_err().message(),
        "Failed to merge pull request #3: conflict"
    );
    assert_eq!(pr_comment_text(11, 3, true, &Some(String::new())), "\u{2713} Edited comment 11 on PR #3\n");
    assert_eq!(
        pr_comment_text(11, 3, false, &Some("https://gb/c/11".into())),
        "\u{2713} Added comment 11 on PR #3\nURL: https://gb/c/11\n"
    );
    assert_eq!(issue_comment_text(Some(4), 2), "\u{2713} Edited comment 4 on issue #2");
    assert_eq!(issue_comment_text(None, 2), "\u{2713} Added comment to issue #2");
}

#[test]
fn issue_state_changes() {
    let c = issue_state_change(true);
    assert_eq!((c.api_state.as_str(), c.web_action.as_str(), c.verb.as_str()), ("closed", "close", "Closed"));
    let r = issue_state_change(false);
    assert_eq!((r.api_state.as_str(), r.web_action.as_str(), r.verb.as_str()), ("open", "reopen", "Reopened"));
    assert_eq!(issue_state_text(&c.verb, 8), "\u{2713} Closed issue #8");
}

#[test]
fn pr_result_report() {
    let pr = PullRequest {
        number: 12,
        title: "T".into(),
        state: "open".into(),
        merged: None,
        body: None,
        user_login: None,
        created_at: None,
        html_url: None,
        diff_url: None,
        patch_url: None,
        head: Some(PullRequestRef { ref_name: "f".into(), label: None, repo: None }),
        base: None,
    };
    assert_eq!(
        pr_result_text("Created", &pr, "https://gb/a/b/pull/12"),
        "\u{2713} Created pull request #12: T\nHead: f\nURL: https://gb/a/b/pull/12\n"
    );
}
