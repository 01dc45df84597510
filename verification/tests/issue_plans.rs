use gb::error::GbError;
use gb::issue::{
    format_issue_view, latest_comment_by, no_comments_error, plan_issue_update, plan_web_edit,
    state_action, validate_issue_edit, web_edit_report, IssueEditRequest, IssueLikeCurrent,
};
use gb::models::{Comment, Issue, MilestoneRef};

fn issue() -> Issue {
    Issue {
        number: 3,
        title: "Crash".into(),
        state: "open".into(),
        body: Some("Steps".into()),
        user_login: Some("alice".into()),
        created_at: Some("2026-02-03".into()),
        labels: vec!["bug".into(), "urgent".into()],
        assignees: vec!["bob".into(), "carol".into()],
        milestone: Some(MilestoneRef { title: "v1".into(), number: 1 }),
        html_url: None,
    }
}

fn request() -> IssueEditRequest {
    IssueEditRequest {
        title: None,
        body: None,
        add_labels: Vec::new(),
        remove_labels: Vec::new(),
        add_assignees: Vec::new(),
        remove_assignees: Vec::new(),
        milestone: None,
        remove_milestone: false,
        state: None,
    }
}

#[test]
fn issue_edit_validation() {
    assert_eq!(
        validate_issue_edit(&request()).unwrap_err().message(),
        "No issue changes requested. Pass at least one edit option."
    );
    let mut r = request();
    r.milestone = Some(2);
    r.remove_milestone = true;
    assert_eq!(
        validate_issue_edit(&r).unwrap_err().message(),
        "Cannot use --milestone and --remove-milestone together."
    );
    r.remove_milestone = false;
    assert!(validate_issue_edit(&r).is_ok());
}

#[test]
fn issue_update_merges_lists() {
    let mut r = request();
    r.add_labels = vec!["p1".into()];
    r.remove_labels = vec!["bug".into()];
    r.remove_milestone = true;
    let u = plan_issue_update(r, Some("closed".into()), &issue());
    assert_eq!(u.labels, Some(vec!["urgent".to_string(), "p1".to_string()]));
    assert_eq!(u.assignees, None);
    assert_eq!(u.milestone, Some(None));
    assert_eq!(u.state, Some("closed".into()));
}

#[test]
fn web_edit_plan_for_an_issue() {
    let current = IssueLikeCurrent::issue(issue());
    let mut r = request();
    r.title = Some("Crash on start".into());
    r.add_assignees = vec!["dave".into()];
    r.remove_assignees = vec!["bob".into()];
    let update = plan_issue_update(r, Some("closed".into()), &issue());
    let plan = plan_web_edit(&current, &update, true, &None).unwrap();
    assert_eq!(plan.next_title, "Crash on start");
    assert!(plan.edit_title);
    assert_eq!(plan.edit_content, None);
    match plan.assignees {
        Some(Ok((remove, add))) => {
            assert_eq!(remove, vec!["bob".to_string()]);
            assert_eq!(add, vec!["dave".to_string()]);
        }
        _ => panic!("expected assignee changes"),
    }
    assert_eq!(plan.state_action, Some("close".into()));
    assert_eq!(state_action(&Some("open".into()), "closed"), Some("reopen".into()));
    assert_eq!(state_action(&Some("open".into()), "open"), None);
}

#[test]
fn web_edit_refusals() {
    let current = IssueLikeCurrent::pull_request("T".into(), None, "open".into(), None);
    let mut r = request();
    r.add_labels = vec!["x".into()];
    let update = plan_issue_update(r, None, &issue());
    assert_eq!(
        plan_web_edit(&current, &update, true, &None).err().unwrap().message(),
        "This GitBucket instance does not support editing labels through the web fallback."
    );
    assert_eq!(
        plan_web_edit(&current, &update, false, &Some("Use --web".into())).err().unwrap().message(),
        "Use --web"
    );
    let mut r = request();
    r.add_assignees = vec!["x".into()];
    let update = plan_issue_update(r, None, &issue());
    let plan = plan_web_edit(&current, &update, true, &None).unwrap();
    assert!(matches!(plan.assignees, Some(Err(GbError::Other(_)))));
}

#[test]
fn web_edit_reports() {
    let (warning, line) = web_edit_report("issue", 3, "T", &Ok((3, "Fresh".into())));
    assert_eq!(warning, None);
    assert_eq!(line, "\u{2713} Updated issue #3: Fresh");
    let (warning, line) = web_edit_report("pull request", 3, "T", &Err(GbError::Other("down".into())));
    assert_eq!(
        warning,
        Some("Warning: failed to fetch updated pull request #3 from API after web fallback: down".into())
    );
    assert_eq!(line, "\u{2713} Updated pull request #3: T");
}

#[test]
fn latest_own_comment() {
    let comments = vec![
        Comment { id: 5, user_login: Some("me".into()), created_at: None, body: None },
        Comment { id: 9, user_login: Some("you".into()), created_at: None, body: None },
        Comment { id: 7, user_login: Some("me".into()), created_at: None, body: None },
        Comment { id: 2, user_login: None, created_at: None, body: None },
    ];
    assert_eq!(latest_comment_by(&comments, "me"), Some(7));
    assert_eq!(latest_comment_by(&comments, "nobody"), None);
    assert_eq!(
        no_comments_error("me", "PR", 4).message(),
        "No comments by me found on PR #4"
    );
}

#[test]
fn issue_view_text() {
    assert_eq!(
        format_issue_view(&issue(), "Crash", "#3", "open"),
        "Crash #3\nopen\n\nAuthor: alice  Created: 2026-02-03\nLabels: bug, urgent\nAssignees: bob, carol\nMilestone: v1 (#1)\n\nSteps\n"
    );
}
