use gb::web_forms::{
    assignee_request, assignee_requests, create_milestone_request, delete_milestone_request,
    delete_repo_request, edit_content_request, edit_milestone_request, edit_title_request,
    fork_request, issue_milestone_request, issue_state_request, milestone_state_request,
    signin_fields, WebRequest,
};
use gb::web_session::{api_response, ensure_success, is_blank_body, sign_in_outcome};

fn fields(r: &WebRequest) -> Vec<(&str, &str)> {
    r.fields.iter().map(|(k, v)| (k.as_str(), v.as_str())).collect()
}

#[test]
fn web_form_requests() {
    let r = fork_request("alice", "demo", "bob");
    assert!(!r.get);
    assert_eq!(r.path, "/alice/demo/fork");
    assert_eq!(fields(&r), vec![("account", "bob")]);
    assert_eq!(r.action, "fork the repository");

    let r = delete_repo_request("alice", "demo");
    assert_eq!(r.path, "/alice/demo/settings/delete");
    assert!(r.fields.is_empty());

    let r = issue_state_request("alice", "demo", 12, "close");
    assert_eq!(r.path, "/alice/demo/issue_comments/state");
    assert_eq!(fields(&r), vec![("issueId", "12"), ("content", ""), ("action", "close")]);

    let r = edit_title_request("a", "b", 3, "T");
    assert_eq!(r.path, "/a/b/issues/edit_title/3");
    let r = edit_content_request("a", "b", 3, "T", "C");
    assert_eq!(r.path, "/a/b/issues/edit/3");
    assert_eq!(fields(&r), vec![("title", "T"), ("content", "C")]);

    let r = issue_milestone_request("a", "b", 3, None);
    assert_eq!(r.path, "/a/b/issues/3/milestone");
    assert_eq!(fields(&r), vec![("milestoneId", "")]);
    let r = issue_milestone_request("a", "b", 3, Some(9));
    assert_eq!(fields(&r), vec![("milestoneId", "9")]);

    let r = create_milestone_request("a", "b", "v1", None, Some("2026-01-01"));
    assert_eq!(r.path, "/a/b/issues/milestones/new");
    assert_eq!(fields(&r), vec![("title", "v1"), ("description", ""), ("dueDate", "2026-01-01")]);
    let r = edit_milestone_request("a", "b", 4, "v1", Some("d"), None);
    assert_eq!(r.path, "/a/b/issues/milestones/4/edit");

    let r = milestone_state_request("a", "b", 4, "close").unwrap();
    assert!(r.get);
    assert_eq!(r.path, "/a/b/issues/milestones/4/close");
    assert_eq!(
        milestone_state_request("a", "b", 4, "closed").err().unwrap().message(),
        "Invalid milestone state action 'closed'. Expected open or close."
    );
    let r = delete_milestone_request("a", "b", 4);
    assert!(r.get);
    assert_eq!(r.path, "/a/b/issues/milestones/4/delete");

    assert_eq!(
        signin_fields("u", "p").iter().map(|(k, v)| (k.as_str(), v.as_str())).collect::<Vec<_>>(),
        vec![("userName", "u"), ("password", "p"), ("hash", "")]
    );
}

#[test]
fn assignee_requests_remove_then_add() {
    let r = assignee_request("a", "b", 2, "add", "carol").unwrap();
    assert_eq!(r.path, "/a/b/issues/2/assignee/new");
    assert_eq!(
        assignee_request("a", "b", 2, "swap", "carol").err().unwrap().message(),
        "Invalid assignee action 'swap'. Expected add or remove."
    );
    let all = assignee_requests("a", "b", 2, &vec!["x".into()], &vec!["y".into(), "z".into()]);
    let paths: Vec<&str> = all.iter().map(|r| r.path.as_str()).collect();
    assert_eq!(
        paths,
        vec![
            "/a/b/issues/2/assignee/delete",
            "/a/b/issues/2/assignee/new",
            "/a/b/issues/2/assignee/new"
        ]
    );
    assert_eq!(all[2].fields[0].1, "z");
}

#[test]
fn responses_are_judged_by_status() {
    assert_eq!(api_response(200, "{}".into()).unwrap(), "{}");
    match api_response(404, "nope".into()) {
        Err(gb::error::GbError::Api { status, message }) => {
            assert_eq!(status, 404);
            assert_eq!(message, "nope");
        }
        other => panic!("unexpected {:?}", other),
    }
    assert!(is_blank_body(" \n"));
    assert!(!is_blank_body("null"));
    assert!(ensure_success(302, "/a/b", "", "edit").is_ok());
    assert_eq!(
        ensure_success(500, "/a/b", "  boom ", "edit the issue").unwrap_err().message(),
        "Failed to edit the issue: HTTP 500: boom"
    );
    assert_eq!(
        ensure_success(200, "/gb/signin", "", "edit the issue").unwrap_err().message(),
        "Authentication error: GitBucket web session failed while trying to edit the issue. Re-run the command and enter your password again."
    );
    assert!(sign_in_outcome(200, "/", "", "alice").is_ok());
    assert!(sign_in_outcome(401, "/", "", "alice").is_err());
}
