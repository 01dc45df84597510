use gb::issue::{plan_pr_update, pr_edit_changes_assignees, validate_pr_edit, PrEditRequest};
use gb::outcomes::pr_comment_number;
use gb::pull_request::find_listed_pr;

fn request(title: Option<&str>, add: &[&str], remove: &[&str]) -> PrEditRequest {
    PrEditRequest {
        title: title.map(str::to_string),
        body: None,
        add_assignees: add.iter().map(|s| s.to_string()).collect(),
        remove_assignees: remove.iter().map(|s| s.to_string()).collect(),
        state: None,
    }
}

#[test]
fn pr_edit_requires_a_change() {
    let err = validate_pr_edit(&request(None, &[], &[])).err().unwrap();
    assert_eq!(err.message(), "No pull request changes requested. Pass at least one edit option.");
    assert!(validate_pr_edit(&request(Some("t"), &[], &[])).is_ok());
    assert!(validate_pr_edit(&request(None, &["bob"], &[])).is_ok());
}

#[test]
fn pr_edit_reads_assignees_only_when_they_change() {
    assert!(!pr_edit_changes_assignees(&request(Some("t"), &[], &[])));
    assert!(pr_edit_changes_assignees(&request(None, &[], &["bob"])));
}

#[test]
fn pr_update_merges_assignees_and_leaves_labels() {
    let current = vec!["alice".to_string(), "bob".to_string()];
    let update = plan_pr_update(request(Some("New"), &["carol", "alice"], &["bob"]), Some("closed".into()), Some(&current));
    assert_eq!(update.title.as_deref(), Some("New"));
    assert_eq!(update.state.as_deref(), Some("closed"));
    assert_eq!(update.body, None);
    assert_eq!(update.labels, None);
    assert_eq!(update.milestone, None);
    assert_eq!(update.assignees, Some(vec!["alice".to_string(), "carol".to_string()]));
    let untouched = plan_pr_update(request(Some("New"), &[], &[]), None, None);
    assert_eq!(untouched.assignees, None);
}

#[test]
fn listed_pull_request_is_found_by_number() {
    assert_eq!(find_listed_pr(&vec![3, 7, 7], 7).unwrap(), 1);
    assert_eq!(find_listed_pr(&vec![3], 9).err().unwrap().message(), "Pull request #9 not found");
}

#[test]
fn pr_comment_needs_a_number() {
    assert_eq!(pr_comment_number(Some(4)).unwrap(), 4);
    assert_eq!(
        pr_comment_number(None).err().unwrap().message(),
        "PR number is required. Use `gb pr comment <NUMBER>` or `gb pr comment list <NUMBER>`."
    );
}
