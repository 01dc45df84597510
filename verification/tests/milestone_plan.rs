use gb::due_date::DueOnInput;
use gb::milestone::{
    created_milestone_line, format_milestone_view, plan_milestone_create, plan_milestone_edit,
    plan_milestone_web_edit,
};
use gb::models::Milestone;

fn milestone(number: u64, title: &str, state: &str, due: Option<&str>) -> Milestone {
    Milestone {
        number,
        title: title.into(),
        state: state.into(),
        description: Some("Old description".into()),
        due_on: due.map(|d| d.to_string()),
        open_issues: Some(3),
        closed_issues: None,
        html_url: None,
    }
}

#[test]
fn milestone_edit_needs_a_change() {
    let err = plan_milestone_edit(None, None, None, None).err().unwrap();
    assert_eq!(
        err.message(),
        "No milestone changes requested. Pass at least one of --title, --description, --due-on, or --state."
    );
    assert!(plan_milestone_edit(Some("t".into()), None, Some("bad".into()), None).is_err());
    assert!(plan_milestone_edit(Some("t".into()), None, None, Some("all".into())).is_err());
}

#[test]
fn milestone_edit_builds_the_request() {
    let edit = plan_milestone_edit(None, None, Some(" ".into()), Some("CLOSED".into())).unwrap();
    assert_eq!(edit.update.due_on, Some(String::new()));
    assert_eq!(edit.update.state, Some("closed".into()));
    assert!(matches!(edit.due_on, DueOnInput::Clear));
    let edit = plan_milestone_edit(Some("v2".into()), None, Some("2026-05-06".into()), None).unwrap();
    assert_eq!(edit.update.due_on, Some("2026-05-06T00:00:00Z".into()));
    assert_eq!(edit.update.title, Some("v2".into()));
}

#[test]
fn milestone_web_fallback_keeps_unedited_fields() {
    let current = milestone(4, "v1", "OPEN", Some("2026-01-02T00:00:00Z"));
    let edit = plan_milestone_edit(Some("v1.1".into()), None, None, Some("open".into())).unwrap();
    let plan = plan_milestone_web_edit(&current, &edit).unwrap();
    let form = plan.form.unwrap();
    assert_eq!(form.title, "v1.1");
    assert_eq!(form.description, Some("Old description".into()));
    assert_eq!(form.due_date, Some("2026-01-02".into()));
    assert_eq!(plan.state_action, None);

    let edit = plan_milestone_edit(None, None, None, Some("closed".into())).unwrap();
    let plan = plan_milestone_web_edit(&current, &edit).unwrap();
    assert!(plan.form.is_none());
    assert_eq!(plan.state_action, Some("close".into()));

    let closed = milestone(4, "v1", "closed", Some("0001-01-01T00:00:00Z"));
    let edit = plan_milestone_edit(None, Some("new".into()), None, Some("open".into())).unwrap();
    let plan = plan_milestone_web_edit(&closed, &edit).unwrap();
    assert_eq!(plan.form.unwrap().due_date, Some(String::new()));
    assert_eq!(plan.state_action, Some("open".into()));
}

#[test]
fn milestone_create_request_carries_both_date_forms() {
    let c = plan_milestone_create("v3".into(), None, Some("2026-07-08T10:00:00Z".into())).unwrap();
    assert_eq!(c.due_on, Some("2026-07-08T00:00:00Z".into()));
    assert_eq!(c.form_due_on, Some("2026-07-08".into()));
    let c = plan_milestone_create("v3".into(), Some("d".into()), None).unwrap();
    assert_eq!((c.due_on, c.form_due_on), (None, None));
    assert!(plan_milestone_create("v3".into(), None, Some("x".into())).is_err());
}

#[test]
fn created_milestone_line_finds_the_last_match() {
    let listed = vec![
        milestone(1, "v1", "open", None),
        milestone(2, "v2", "open", None),
        milestone(5, "v2", "open", None),
    ];
    assert_eq!(created_milestone_line(Some(&listed), "v2"), "\u{2713} Created milestone #5: v2");
    assert_eq!(created_milestone_line(Some(&listed), "v9"), "\u{2713} Created milestone v9");
    assert_eq!(created_milestone_line(None, "v1"), "\u{2713} Created milestone v1");
}

#[test]
fn milestone_view_text() {
    let mut m = milestone(7, "Release", "open", Some("2026-03-04T00:00:00Z"));
    m.html_url = Some("https://gb/x/y/milestone/7".into());
    assert_eq!(
        format_milestone_view(&m, "Release", "#7", "open"),
        "Release #7\nopen\n\nDue: 2026-03-04T00:00:00Z\nOpen issues: 3  Closed issues: 0\n\nOld description\n\nURL: https://gb/x/y/milestone/7\n"
    );
    let m = Milestone {
        number: 1,
        title: "t".into(),
        state: "closed".into(),
        description: Some(String::new()),
        due_on: Some("0001-01-01T00:00:00Z".into()),
        open_issues: None,
        closed_issues: Some(2),
        html_url: None,
    };
    assert_eq!(
        format_milestone_view(&m, "T", "N", "S"),
        "T N\nS\n\nOpen issues: 0  Closed issues: 2\n"
    );
}
