use gb::common::normalize_edit_state;
use gb::due_date::{
    due_on_to_form_date, format_due_on, normalize_due_on_for_create, normalize_due_on_for_edit,
    DueOnInput,
};

#[test]
fn milestone_create_due_on_accepts_plain_date() {
    let due_on = normalize_due_on_for_create(Some("2026-04-01".into())).unwrap();
    let due_on = due_on.unwrap();
    assert_eq!(due_on.api_value, "2026-04-01T00:00:00Z");
    assert_eq!(due_on.form_value, "2026-04-01");
}

#[test]
fn milestone_create_due_on_accepts_rfc3339() {
    let due_on = normalize_due_on_for_create(Some("2026-04-01T09:30:00Z".into())).unwrap();
    let due_on = due_on.unwrap();
    assert_eq!(due_on.api_value, "2026-04-01T00:00:00Z");
    assert_eq!(due_on.form_value, "2026-04-01");
}

#[test]
fn milestone_edit_due_on_empty_string_clears_value() {
    assert!(matches!(
        normalize_due_on_for_edit(Some(String::new())).unwrap(),
        DueOnInput::Clear
    ));
}

#[test]
fn milestone_due_on_rejects_invalid_values() {
    assert!(normalize_due_on_for_create(Some("not-a-date".into())).is_err());
}

#[test]
fn milestone_format_due_on_hides_unset_sentinel() {
    assert_eq!(format_due_on(Some("0001-01-01T00:00:00Z")), "");
    assert_eq!(
        format_due_on(Some("2026-04-01T00:00:00Z")),
        "2026-04-01T00:00:00Z"
    );
}

#[test]
fn milestone_due_on_to_form_date_hides_unset_sentinel() {
    assert_eq!(due_on_to_form_date("0001-01-01T00:00:00Z").unwrap(), "");
    assert_eq!(
        due_on_to_form_date("2026-04-01T00:00:00Z").unwrap(),
        "2026-04-01"
    );
}

#[test]
fn milestone_normalize_edit_state_rejects_all() {
    assert!(normalize_edit_state("milestone", Some("all".into())).is_err());
}

#[test]
fn write_normalize_edit_state_rejects_all() {
    assert!(normalize_edit_state("milestone", Some("all".into())).is_err());
}

#[test]
fn edit_normalize_edit_state_rejects_all() {
    assert!(normalize_edit_state("milestone", Some("all".into())).is_err());
}
