use gb::due_date::{
    due_on_to_form_date, format_due_on, normalize_due_on_for_create, normalize_due_on_for_edit,
    DueOnInput,
};

#[test]
fn due_date_create_due_on_accepts_plain_date() {
    let due_on = normalize_due_on_for_create(Some("2026-04-01".into())).unwrap();
    let due_on = due_on.unwrap();
    assert_eq!(due_on.api_value, "2026-04-01T00:00:00Z");
    assert_eq!(due_on.form_value, "2026-04-01");
}

#[test]
fn due_date_create_due_on_accepts_rfc3339() {
    let due_on = normalize_due_on_for_create(Some("2026-04-01T09:30:00Z".into())).unwrap();
    let due_on = due_on.unwrap();
    assert_eq!(due_on.api_value, "2026-04-01T00:00:00Z");
    assert_eq!(due_on.form_value, "2026-04-01");
}

#[test]
fn due_date_edit_due_on_empty_string_clears_value() {
    assert!(matches!(
        normalize_due_on_for_edit(Some(String::new())).unwrap(),
        DueOnInput::Clear
    ));
}

#[test]
fn due_date_due_on_rejects_invalid_values() {
    assert!(normalize_due_on_for_create(Some("not-a-date".into())).is_err());
}

#[test]
fn due_date_format_due_on_hides_unset_sentinel() {
    assert_eq!(format_due_on(Some("0001-01-01T00:00:00Z")), "");
    assert_eq!(
        format_due_on(Some("2026-04-01T00:00:00Z")),
        "2026-04-01T00:00:00Z"
    );
}

#[test]
fn due_date_due_on_to_form_date_hides_unset_sentinel() {
    assert_eq!(due_on_to_form_date("0001-01-01T00:00:00Z").unwrap(), "");
    assert_eq!(
        due_on_to_form_date("2026-04-01T00:00:00Z").unwrap(),
        "2026-04-01"
    );
}

#[test]
fn due_dates_trim_and_validate() {
    let due = normalize_due_on_for_create(Some(" 2024-02-29 ".into())).unwrap().unwrap();
    assert_eq!(due.form_value, "2024-02-29");
    assert!(normalize_due_on_for_create(Some("2023-02-29".into())).is_err());
    assert!(normalize_due_on_for_create(None).unwrap().is_none());
    assert!(normalize_due_on_for_create(Some("  ".into())).unwrap().is_none());
    assert!(matches!(normalize_due_on_for_edit(None).unwrap(), DueOnInput::Unchanged));
    assert!(matches!(
        normalize_due_on_for_edit(Some("2026-01-02".into())).unwrap(),
        DueOnInput::SetTo(_)
    ));
    assert_eq!(
        normalize_due_on_for_create(Some("tomorrow".into())).err().unwrap().message(),
        "Invalid due date 'tomorrow'. Expected YYYY-MM-DD or RFC3339."
    );
}

#[test]
fn rfc3339_due_date_keeps_the_stated_calendar_day() {
    let due = normalize_due_on_for_create(Some("2026-04-01T23:30:00-05:00".into()))
        .unwrap()
        .unwrap();
    assert_eq!(due.form_value, "2026-04-01");
    assert_eq!(format_due_on(None), "");
}
