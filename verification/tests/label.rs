use gb::label::{format_color, normalize_label_color, plan_label_edit, LabelEditRequest};

#[test]
fn normalize_label_color_accepts_hash_prefix() {
    assert_eq!(normalize_label_color("#A1B2C3").unwrap(), "a1b2c3");
}

#[test]
fn normalize_label_color_rejects_invalid_values() {
    assert!(normalize_label_color("zzz").is_err());
    assert!(normalize_label_color("12345").is_err());
}

#[test]
fn normalized_label_color_is_stable() {
    let once = normalize_label_color("  ##FFaa00 ").unwrap();
    assert_eq!(once, "ffaa00");
    assert_eq!(normalize_label_color(&once).unwrap(), once);
    assert_eq!(
        normalize_label_color("12345").unwrap_err().message(),
        "Invalid label color '12345'. Expected a 6-digit hex value like ff0000."
    );
}

#[test]
fn format_color_keeps_one_hash() {
    assert_eq!(format_color("ff0000"), "#ff0000");
    assert_eq!(format_color("##ff0000"), "#ff0000");
}

#[test]
fn label_edit_needs_a_change() {
    let err = plan_label_edit(LabelEditRequest {
        new_name: None,
        color: None,
        description: None,
        remove_description: false,
    })
    .err()
    .unwrap();
    assert_eq!(
        err.message(),
        "No label changes requested. Pass at least one of --name, --color, --description, or --remove-description."
    );
}

#[test]
fn label_edit_normalizes_color_and_clears_description() {
    let update = plan_label_edit(LabelEditRequest {
        new_name: Some("bug".into()),
        color: Some("#ABCDEF".into()),
        description: Some("ignored".into()),
        remove_description: true,
    })
    .unwrap();
    assert_eq!(update.name, Some("bug".into()));
    assert_eq!(update.color, Some("abcdef".into()));
    assert_eq!(update.description, Some(String::new()));
    assert!(plan_label_edit(LabelEditRequest {
        new_name: None,
        color: Some("nothex".into()),
        description: None,
        remove_description: false,
    })
    .is_err());
}
