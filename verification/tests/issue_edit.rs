use gb::common::{merge_named_values, normalize_edit_state, normalize_str_vec};

#[test]
fn issue_normalize_edit_state_accepts_open_and_closed() {
    assert_eq!(
        normalize_edit_state("issue", Some("open".into())).unwrap(),
        Some("open".into())
    );
    assert_eq!(
        normalize_edit_state("issue", Some("closed".into())).unwrap(),
        Some("closed".into())
    );
    assert_eq!(
        normalize_edit_state("issue", Some("OPEN".into())).unwrap(),
        Some("open".into())
    );
    assert_eq!(
        normalize_edit_state("issue", Some("Closed".into())).unwrap(),
        Some("closed".into())
    );
}

#[test]
fn issue_normalize_edit_state_rejects_other_values() {
    assert!(normalize_edit_state("issue", Some("all".into())).is_err());
}

#[test]
fn issue_merge_named_values_applies_removals_then_additions() {
    let merged = merge_named_values(
        vec!["bug".into(), "urgent".into()],
        vec!["enhancement".into(), "urgent".into()],
        vec!["bug".into()],
    );

    assert_eq!(merged, vec!["urgent", "enhancement"]);
}

#[test]
fn issue_normalize_str_vec_trims_whitespace_and_drops_empty() {
    assert_eq!(
        normalize_str_vec(vec!["bug".into(), " urgent".into(), "".into()]),
        vec!["bug", "urgent"]
    );
    assert_eq!(
        normalize_str_vec(vec!["  alice  ".into(), "  ".into(), "bob".into()]),
        vec!["alice", "bob"]
    );
    assert_eq!(
        normalize_str_vec(vec!["".into(), "  ".into()]),
        Vec::<String>::new()
    );
}
