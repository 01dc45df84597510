use gb::pull_request::qualified_head;

#[test]
fn write_qualified_head_uses_owner_prefix() {
    assert_eq!(
        qualified_head("feature".into(), Some("alice".into())).unwrap(),
        "alice:feature"
    );
}

#[test]
fn write_qualified_head_rejects_duplicate_owner_syntax() {
    assert!(qualified_head("alice:feature".into(), Some("bob".into())).is_err());
}

#[test]
fn create_qualified_head_uses_owner_prefix() {
    assert_eq!(
        qualified_head("feature".into(), Some("alice".into())).unwrap(),
        "alice:feature"
    );
}

#[test]
fn create_qualified_head_rejects_duplicate_owner_syntax() {
    assert!(qualified_head("alice:feature".into(), Some("bob".into())).is_err());
}

#[test]
fn qualified_head_checks_the_owner() {
    assert_eq!(qualified_head("feature".into(), None).unwrap(), "feature");
    assert_eq!(
        qualified_head("feature".into(), Some("  bob ".into())).unwrap(),
        "bob:feature"
    );
    assert_eq!(
        qualified_head("feature".into(), Some("   ".into())).unwrap_err().message(),
        "--head-owner cannot be empty."
    );
    assert_eq!(
        qualified_head("feature".into(), Some("a:b".into())).unwrap_err().message(),
        "--head-owner cannot contain ':'. Expected an unqualified owner name."
    );
}
