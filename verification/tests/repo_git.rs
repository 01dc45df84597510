use gb::repo::{accessible_clone_url, public_repo_prefix};

#[test]
fn git_public_repo_prefix_extracts_optional_base_path() {
    assert_eq!(public_repo_prefix("/alice/demo.git"), "");
    assert_eq!(
        public_repo_prefix("/gitbucket/alice/demo.git"),
        "/gitbucket"
    );
}

#[test]
fn git_accessible_clone_url_rewrites_internal_host_to_public_base() {
    let rewritten = accessible_clone_url(
        Some("http://gitbucket:8080/git/alice/demo.git"),
        "http://127.0.0.1:18080/gitbucket/alice/demo.git",
    );

    assert_eq!(
        rewritten,
        "http://127.0.0.1:18080/gitbucket/git/alice/demo.git"
    );
}

#[test]
fn git_accessible_clone_url_keeps_matching_public_clone_url() {
    let clone_url = "http://127.0.0.1:18080/gitbucket/git/alice/demo.git";
    let fallback_url = "http://127.0.0.1:18080/gitbucket/alice/demo.git";

    assert_eq!(
        accessible_clone_url(Some(clone_url), fallback_url),
        clone_url
    );
}

#[test]
fn git_accessible_clone_url_preserves_external_clone_origin() {
    let clone_url = "https://clone.gitbucket.example.com/git/alice/demo.git";
    let fallback_url = "https://gitbucket.example.com/gitbucket/alice/demo.git";

    assert_eq!(
        accessible_clone_url(Some(clone_url), fallback_url),
        clone_url
    );
}

#[test]
fn git_accessible_clone_url_falls_back_when_api_clone_url_is_missing() {
    let fallback_url = "http://127.0.0.1:18080/gitbucket/alice/demo.git";

    assert_eq!(accessible_clone_url(None, fallback_url), fallback_url);
}

#[test]
fn checked_clone_url_matches_the_unchecked_one() {
    assert_eq!(
        gb::repo::accessible_clone_url_checked(
            Some("http://gitbucket:8080/git/alice/demo.git"),
            "http://127.0.0.1:18080/gitbucket/alice/demo.git",
        ),
        Some("http://127.0.0.1:18080/gitbucket/git/alice/demo.git".to_string())
    );
    assert_eq!(
        gb::repo::accessible_clone_url_checked(Some("not a url"), "also not a url"),
        Some("not a url".to_string())
    );
}
