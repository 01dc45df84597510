use gb::api_url::{
    normalize_base_url, normalize_origin_path_or_url, normalize_path_or_url,
    normalize_relative_api_path, normalize_web_base_url, path_has_base_prefix, web_url,
};
use gb::label::label_path;
use gb::link::next_link;

#[test]
fn label_path_percent_encodes_spaces() {
    assert_eq!(
        label_path("alice", "project", "needs review"),
        "/repos/alice/project/labels/needs%20review"
    );
}

#[test]
fn normalizes_plain_hostname() {
    let base = normalize_base_url("gitbucket.example.com", "https").unwrap();
    assert_eq!(base, "https://gitbucket.example.com/api/v3");
}

#[test]
fn normalizes_hostname_with_path() {
    let base = normalize_base_url("gitbucket.example.com/gitbucket", "https").unwrap();
    assert_eq!(base, "https://gitbucket.example.com/gitbucket/api/v3");
}

#[test]
fn normalizes_full_base_url() {
    let base = normalize_base_url("https://gitbucket.example.com/gitbucket", "http").unwrap();
    assert_eq!(base, "https://gitbucket.example.com/gitbucket/api/v3");
}

#[test]
fn keeps_existing_api_base_url() {
    let base =
        normalize_base_url("https://gitbucket.example.com/gitbucket/api/v3", "https").unwrap();
    assert_eq!(base, "https://gitbucket.example.com/gitbucket/api/v3");
}

#[test]
fn builds_web_url_from_subpath_base() {
    let base = normalize_base_url("https://gitbucket.example.com/gitbucket", "https").unwrap();
    assert_eq!(
        web_url(&base, "/alice/my-repo"),
        "https://gitbucket.example.com/gitbucket/alice/my-repo"
    );
}

#[test]
fn preserves_port_and_trailing_slash_in_base_url() {
    let base =
        normalize_base_url("https://gitbucket.example.com:8443/gitbucket/", "http").unwrap();
    assert_eq!(base, "https://gitbucket.example.com:8443/gitbucket/api/v3");
}

#[test]
fn normalizes_web_base_url() {
    let base = normalize_web_base_url("gitbucket.example.com/gitbucket", "https").unwrap();
    assert_eq!(base, "https://gitbucket.example.com/gitbucket");
}

#[test]
fn normalizes_api_root_relative_pagination_path() {
    assert_eq!(
        normalize_relative_api_path(
            "/api/v3/repos/alice/project/issues/7/comments?page=2",
            "https://gitbucket.example.com/api/v3"
        ),
        "/repos/alice/project/issues/7/comments?page=2"
    );
}

#[test]
fn normalizes_subpath_api_root_relative_pagination_path() {
    assert_eq!(
        normalize_relative_api_path(
            "/gitbucket/api/v3/repos/alice/project/issues/7/comments?page=2",
            "https://gitbucket.example.com/gitbucket/api/v3"
        ),
        "/repos/alice/project/issues/7/comments?page=2"
    );
}

#[test]
fn normalizes_origin_root_relative_path_with_subpath_base() {
    let normalized = normalize_origin_path_or_url(
        "/gitbucket/alice/project/pull/9.diff",
        "https://gitbucket.example.com/gitbucket/api/v3",
    )
    .unwrap();

    assert_eq!(
        normalized,
        "https://gitbucket.example.com/gitbucket/alice/project/pull/9.diff"
    );
}

#[test]
fn preserves_origin_root_relative_path_without_subpath_base() {
    let normalized = normalize_origin_path_or_url(
        "/alice/project/pull/9.diff",
        "https://gitbucket.example.com/api/v3",
    )
    .unwrap();

    assert_eq!(
        normalized,
        "https://gitbucket.example.com/alice/project/pull/9.diff"
    );
}

#[test]
fn leaves_plain_root_relative_paths_unchanged() {
    assert_eq!(
        normalize_relative_api_path(
            "/repos/alice/project/issues/7/comments?page=2",
            "https://gitbucket.example.com/api/v3"
        ),
        "/repos/alice/project/issues/7/comments?page=2"
    );
}

#[test]
fn accepts_absolute_pagination_url_inside_api_base() {
    let normalized = normalize_path_or_url(
        "https://gitbucket.example.com/gitbucket/api/v3/repos/alice/project/issues/7/comments?page=2",
        "https://gitbucket.example.com/gitbucket/api/v3",
    )
    .unwrap();

    assert_eq!(
        normalized,
        "https://gitbucket.example.com/gitbucket/api/v3/repos/alice/project/issues/7/comments?page=2"
    );
}

#[test]
fn rejects_absolute_pagination_url_on_different_host() {
    let err = normalize_path_or_url(
        "https://attacker.example/repos/alice/project/issues/7/comments?page=2",
        "https://gitbucket.example.com/api/v3",
    )
    .unwrap_err()
    .message();

    assert!(err.contains("outside configured GitBucket API base"));
}

#[test]
fn rejects_absolute_pagination_url_outside_subpath_api_base() {
    let err = normalize_path_or_url(
        "https://gitbucket.example.com/api/v3/repos/alice/project/issues/7/comments?page=2",
        "https://gitbucket.example.com/gitbucket/api/v3",
    )
    .unwrap_err()
    .message();

    assert!(err.contains("outside configured GitBucket API base"));
}

#[test]
fn rejects_absolute_pagination_url_with_api_prefix_boundary_mismatch() {
    let err = normalize_path_or_url(
        "https://gitbucket.example.com/api/v30/repos/alice/project/issues/7/comments?page=2",
        "https://gitbucket.example.com/api/v3",
    )
    .unwrap_err()
    .message();

    assert!(err.contains("outside configured GitBucket API base"));
}

#[test]
fn next_link_extracts_next_relation() {
    let header = r#"</api/v3/repos/alice/project/issues/7/comments?page=2>; rel="next", </api/v3/repos/alice/project/issues/7/comments?page=4>; rel="last""#;
    assert_eq!(
        next_link(Some(header)),
        Some("/api/v3/repos/alice/project/issues/7/comments?page=2".into())
    );
}

#[test]
fn next_link_returns_none_without_next_relation() {
    let header = r#"</api/v3/repos/alice/project/issues/7/comments?page=1>; rel="prev""#;
    assert_eq!(next_link(Some(header)), None);
}

#[test]
fn next_link_without_header_is_none() {
    assert_eq!(next_link(None), None);
}

#[test]
fn path_prefix_is_reflexive_and_respects_trailing_slashes() {
    assert!(path_has_base_prefix("/gitbucket/api/v3", "/gitbucket/api/v3"));
    assert!(path_has_base_prefix("/gitbucket/api/v3//", "/gitbucket/api/v3//"));
    assert!(path_has_base_prefix("/anything", ""));
    assert!(path_has_base_prefix("/anything", "/"));
}

#[test]
fn normalizes_relative_paths_under_the_api_base() {
    assert_eq!(
        normalize_path_or_url("/user", "https://gitbucket.example.com/api/v3").unwrap(),
        "https://gitbucket.example.com/api/v3/user"
    );
}

#[test]
fn refuses_unparsable_host() {
    assert!(normalize_base_url("bad host name", "https").is_err());
}
