use gb::api_command::{normalize_endpoint, resolve_method, validate_absolute_endpoint};
use gb::api_url::path_has_base_prefix;
use reqwest::Method;

#[test]
fn resolves_default_get_without_input() {
    assert_eq!(resolve_method(None, false).unwrap(), Method::GET.as_str());
}

#[test]
fn resolves_default_post_when_input_is_present() {
    assert_eq!(resolve_method(None, true).unwrap(), Method::POST.as_str());
}

#[test]
fn resolves_explicit_method_by_name() {
    assert_eq!(resolve_method(Some("PATCH"), false).unwrap(), "PATCH");
    assert_eq!(resolve_method(Some("purge"), true).unwrap(), "purge");
}

#[test]
fn rejects_invalid_method_names() {
    let err = resolve_method(Some("GET /"), false).unwrap_err().message();
    assert_eq!(
        err,
        "Invalid HTTP method 'GET /'. Expected a valid method such as GET, POST, PATCH, PUT, or DELETE"
    );
    assert!(resolve_method(Some(""), false).is_err());
}

#[test]
fn normalizes_relative_endpoint() {
    assert_eq!(
        normalize_endpoint("user", "https://gitbucket.example.com/api/v3").unwrap(),
        "/user"
    );
}

#[test]
fn strips_api_prefix_from_endpoint() {
    assert_eq!(
        normalize_endpoint("/api/v3/user", "https://gitbucket.example.com/api/v3").unwrap(),
        "/user"
    );
    assert_eq!(
        normalize_endpoint("api/v3/user", "https://gitbucket.example.com/api/v3").unwrap(),
        "/user"
    );
}

#[test]
fn normalizes_empty_endpoint_to_root() {
    assert_eq!(
        normalize_endpoint("  /api/v3 ", "https://gitbucket.example.com/api/v3").unwrap(),
        "/"
    );
}

#[test]
fn preserves_absolute_url_within_same_api_base() {
    assert_eq!(
        normalize_endpoint(
            "https://gitbucket.example.com/gitbucket/api/v3/user",
            "https://gitbucket.example.com/gitbucket/api/v3"
        )
        .unwrap(),
        "https://gitbucket.example.com/gitbucket/api/v3/user"
    );
}

#[test]
fn rejects_absolute_url_on_another_host() {
    let error = validate_absolute_endpoint(
        "https://evil.example.com/api/v3/user",
        "https://gitbucket.example.com/api/v3",
    )
    .unwrap_err();
    assert!(error.message().contains("configured GitBucket API base"));
}

#[test]
fn rejects_absolute_url_outside_the_configured_subpath() {
    let error = validate_absolute_endpoint(
        "https://gitbucket.example.com/other/api/v3/user",
        "https://gitbucket.example.com/gitbucket/api/v3",
    )
    .unwrap_err();
    assert!(error.message().contains("configured GitBucket API base"));
}

#[test]
fn path_prefix_check_requires_path_boundary() {
    assert!(path_has_base_prefix(
        "/gitbucket/api/v3/user",
        "/gitbucket/api/v3"
    ));
    assert!(!path_has_base_prefix(
        "/gitbucket/api/v3evil/user",
        "/gitbucket/api/v3"
    ));
}
