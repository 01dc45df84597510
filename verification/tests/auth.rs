use gb::auth::map_login_error;
use gb::error::GbError;

#[test]
fn maps_404_to_base_path_hint() {
    let err = map_login_error(
        "localhost",
        GbError::Api {
            status: 404,
            message: String::new(),
        },
    );

    match err {
        GbError::Auth(message) => {
            assert!(message.contains("HTTP 404"));
            assert!(message.contains("/gitbucket"));
        }
        other => panic!("expected auth error, got {:?}", other),
    }
}

#[test]
fn maps_401_to_token_hint() {
    let err = map_login_error(
        "https://gitbucket.example.com/gitbucket",
        GbError::Api {
            status: 401,
            message: String::new(),
        },
    );

    match err {
        GbError::Auth(message) => {
            assert!(message.contains("HTTP 401"));
            assert!(message.contains("token was rejected"));
        }
        other => panic!("expected auth error, got {:?}", other),
    }
}

#[test]
fn preserves_unhandled_errors() {
    let err = map_login_error("localhost", GbError::Other("boom".into()));

    match err {
        GbError::Other(message) => assert_eq!(message, "boom"),
        other => panic!("expected original error, got {:?}", other),
    }
}

#[test]
fn maps_transport_errors_to_connection_hint() {
    let err = map_login_error("gitbucket.local", GbError::Http("timed out".into()));
    match err {
        GbError::Auth(message) => assert_eq!(
            message,
            "Failed to connect to gitbucket.local: timed out. Check the protocol, certificate, and GitBucket base URL/path."
        ),
        other => panic!("expected auth error, got {:?}", other),
    }
}

#[test]
fn keeps_other_api_statuses() {
    let err = map_login_error(
        "localhost",
        GbError::Api {
            status: 500,
            message: "oops".into(),
        },
    );
    match err {
        GbError::Api { status, message } => {
            assert_eq!(status, 500);
            assert_eq!(message, "oops");
        }
        other => panic!("expected api error, got {:?}", other),
    }
}
