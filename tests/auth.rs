use vibe_api::auth::{is_refresh_forced, is_request_authorized};

#[test]
fn refresh_needs_secret_equal_to_true() {
    assert!(is_refresh_forced(Some("true"), Some("true")));
    assert!(!is_refresh_forced(Some("abc"), Some("abc")));
    assert!(!is_refresh_forced(Some("true"), Some("abc")));
    assert!(!is_refresh_forced(Some("true"), None));
    assert!(!is_refresh_forced(None, Some("true")));
    assert!(!is_refresh_forced(Some(""), None));
}

#[test]
fn no_key_lets_everything_through() {
    assert!(is_request_authorized(None, None));
    assert!(is_request_authorized(Some("anything"), None));
}

#[test]
fn key_is_compared_trimmed_and_case_insensitively() {
    assert!(is_request_authorized(Some("  OpenSesame "), Some("opensesame")));
    assert!(!is_request_authorized(Some("open"), Some("opensesame")));
    assert!(!is_request_authorized(None, Some("opensesame")));
    assert!(is_request_authorized(None, Some("   ")));
}
