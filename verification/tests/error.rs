//! How errors are answered.

use axum::http::StatusCode;
use xoa_proxy::error::ProxyError;

/// The status code that an error is answered with.
fn status(e: ProxyError) -> StatusCode {
    StatusCode::from_u16(e.into_response().status).unwrap()
}

fn body(e: ProxyError) -> String {
    e.into_response().body
}

#[test]
fn bad_request_is_400() {
    assert_eq!(status(ProxyError::BadRequest("oops".into())), StatusCode::BAD_REQUEST);
}

#[test]
fn not_found_is_404() {
    assert_eq!(status(ProxyError::NotFound("nope".into())), StatusCode::NOT_FOUND);
}

#[test]
fn import_in_progress_is_409() {
    assert_eq!(status(ProxyError::ImportInProgress), StatusCode::CONFLICT);
}

#[test]
fn upstream_failed_is_502() {
    assert_eq!(status(ProxyError::UpstreamFailed("net err".into())), StatusCode::BAD_GATEWAY);
}

#[test]
fn probe_failed_is_502() {
    assert_eq!(status(ProxyError::ProbeFailed("timeout".into())), StatusCode::BAD_GATEWAY);
}

/// The body of ImportInProgress must mention the word "import" so callers
/// know why they were rejected.
#[test]
fn import_in_progress_body_is_informative() {
    let body = body(ProxyError::ImportInProgress).to_lowercase();
    assert!(body.contains("import"), "expected 'import' in body: {body}");
}

/// The body of ProbeFailed must include the caller-supplied reason string.
#[test]
fn probe_failed_body_contains_reason() {
    let body = body(ProxyError::ProbeFailed("DNS timeout".into()));
    assert!(body.contains("DNS timeout"), "expected reason in body: {body}");
}

#[test]
fn bodies_are_exact() {
    assert_eq!(body(ProxyError::BadRequest("oops".into())), "oops");
    assert_eq!(body(ProxyError::NotFound("nope".into())), "nope");
    assert_eq!(
        body(ProxyError::ImportInProgress),
        "An import is already in progress. Only one concurrent import is allowed."
    );
    assert_eq!(body(ProxyError::UpstreamFailed("net err".into())), "net err");
    assert_eq!(
        body(ProxyError::ProbeFailed("DNS timeout".into())),
        "Format probe failed — could not determine image type: DNS timeout"
    );
}

#[test]
fn status_tells_kinds_apart_except_gateway_failures() {
    let s = || "x".to_string();
    let codes = [
        ProxyError::BadRequest(s()).into_response().status,
        ProxyError::NotFound(s()).into_response().status,
        ProxyError::ImportInProgress.into_response().status,
        ProxyError::UpstreamFailed(s()).into_response().status,
    ];
    for i in 0..codes.len() {
        for j in 0..i {
            assert_ne!(codes[i], codes[j]);
        }
    }
    assert_eq!(
        ProxyError::ProbeFailed(s()).into_response().status,
        ProxyError::UpstreamFailed(s()).into_response().status
    );
}
