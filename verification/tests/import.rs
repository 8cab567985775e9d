//! Whole imports, driven step by step against upstreams that answer as told.

use std::io::Write;

use axum::http::StatusCode;
use flate2::{write::GzEncoder, Compression};
use xoa_proxy::error::ProxyError;
use xoa_proxy::handler::{
    handle_image_xva, handle_not_found, reply_failed, HeadOutcome, HeadReply, HttpVersion,
    ImageParams, Import, Streaming,
};
use xoa_proxy::state::{build_client, AppState};
use xoa_proxy::stream::{relay_image, FetchOutcome, ImageFormat, Method, UpstreamRequest};

/// 512-byte tar EOF block (two 512-byte zero blocks): the smallest legal tar.
fn fake_xva_bytes() -> Vec<u8> {
    vec![0u8; 1024]
}

fn gzip(raw: &[u8]) -> Vec<u8> {
    let mut encoder = GzEncoder::new(Vec::new(), Compression::default());
    encoder.write_all(raw).unwrap();
    encoder.finish().unwrap()
}

fn fake_xva_gz_bytes() -> Vec<u8> {
    gzip(&fake_xva_bytes())
}

fn test_state() -> AppState {
    AppState::assemble(build_client(true), build_client(false)).unwrap()
}

/// How an upstream answers.
struct Upstream {
    head_status: u16,
    content_type: Option<&'static str>,
    content_encoding: Option<&'static str>,
    get: FetchOutcome,
    body: Vec<u8>,
}

/// An upstream that serves `body`.
fn serving(body: Vec<u8>) -> Upstream {
    Upstream {
        head_status: 200,
        content_type: None,
        content_encoding: None,
        get: FetchOutcome::Answered(200),
        body,
    }
}

fn failing(get: FetchOutcome) -> Upstream {
    Upstream { get, ..serving(Vec::new()) }
}

fn params(src: &str) -> ImageParams {
    ImageParams { src: Some(src.to_string()), verify_ssl: None }
}

/// Drives an import to its answer, and tells the requests that went upstream.
fn drive(state: &AppState, params: ImageParams, upstream: &Upstream) -> (Import, Vec<UpstreamRequest>) {
    let mut sent = Vec::new();
    let mut import = handle_image_xva(params);
    loop {
        import = match import {
            Import::Probing(probing) => {
                sent.push(probing.request());
                probing.resume(HeadOutcome::Answered(HeadReply {
                    status: upstream.head_status,
                    content_type: upstream.content_type.map(|v| v.as_bytes().to_vec()),
                    content_encoding: upstream.content_encoding.map(|v| v.as_bytes().to_vec()),
                }))
            }
            Import::Locking(locking) => locking.acquire(state),
            Import::Fetching(fetching) => {
                sent.push(fetching.request());
                fetching.resume(upstream.get)
            }
            done => return (done, sent),
        };
    }
}

fn send(state: &AppState, src: &str, upstream: &Upstream) -> Import {
    drive(state, params(src), upstream).0
}

fn streaming(import: Import) -> Streaming {
    match import {
        Import::Streaming(s) => s,
        Import::Refused(e) => panic!("refused: {e:?}"),
        _ => panic!("not answered"),
    }
}

fn refused(import: Import) -> ProxyError {
    match import {
        Import::Refused(e) => e,
        _ => panic!("not refused"),
    }
}

fn status(import: Import) -> StatusCode {
    let code = match import {
        Import::Refused(e) => e.into_response().status,
        Import::Streaming(s) => s.reply_head().status,
        _ => panic!("not answered"),
    };
    StatusCode::from_u16(code).unwrap()
}

/// The bytes that the caller receives.
fn body_bytes(import: Import, upstream: &Upstream) -> Vec<u8> {
    let stream = streaming(import).into_stream();
    relay_image(stream.format(), upstream.body.clone()).unwrap()
}

// ---- Parameter validation ----

#[test]
fn missing_src_returns_400() {
    let import = handle_image_xva(ImageParams { src: None, verify_ssl: None });
    let e = refused(import);
    assert!(matches!(&e, ProxyError::BadRequest(m) if m == "Missing required query parameter: src"));
    assert_eq!(e.into_response().status, StatusCode::BAD_REQUEST.as_u16());
}

#[test]
fn empty_src_returns_400() {
    // An empty src is caught by the scheme check.
    let resp = send(&test_state(), "", &serving(Vec::new()));
    assert_eq!(status(resp), StatusCode::BAD_REQUEST);
}

#[test]
fn ftp_scheme_returns_400() {
    let resp = send(&test_state(), "ftp://host/image.xva", &serving(Vec::new()));
    assert_eq!(status(resp), StatusCode::BAD_REQUEST);
}

#[test]
fn file_scheme_returns_400() {
    let resp = send(&test_state(), "file:///etc/passwd", &serving(Vec::new()));
    assert_eq!(status(resp), StatusCode::BAD_REQUEST);
}

#[test]
fn refused_url_is_quoted_up_to_forty_characters() {
    let quoted = |src: &str| match refused(handle_image_xva(params(src))) {
        ProxyError::BadRequest(msg) => msg,
        other => panic!("{other:?}"),
    };
    let prefix = "src must start with http:// or https://, got: ";
    assert_eq!(quoted("HTTP://host/a.xva"), format!("{prefix}HTTP://host/a.xva"));
    assert_eq!(quoted("http:/"), format!("{prefix}http:/"));
    let forty = "ü".repeat(40);
    assert_eq!(quoted(&forty), format!("{prefix}{forty}"));
    assert_eq!(quoted(&format!("{forty}x")), format!("{prefix}{forty}"));
}

// ---- Unknown paths ----

#[test]
fn unknown_path_returns_404() {
    let e = handle_not_found("/not-a-real-path");
    assert!(matches!(
        &e,
        ProxyError::NotFound(m) if m == "Unknown path '/not-a-real-path'. Expected /image.xva"
    ));
    assert_eq!(e.into_response().status, StatusCode::NOT_FOUND.as_u16());
}

#[test]
fn root_path_returns_404() {
    assert_eq!(handle_not_found("/").into_response().status, StatusCode::NOT_FOUND.as_u16());
}

// ---- Raw images ----

#[test]
fn raw_xva_streams_correctly() {
    let upstream = serving(fake_xva_bytes());
    let state = test_state();
    let resp = send(&state, "http://host/image.xva", &upstream);
    assert_eq!(body_bytes(resp, &upstream), fake_xva_bytes(), "raw bytes must be unchanged");
    assert_eq!(status(send(&state, "http://host/image.xva", &upstream)), StatusCode::OK);
}

#[test]
fn raw_xva_response_is_http10() {
    let resp = send(&test_state(), "http://host/image.xva", &serving(fake_xva_bytes()));
    assert_eq!(streaming(resp).reply_head().version, HttpVersion::Http10);
}

#[test]
fn raw_xva_content_type_is_octet_stream() {
    let resp = send(&test_state(), "http://host/image.xva", &serving(fake_xva_bytes()));
    let head = streaming(resp).reply_head();
    assert_eq!(head.content_type, "application/octet-stream");
    assert_eq!(head.connection, "close");
}

// ---- Compressed images ----

#[test]
fn gzip_xva_is_decompressed_before_forwarding() {
    let upstream = Upstream {
        content_type: Some("application/gzip"),
        ..serving(fake_xva_gz_bytes())
    };
    let resp = send(&test_state(), "http://host/image.xva.gz", &upstream);
    assert_eq!(body_bytes(resp, &upstream), fake_xva_bytes());
}

#[test]
fn gzip_response_is_http10() {
    let resp = send(&test_state(), "http://host/image.xva.gz", &serving(fake_xva_gz_bytes()));
    assert_eq!(streaming(resp).reply_head().version, HttpVersion::Http10);
}

#[test]
fn xva_gzip_extension_also_decompresses() {
    let upstream = serving(fake_xva_gz_bytes());
    let resp = send(&test_state(), "http://host/image.xva.gzip", &upstream);
    assert_eq!(body_bytes(resp, &upstream), fake_xva_bytes());
}

// ---- Probe ----

#[test]
fn head_probe_detects_gzip_via_content_type() {
    let upstream = Upstream {
        content_type: Some("application/gzip"),
        ..serving(fake_xva_gz_bytes())
    };
    let resp = send(&test_state(), "http://host/image", &upstream);
    assert_eq!(body_bytes(resp, &upstream), fake_xva_bytes());
}

#[test]
fn head_probe_detects_raw_via_content_type() {
    let upstream = Upstream {
        content_type: Some("application/octet-stream"),
        ..serving(fake_xva_bytes())
    };
    let resp = send(&test_state(), "http://host/image", &upstream);
    assert_eq!(body_bytes(resp, &upstream), fake_xva_bytes());
}

#[test]
fn head_probe_detects_gzip_via_content_encoding() {
    let upstream = Upstream {
        content_type: Some("application/octet-stream"),
        content_encoding: Some("gzip"),
        ..serving(fake_xva_gz_bytes())
    };
    let resp = send(&test_state(), "http://host/image", &upstream);
    assert_eq!(body_bytes(resp, &upstream), fake_xva_bytes());
}

#[test]
fn head_probe_failure_returns_502() {
    let upstream = Upstream { head_status: 503, ..serving(fake_xva_bytes()) };
    let e = refused(send(&test_state(), "http://host/image", &upstream));
    assert!(matches!(e, ProxyError::ProbeFailed(_)));
    assert_eq!(e.into_response().status, StatusCode::BAD_GATEWAY.as_u16());
}

#[test]
fn probe_is_sent_only_where_the_extension_is_ambiguous() {
    let state = test_state();
    let upstream = serving(fake_xva_bytes());
    let (_, sent) = drive(&state, params("https://host/a.xva"), &upstream);
    assert_eq!(sent.len(), 1);
    assert_eq!(sent[0].method, Method::Get);
    assert_eq!(sent[0].url, "https://host/a.xva");
    assert_eq!(sent[0].accept_encoding, "identity");
    let (_, sent) = drive(&state, params("https://host/a"), &upstream);
    assert_eq!(sent.len(), 2);
    assert_eq!(sent[0].method, Method::Head);
    assert_eq!(sent[1].method, Method::Get);
    assert!(sent.iter().all(|r| r.url == "https://host/a" && r.accept_encoding == "identity"));
}

// ---- Upstream errors ----

#[test]
fn upstream_404_returns_502() {
    let upstream = failing(FetchOutcome::Answered(404));
    let e = refused(send(&test_state(), "http://host/missing.xva", &upstream));
    assert!(matches!(
        &e,
        ProxyError::UpstreamFailed(m)
            if m == "Failed to fetch upstream image: Upstream returned non-2xx status"
    ));
    assert_eq!(e.into_response().status, StatusCode::BAD_GATEWAY.as_u16());
}

#[test]
fn upstream_500_returns_502() {
    let upstream = failing(FetchOutcome::Answered(500));
    let resp = send(&test_state(), "http://host/image.xva", &upstream);
    assert_eq!(status(resp), StatusCode::BAD_GATEWAY);
}

#[test]
fn unreachable_host_returns_502() {
    let upstream = failing(FetchOutcome::ConnectFailed);
    let e = refused(send(&test_state(), "http://127.0.0.1:1/image.xva", &upstream));
    assert!(matches!(
        &e,
        ProxyError::UpstreamFailed(m)
            if m == "Failed to fetch upstream image: Failed to connect to upstream"
    ));
    assert_eq!(e.into_response().status, StatusCode::BAD_GATEWAY.as_u16());
}

#[test]
fn answer_that_cannot_be_built_is_502() {
    let e = reply_failed("bad header");
    assert!(matches!(
        &e,
        ProxyError::UpstreamFailed(m) if m == "Internal response builder error: bad header"
    ));
    assert_eq!(e.into_response().status, 502);
}

// ---- Import lock ----

#[test]
fn second_concurrent_import_returns_409() {
    let state = test_state();
    let upstream = serving(fake_xva_bytes());
    let first = send(&state, "http://host/slow.xva", &upstream);
    let second = send(&state, "http://host/slow.xva", &upstream);
    assert_eq!(status(second), StatusCode::CONFLICT, "concurrent import must return 409");
    assert_eq!(status(first), StatusCode::OK);
}

#[test]
fn lock_released_after_first_import_completes() {
    let state = test_state();
    let upstream = serving(fake_xva_bytes());
    let first = send(&state, "http://host/image.xva", &upstream);
    body_bytes(first, &upstream);
    let second = send(&state, "http://host/image.xva", &upstream);
    assert_eq!(status(second), StatusCode::OK);
}

#[test]
fn lock_is_held_while_fetching() {
    let state = test_state();
    let first = match handle_image_xva(params("http://host/a.xva")) {
        Import::Locking(l) => l.acquire(&state),
        _ => panic!("format not detected"),
    };
    assert!(matches!(first, Import::Fetching(_)));
    let upstream = serving(fake_xva_bytes());
    let second = send(&state, "http://host/b.xva", &upstream);
    assert!(matches!(refused(second), ProxyError::ImportInProgress));
    drop(first);
    assert_eq!(status(send(&state, "http://host/b.xva", &upstream)), StatusCode::OK);
}

#[test]
fn failed_fetch_releases_the_lock() {
    let state = test_state();
    for get in [FetchOutcome::ConnectFailed, FetchOutcome::Answered(404)] {
        assert_eq!(
            status(send(&state, "http://host/a.xva", &failing(get))),
            StatusCode::BAD_GATEWAY
        );
    }
    assert_eq!(
        status(send(&state, "http://host/a.xva", &serving(fake_xva_bytes()))),
        StatusCode::OK
    );
}

#[test]
fn faults_are_answered_in_order() {
    let state = test_state();
    let running = send(&state, "http://host/a.xva", &serving(fake_xva_bytes()));
    let broken = Upstream { head_status: 500, ..failing(FetchOutcome::ConnectFailed) };
    assert!(matches!(
        refused(send(&state, "ftp://host/a", &broken)),
        ProxyError::BadRequest(_)
    ));
    assert!(matches!(
        refused(send(&state, "http://host/a", &broken)),
        ProxyError::ProbeFailed(_)
    ));
    assert!(matches!(
        refused(send(&state, "http://host/a.xva", &broken)),
        ProxyError::ImportInProgress
    ));
    drop(running);
    assert!(matches!(
        refused(send(&state, "http://host/a.xva", &broken)),
        ProxyError::UpstreamFailed(_)
    ));
}

// ---- Certificate checks ----

fn verify_ssl(verify_ssl: Option<bool>) -> bool {
    let state = test_state();
    let upstream = serving(fake_xva_bytes());
    let p = ImageParams { src: Some("https://host/image".to_string()), verify_ssl };
    let (import, sent) = drive(&state, p, &upstream);
    assert_eq!(status(import), StatusCode::OK);
    assert_eq!(sent[0].ssl_verify, sent[1].ssl_verify);
    assert_eq!(state.client_for(sent[0].ssl_verify).verifies_certificates(), sent[0].ssl_verify);
    sent[0].ssl_verify
}

#[test]
fn verify_ssl_defaults_to_true() {
    assert!(verify_ssl(None));
}

#[test]
fn verify_ssl_false_is_accepted() {
    assert!(!verify_ssl(Some(false)));
}

#[test]
fn verify_ssl_true_is_accepted_explicitly() {
    assert!(verify_ssl(Some(true)));
}

// ---- Larger payloads ----

#[test]
fn large_raw_payload_is_transferred_intact() {
    let payload = vec![0xABu8; 4 * 1024 * 1024];
    let upstream = serving(payload.clone());
    let received = body_bytes(send(&test_state(), "http://host/large.xva", &upstream), &upstream);
    assert_eq!(received.len(), payload.len(), "byte count must match");
    assert!(received == payload, "every byte must be identical");
}

#[test]
fn large_gzip_payload_decompresses_intact() {
    let raw = vec![0xCDu8; 4 * 1024 * 1024];
    let upstream = serving(gzip(&raw));
    let received = body_bytes(send(&test_state(), "http://host/large.xva.gz", &upstream), &upstream);
    assert!(received == raw);
}

// ---- HTTP/1.1 must never reach XAPI ----

#[test]
fn response_is_never_http11() {
    for (path, body) in [("/a.xva", fake_xva_bytes()), ("/b.xva.gz", fake_xva_gz_bytes())] {
        let resp = send(&test_state(), &format!("http://host{path}"), &serving(body));
        let version = streaming(resp).reply_head().version;
        assert_ne!(version, HttpVersion::Http11, "{path} would be sent chunked");
        assert_eq!(version, HttpVersion::Http10);
    }
}

#[test]
fn decision_matrix() {
    for scheme in ["http", "https"] {
        for (ext, format) in [("xva", ImageFormat::Raw), ("xva.gz", ImageFormat::Gzip)] {
            let src = format!("{scheme}://host/image.{ext}");
            let stream = streaming(send(&test_state(), &src, &serving(Vec::new()))).into_stream();
            assert_eq!(stream.format(), format);
            assert_eq!(stream.src_url(), src);
        }
    }
}
