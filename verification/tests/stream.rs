//! The pipeline, the shared clients and the configuration.

use std::io::Write;

use flate2::{write::GzEncoder, Compression};
use xoa_proxy::config::Config;
use xoa_proxy::lock::ImportGuard;
use xoa_proxy::state::{build_client, client_settings, AppState};
use xoa_proxy::stream::{
    decompressed, fetch_xva_stream, relay_image, CorruptImage, FetchError, FetchOutcome,
    ImageFormat,
};
use xoa_proxy::text::{chars_of, leading, numeral, part_before, same_text, trimmed};

fn gzip(raw: &[u8]) -> Vec<u8> {
    let mut encoder = GzEncoder::new(Vec::new(), Compression::default());
    encoder.write_all(raw).unwrap();
    encoder.finish().unwrap()
}

fn state() -> AppState {
    AppState::new().unwrap_or_else(|e| panic!("{}", e.message()))
}

fn guard() -> ImportGuard {
    state().try_import_lock().unwrap()
}

#[test]
fn raw_image_is_relayed_unchanged() {
    for body in [Vec::new(), b"tar".to_vec(), gzip(b"tar")] {
        assert_eq!(relay_image(ImageFormat::Raw, body.clone()), Ok(body));
    }
}

#[test]
fn compressed_image_is_relayed_decompressed() {
    for raw in [Vec::new(), b"tar".to_vec(), (0..=255u8).cycle().take(100_000).collect()] {
        assert_eq!(relay_image(ImageFormat::Gzip, gzip(&raw)), Ok(raw));
    }
}

#[test]
fn only_the_first_member_is_decompressed() {
    let mut two = gzip(b"first");
    two.extend(gzip(b"second"));
    assert_eq!(relay_image(ImageFormat::Gzip, two), Ok(b"first".to_vec()));
}

#[test]
fn broken_image_is_refused() {
    assert_eq!(relay_image(ImageFormat::Gzip, Vec::new()), Err(CorruptImage));
    assert_eq!(relay_image(ImageFormat::Gzip, b"plain tar bytes, not gzip".to_vec()), Err(CorruptImage));
    let mut cut = gzip(b"some content");
    cut.pop();
    assert_eq!(relay_image(ImageFormat::Gzip, cut), Err(CorruptImage));
    let mut damaged = gzip(b"some content");
    let crc = damaged.len() - 8;
    damaged[crc] ^= 1;
    assert_eq!(relay_image(ImageFormat::Gzip, damaged), Err(CorruptImage));
}

#[test]
fn decompression_outcome_is_passed_on() {
    assert_eq!(decompressed(Some(vec![1, 2])), Ok(vec![1, 2]));
    assert_eq!(decompressed(None), Err(CorruptImage));
}

#[test]
fn fetch_fails_on_no_answer_and_on_error_status() {
    let fetch = |outcome| fetch_xva_stream("http://h/a.xva", ImageFormat::Raw, outcome, guard());
    assert_eq!(fetch(FetchOutcome::ConnectFailed).err(), Some(FetchError::Connect));
    for status in [400u16, 404, 500, 599] {
        assert_eq!(fetch(FetchOutcome::Answered(status)).err(), Some(FetchError::Status));
    }
    for status in [200u16, 206, 304, 399, 600] {
        assert!(fetch(FetchOutcome::Answered(status)).is_ok());
    }
    assert_eq!(FetchError::Connect.message(), "Failed to connect to upstream");
    assert_eq!(FetchError::Status.message(), "Upstream returned non-2xx status");
}

#[test]
fn bytes_handed_on_are_counted() {
    let mut stream =
        fetch_xva_stream("http://h/a", ImageFormat::Gzip, FetchOutcome::Answered(200), guard())
            .unwrap_or_else(|e| panic!("{e:?}"));
    assert_eq!(stream.bytes_sent(), 0);
    for item in [Some(10), Some(0), None, Some(32), None] {
        stream.record(item);
    }
    assert_eq!(stream.bytes_sent(), 42);
    assert_eq!(stream.src_url(), "http://h/a");
    assert_eq!(stream.format(), ImageFormat::Gzip);
}

#[test]
fn byte_count_wraps() {
    let mut stream =
        fetch_xva_stream("http://h/a", ImageFormat::Raw, FetchOutcome::Answered(200), guard())
            .unwrap_or_else(|e| panic!("{e:?}"));
    stream.record(Some(usize::MAX));
    stream.record(Some(3));
    assert_eq!(stream.bytes_sent(), (usize::MAX as u64).wrapping_add(3));
}

#[test]
fn dropping_the_stream_frees_the_lock() {
    let state = state();
    let guard = state.try_import_lock().unwrap();
    let stream =
        fetch_xva_stream("http://h/a", ImageFormat::Raw, FetchOutcome::Answered(200), guard);
    assert!(state.try_import_lock().is_none());
    drop(stream);
    let guard = state.try_import_lock().unwrap();
    let failed =
        fetch_xva_stream("http://h/a", ImageFormat::Raw, FetchOutcome::ConnectFailed, guard);
    assert!(failed.is_err());
    assert!(state.try_import_lock().is_some());
}

#[test]
fn each_state_has_a_lock_of_its_own() {
    let (one, other) = (state(), state());
    let guard = one.try_import_lock();
    assert!(guard.is_some());
    assert!(one.try_import_lock().is_none());
    assert!(other.try_import_lock().is_some());
    drop(guard);
    assert!(one.try_import_lock().is_some());
}

#[test]
fn clients_check_certificates_as_asked() {
    let settings = client_settings(true);
    assert_eq!(settings.user_agent, "xoa-lite-proxy/1.0");
    assert!(!settings.accept_invalid_certs);
    assert!(!settings.auto_decompress);
    assert!(client_settings(false).accept_invalid_certs);
    for ssl_verify in [true, false] {
        match build_client(ssl_verify) {
            Ok(client) => {
                assert_eq!(client.verifies_certificates(), ssl_verify);
                let request = client.http().get("http://host/a.xva").build().unwrap();
                assert_eq!(request.url().as_str(), "http://host/a.xva");
                assert!(format!("{:?}", client.http()).contains("xoa-lite-proxy/1.0"));
            }
            Err(e) => panic!("{}: {:?}", e.message(), e.source),
        }
    }
}

#[test]
fn state_hands_out_the_client_asked_for() {
    let state = AppState::new().unwrap_or_else(|e| panic!("{}", e.message()));
    assert!(state.client_for(true).verifies_certificates());
    assert!(!state.client_for(false).verifies_certificates());
}

#[test]
fn listens_on_loopback_by_default() {
    let config = Config::default();
    assert_eq!(config.port, 9001);
    assert_eq!(config.bind, "127.0.0.1");
    assert_eq!(config.listen_addr(), "127.0.0.1:9001");
}

#[test]
fn listen_address_joins_bind_and_port() {
    for port in [0u16, 7, 10, 80, 443, 3000, 9999, 10000, 65535] {
        let config = Config { port, bind: "0.0.0.0".to_string() };
        assert_eq!(config.listen_addr(), format!("0.0.0.0:{port}"));
        assert_eq!(numeral(port), port.to_string());
    }
}

#[test]
fn text_helpers() {
    assert_eq!(chars_of("aé"), vec!['a', 'é']);
    assert_eq!(leading("abc", 2), "ab");
    assert_eq!(leading("abc", 3), "abc");
    assert!(same_text(&chars_of("abc"), "abc"));
    assert!(!same_text(&chars_of("abc"), "ab"));
    assert!(!same_text(&chars_of("abc"), "abd"));
    assert_eq!(part_before(&chars_of("a;b;c"), ';'), vec!['a']);
    assert_eq!(part_before(&chars_of("ab"), ';'), vec!['a', 'b']);
    assert_eq!(trimmed(&chars_of(" \ta b\t ")), vec!['a', ' ', 'b']);
    assert_eq!(trimmed(&chars_of(" \t ")), Vec::<char>::new());
}
