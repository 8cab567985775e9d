//! Format detection, by extension and by probe.

use xoa_proxy::error::ProxyError;
use xoa_proxy::handler::{
    detect_format_from_extension, detect_format_via_head, HeadOutcome, HeadReply,
};
use xoa_proxy::stream::ImageFormat;

// --- positive: gzip variants ---

#[test]
fn xva_gz_is_gzip() {
    assert_eq!(
        detect_format_from_extension("http://host/image.xva.gz"),
        Some(ImageFormat::Gzip)
    );
}

#[test]
fn xva_gzip_is_gzip() {
    assert_eq!(
        detect_format_from_extension("http://host/image.xva.gzip"),
        Some(ImageFormat::Gzip)
    );
}

#[test]
fn uppercase_xva_gz_is_gzip() {
    // Function lowercases before matching, so .XVA.GZ must still work.
    assert_eq!(
        detect_format_from_extension("http://host/IMAGE.XVA.GZ"),
        Some(ImageFormat::Gzip)
    );
}

#[test]
fn mixed_case_xva_gzip() {
    assert_eq!(
        detect_format_from_extension("http://host/image.XvA.GzIp"),
        Some(ImageFormat::Gzip)
    );
}

// --- positive: raw variants ---

#[test]
fn xva_is_raw() {
    assert_eq!(
        detect_format_from_extension("http://host/image.xva"),
        Some(ImageFormat::Raw)
    );
}

#[test]
fn uppercase_xva_is_raw() {
    assert_eq!(
        detect_format_from_extension("http://host/image.XVA"),
        Some(ImageFormat::Raw)
    );
}

// --- query strings and fragments are stripped before matching ---

#[test]
fn xva_with_query_string_is_raw() {
    assert_eq!(
        detect_format_from_extension("http://host/image.xva?token=abc&foo=bar"),
        Some(ImageFormat::Raw)
    );
}

#[test]
fn xva_gz_with_query_string_is_gzip() {
    assert_eq!(
        detect_format_from_extension("http://host/image.xva.gz?v=1"),
        Some(ImageFormat::Gzip)
    );
}

#[test]
fn xva_with_fragment_is_raw() {
    assert_eq!(
        detect_format_from_extension("http://host/image.xva#section"),
        Some(ImageFormat::Raw)
    );
}

// --- ambiguous / unknown extensions return None ---

#[test]
fn no_extension_returns_none() {
    assert_eq!(detect_format_from_extension("http://host/image"), None);
}

#[test]
fn dot_gz_only_returns_none() {
    // ".gz" without ".xva" prefix should NOT match.
    assert_eq!(detect_format_from_extension("http://host/image.gz"), None);
}

#[test]
fn tar_extension_returns_none() {
    assert_eq!(
        detect_format_from_extension("http://host/image.tar"), None);
}

#[test]
fn tar_gz_returns_none() {
    assert_eq!(
        detect_format_from_extension("http://host/image.tar.gz"), None);
}

#[test]
fn empty_url_returns_none() {
    assert_eq!(detect_format_from_extension(""), None);
}

// --- path components don't bleed into extension matching ---

#[test]
fn xva_in_directory_name_does_not_match_gz() {
    // The file itself has no XVA extension; only the directory name does.
    assert_eq!(detect_format_from_extension("http://host/archive.xva/image.tar"), None);
}

// --- laws of the detection, on concrete values ---

#[test]
fn query_and_fragment_do_not_matter() {
    let path = "https://host/image.xva.gz";
    for rest in ["?", "#", "?a=b.tar", "#x?y", "?x#y.xva", "#.xva", "?q=a/b.xva"] {
        assert_eq!(
            detect_format_from_extension(&format!("{path}{rest}")),
            detect_format_from_extension(path)
        );
    }
    // The law holds of a path that has a query string itself.
    assert_eq!(
        detect_format_from_extension("http://host/a.xva?b.tar#c"),
        detect_format_from_extension("http://host/a.xva?b.tar")
    );
    // A known extension behind the path does not count.
    assert_eq!(detect_format_from_extension("http://host/image?f=a.xva"), None);
    assert_eq!(detect_format_from_extension("http://host/image#a.xva.gz"), None);
}

#[test]
fn directories_and_scheme_do_not_matter() {
    for name in ["a.xva", "a.xva.gz", "a.tar", "", ".xva", "xva", "a.xva?b#c"] {
        let alone = detect_format_from_extension(&format!("/{name}"));
        for dir in ["http:/", "https:/", "http://host", "http://a.xva", "x.xva.g", ""] {
            assert_eq!(detect_format_from_extension(&format!("{dir}/{name}")), alone);
        }
    }
}

#[test]
fn gz_counts_only_behind_xva() {
    assert_eq!(detect_format_from_extension("a.XVA.gz"), Some(ImageFormat::Gzip));
    assert_eq!(detect_format_from_extension("a.xva2.gz"), None);
    assert_eq!(detect_format_from_extension(".gz"), None);
    assert_eq!(detect_format_from_extension("xva.gz"), None);
    assert_eq!(detect_format_from_extension(".xva.gz"), Some(ImageFormat::Gzip));
    assert_eq!(detect_format_from_extension("a.xva.gzi"), None);
    assert_eq!(detect_format_from_extension("a.xva."), None);
}

/// What the detection is, with Unicode lowercasing in place of ASCII folding.
fn by_unicode(url: &str) -> Option<ImageFormat> {
    let path = url.split(|c| c == '?' || c == '#').next().unwrap_or("").to_lowercase();
    if path.ends_with(".xva.gz") || path.ends_with(".xva.gzip") {
        Some(ImageFormat::Gzip)
    } else if path.ends_with(".xva") {
        Some(ImageFormat::Raw)
    } else {
        None
    }
}

#[test]
fn ascii_folding_decides_as_unicode_lowercasing() {
    for url in ["/a.xva", "/a.xva.gz", "/a.xva.gzip"] {
        let chars: Vec<char> = url.chars().collect();
        for c in '\0'..=char::MAX {
            if c.is_ascii() || c.to_lowercase().any(|l| l != c) {
                for i in 0..chars.len() {
                    let mut changed = chars.clone();
                    changed[i] = c;
                    let changed: String = changed.into_iter().collect();
                    assert_eq!(detect_format_from_extension(&changed), by_unicode(&changed));
                }
            }
        }
    }
}

// --- probe ---

fn reply(status: u16, content_type: Option<&str>, content_encoding: Option<&str>) -> HeadOutcome {
    HeadOutcome::Answered(HeadReply {
        status,
        content_type: content_type.map(|v| v.as_bytes().to_vec()),
        content_encoding: content_encoding.map(|v| v.as_bytes().to_vec()),
    })
}

fn probed(content_type: Option<&str>, content_encoding: Option<&str>) -> ImageFormat {
    detect_format_via_head(reply(200, content_type, content_encoding)).unwrap()
}

#[test]
fn probe_tells_gzip_by_content_type() {
    assert_eq!(probed(Some("application/gzip"), None), ImageFormat::Gzip);
    assert_eq!(probed(Some("application/x-gzip"), None), ImageFormat::Gzip);
    assert_eq!(probed(Some("Application/X-GZip; a=b"), None), ImageFormat::Gzip);
    assert_eq!(probed(Some(" application/gzip ;a=b;c=d"), None), ImageFormat::Gzip);
    assert_eq!(probed(Some("\tapplication/x-gzip\t"), None), ImageFormat::Gzip);
    assert_eq!(probed(Some("gzip"), None), ImageFormat::Raw);
}

#[test]
fn probe_tells_gzip_by_content_encoding() {
    assert_eq!(probed(None, Some("gzip")), ImageFormat::Gzip);
    assert_eq!(probed(Some("application/octet-stream"), Some("GZIP")), ImageFormat::Gzip);
    assert_eq!(probed(Some("text/html"), Some(" gzip\t")), ImageFormat::Gzip);
}

#[test]
fn probe_tells_raw_otherwise() {
    assert_eq!(probed(None, None), ImageFormat::Raw);
    assert_eq!(probed(Some(""), Some("")), ImageFormat::Raw);
    assert_eq!(probed(Some("application/octet-stream"), Some("identity")), ImageFormat::Raw);
    assert_eq!(probed(Some("multipart/x-gzip"), None), ImageFormat::Raw);
    assert_eq!(probed(Some("application/x-gzip-compressed"), None), ImageFormat::Raw);
    assert_eq!(probed(Some("text/plain; a=application/gzip"), None), ImageFormat::Raw);
    assert_eq!(probed(Some("application/ gzip"), None), ImageFormat::Raw);
    assert_eq!(probed(None, Some("x-gzip")), ImageFormat::Raw);
    assert_eq!(probed(None, Some("gzip, br")), ImageFormat::Raw);
    assert_eq!(probed(None, Some("gzip;q=1")), ImageFormat::Raw);
    assert_eq!(probed(None, Some("application/gzip")), ImageFormat::Raw);
    assert_eq!(probed(Some("gzi"), Some("zip")), ImageFormat::Raw);
}

#[test]
fn unreadable_header_counts_as_missing() {
    assert_eq!(probed(Some("application/gzip;\t "), None), ImageFormat::Gzip);
    assert_eq!(probed(Some("application/gzip;\u{7f}"), None), ImageFormat::Raw);
    assert_eq!(probed(Some("application/gzip;\u{e9}"), None), ImageFormat::Raw);
    assert_eq!(probed(Some("application/gzip;\u{e9}"), Some("gzip")), ImageFormat::Gzip);
}

#[test]
fn failed_probe_carries_the_reason() {
    match detect_format_via_head(HeadOutcome::Failed("dns error".to_string())) {
        Err(ProxyError::ProbeFailed(msg)) => assert_eq!(msg, "HEAD request failed: dns error"),
        other => panic!("{other:?}"),
    }
}

#[test]
fn probe_answered_with_an_error_fails() {
    for status in [400u16, 404, 499, 500, 503, 599] {
        match detect_format_via_head(reply(status, Some("application/gzip"), None)) {
            Err(ProxyError::ProbeFailed(msg)) => {
                assert_eq!(msg, format!("HEAD request failed: upstream returned status {status}"))
            }
            other => panic!("{other:?}"),
        }
    }
    for status in [100u16, 200, 204, 304, 399, 600, 999] {
        assert_eq!(
            detect_format_via_head(reply(status, Some("application/gzip"), None)).unwrap(),
            ImageFormat::Gzip
        );
    }
}
