//! The handling of `GET /image.xva?src=<url>[&verify_ssl=false]`, and of every
//! other path.
//!
//! An import goes through these steps, and between them the caller of this
//! module does the network work:
//!
//! 1. [`handle_image_xva`] validates the parameters and detects the image format
//!    from the URL path extension (`.xva.gz` / `.xva.gzip`: gzip; `.xva`: raw).
//! 2. Where the extension is ambiguous, [`Probing`] asks for a HEAD request.
//! 3. [`Locking`] takes the single-import lock; a second import is refused.
//! 4. [`Fetching`] asks for a GET request, holding the lock.
//! 5. [`Streaming`] is answered with a streaming HTTP/1.0 response, whose body
//!    holds the lock until it is dropped.

use vstd::prelude::*;
use vstd::string::*;

use crate::error::{ProxyError, ProxyErrorModel};
use crate::lock::ImportGuard;
use crate::state::AppState;
use crate::stream::{
    fetch_xva_stream, status_is_error, FetchOutcome, GuardedStream, ImageFormat, Method,
    StreamModel, UpstreamRequest,
};
use crate::text::{
    begins_with, chars_of, finishes_with, join, leading, numeral, part_before, same_text,
    to_ascii_lower, trimmed,
};

verus! {

/// The path that images are served under.
pub const IMAGE_PATH: &'static str = "/image.xva";

/// What is said where `src` is missing.
pub const MISSING_SRC: &'static str = "Missing required query parameter: src";

/// What precedes the excerpt of a URL that is refused for its scheme.
pub const BAD_SCHEME: &'static str = "src must start with http:// or https://, got: ";

/// How many characters of a refused URL are quoted.
pub const EXCERPT_LEN: usize = 40;

/// What precedes the reason why a probe failed.
pub const HEAD_FAILED: &'static str = "HEAD request failed: ";

/// What precedes the error status that a probe was answered with.
pub const HEAD_STATUS: &'static str = "upstream returned status ";

/// What precedes the reason why a fetch failed.
pub const FETCH_FAILED: &'static str = "Failed to fetch upstream image: ";

/// What precedes the reason why an answer could not be put together.
pub const REPLY_FAILED: &'static str = "Internal response builder error: ";

/// The query parameters of an import.
#[derive(Debug)]
pub struct ImageParams {
    /// Upstream `.xva` or `.xva.gz` URL (`http://` or `https://`).
    pub src: Option<String>,
    /// Whether to verify the upstream TLS certificate (default: `true`).
    pub verify_ssl: Option<bool>,
}

/// An [`ImageParams`] with its text as a sequence of characters.
pub struct ParamsModel {
    pub src: Option<Seq<char>>,
    pub verify_ssl: Option<bool>,
}

impl View for ImageParams {
    type V = ParamsModel;

    open spec fn view(&self) -> ParamsModel {
        ParamsModel {
            src: match self.src {
                Some(url) => Some(url@),
                None => None,
            },
            verify_ssl: self.verify_ssl,
        }
    }
}

/// A model holds what its parameters hold.
pub proof fn law_model_keeps_parameters(params: ImageParams)
    ensures
        params@.src is None <==> params.src is None,
        params.src matches Some(url) ==> params@.src == Some(url@),
        params@.verify_ssl == params.verify_ssl,
{
}

// ---- Format detection by extension ----

/// Whether a character ends the path of a URL.
pub open spec fn ends_path(c: char) -> bool {
    c == '?' || c == '#'
}

/// How many characters stand before the query string and the fragment.
pub open spec fn path_len(url: Seq<char>) -> nat
    decreases url.len(),
{
    if url.len() == 0 || ends_path(url[0]) {
        0
    } else {
        1 + path_len(url.drop_first())
    }
}

/// A URL without its query string and fragment.
pub open spec fn path_of(url: Seq<char>) -> Seq<char> {
    url.take(path_len(url) as int)
}

/// The format that a path in small letters tells by its ending.
pub open spec fn format_of_ending(path: Seq<char>) -> Option<ImageFormat> {
    if ".xva.gz"@.is_suffix_of(path) || ".xva.gzip"@.is_suffix_of(path) {
        Some(ImageFormat::Gzip)
    } else if ".xva"@.is_suffix_of(path) {
        Some(ImageFormat::Raw)
    } else {
        None
    }
}

/// The format that the extension of a URL tells, in letters of either case.
pub open spec fn format_from_extension(url: Seq<char>) -> Option<ImageFormat> {
    format_of_ending(crate::text::lower(path_of(url)))
}

/// The path of a URL in small letters.
fn lowered_path(src_url: &str) -> (r: Vec<char>)
    ensures
        r@ == crate::text::lower(path_of(src_url@)),
{
    let url = chars_of(src_url);
    let mut path: Vec<char> = Vec::new();
    let mut i: usize = 0;
    assert(url@.skip(0) =~= url@);
    while i < url.len() && url[i] != '?' && url[i] != '#'
        invariant
            i <= url@.len(),
            path_len(url@) == i + path_len(url@.skip(i as int)),
            path@ == crate::text::lower(url@.take(i as int)),
        decreases url@.len() - i,
    {
        assert(url@.skip(i as int).drop_first() =~= url@.skip(i + 1));
        path.push(to_ascii_lower(url[i]));
        i += 1;
        assert(path@ =~= crate::text::lower(url@.take(i as int)));
    }
    path
}

/// Tries to determine the image format from the URL path extension alone.
///
/// Query string and fragment are left aside, so that
/// `http://host/image.xva?token=abc` is handled correctly.
///
/// Only ASCII letters are folded. Outside ASCII no character has a small letter
/// that any of the endings holds, except that U+0130 becomes an `i` followed by a
/// combining dot, which no ending holds: folding by all of Unicode would tell
/// the same endings.
pub fn detect_format_from_extension(src_url: &str) -> (r: Option<ImageFormat>)
    ensures
        r == format_from_extension(src_url@),
{
    let path = lowered_path(src_url);
    if finishes_with(&path, ".xva.gz") || finishes_with(&path, ".xva.gzip") {
        Some(ImageFormat::Gzip)
    } else if finishes_with(&path, ".xva") {
        Some(ImageFormat::Raw)
    } else {
        None
    }
}

// ---- Format detection by probe ----

/// The head of the answer to a probe.
#[derive(Debug)]
pub struct HeadReply {
    pub status: u16,
    /// Value of the `Content-Type` header.
    pub content_type: Option<Vec<u8>>,
    /// Value of the `Content-Encoding` header.
    pub content_encoding: Option<Vec<u8>>,
}

/// What became of a probe.
#[derive(Debug)]
pub enum HeadOutcome {
    /// No answer came, for the given reason.
    Failed(String),
    /// An answer came.
    Answered(HeadReply),
}

/// A [`HeadOutcome`] with its parts as sequences.
pub enum HeadModel {
    Failed(Seq<char>),
    Answered {
        status: u16,
        content_type: Option<Seq<u8>>,
        content_encoding: Option<Seq<u8>>,
    },
}

/// A header value as a sequence of bytes.
pub open spec fn value_view(value: Option<Vec<u8>>) -> Option<Seq<u8>> {
    match value {
        Some(bytes) => Some(bytes@),
        None => None,
    }
}

impl View for HeadOutcome {
    type V = HeadModel;

    open spec fn view(&self) -> HeadModel {
        match self {
            HeadOutcome::Failed(reason) => HeadModel::Failed(reason@),
            HeadOutcome::Answered(reply) => HeadModel::Answered {
                status: reply.status,
                content_type: value_view(reply.content_type),
                content_encoding: value_view(reply.content_encoding),
            },
        }
    }
}

/// A model holds what became of its probe: the reason, or the status code and the
/// bytes of both headers.
pub proof fn law_model_keeps_outcome(outcome: HeadOutcome)
    ensures
        outcome matches HeadOutcome::Failed(reason) ==> outcome@ == HeadModel::Failed(reason@),
        outcome matches HeadOutcome::Answered(reply) ==> {
            &&& outcome@ matches HeadModel::Answered { status, content_type, content_encoding }
            &&& status == reply.status
            &&& content_type == match reply.content_type {
                Some(bytes) => Some(bytes@),
                None => None::<Seq<u8>>,
            }
            &&& content_encoding == match reply.content_encoding {
                Some(bytes) => Some(bytes@),
                None => None::<Seq<u8>>,
            }
        },
{
}

/// Whether a byte of a header value is visible ASCII, a space or a tab.
pub open spec fn is_visible(b: u8) -> bool {
    32 <= b < 127 || b == 9
}

/// A header value as text: empty where the header is missing, or holds
/// anything but visible ASCII, spaces and tabs.
pub open spec fn header_text(value: Option<Seq<u8>>) -> Seq<char> {
    match value {
        Some(bytes) => if forall|i: int| 0 <= i < bytes.len() ==> is_visible(#[trigger] bytes[i]) {
            bytes.map_values(|b: u8| b as char)
        } else {
            Seq::empty()
        },
        None => Seq::empty(),
    }
}

/// Whether a `Content-Type` is one of gzip, in letters of either case and
/// whatever parameters follow it.
pub open spec fn is_gzip_type(value: Option<Seq<u8>>) -> bool {
    let media_type = crate::text::trim(
        crate::text::before(crate::text::lower(header_text(value)), ';'),
    );
    media_type == "application/gzip"@ || media_type == "application/x-gzip"@
}

/// Whether a `Content-Encoding` is gzip, in letters of either case.
pub open spec fn is_gzip_coding(value: Option<Seq<u8>>) -> bool {
    crate::text::trim(crate::text::lower(header_text(value))) == "gzip"@
}

/// The format that a probe tells, or why it tells none.
pub open spec fn format_from_head(outcome: HeadModel) -> Result<ImageFormat, ProxyErrorModel> {
    match outcome {
        HeadModel::Failed(reason) => Err(ProxyErrorModel::ProbeFailed(HEAD_FAILED@ + reason)),
        HeadModel::Answered { status, content_type, content_encoding } => {
            if crate::stream::is_error_status(status) {
                Err(
                    ProxyErrorModel::ProbeFailed(
                        HEAD_FAILED@ + (HEAD_STATUS@ + crate::text::decimal(status as nat)),
                    ),
                )
            } else if is_gzip_type(content_type) || is_gzip_coding(content_encoding) {
                Ok(ImageFormat::Gzip)
            } else {
                Ok(ImageFormat::Raw)
            }
        },
    }
}

/// A header value as text in small letters.
fn lowered_header(value: &Option<Vec<u8>>) -> (r: Vec<char>)
    ensures
        r@ == crate::text::lower(header_text(value_view(*value))),
{
    let mut text: Vec<char> = Vec::new();
    if let Some(bytes) = value {
        for i in 0..bytes.len()
            invariant
                value_view(*value) == Some(bytes@),
                forall|j: int| 0 <= j < i ==> is_visible(#[trigger] bytes@[j]),
                text@ == crate::text::lower(bytes@.take(i as int).map_values(|b: u8| b as char)),
        {
            let b: u8 = bytes[i];
            if !((32 <= b && b < 127) || b == 9) {
                assert(!is_visible(bytes@[i as int]));
                let none: Vec<char> = Vec::new();
                assert(none@ =~= crate::text::lower(header_text(value_view(*value))));
                return none;
            }
            text.push(to_ascii_lower(b as char));
            assert(text@ =~= crate::text::lower(
                bytes@.take(i + 1).map_values(|b: u8| b as char),
            ));
        }
        assert(bytes@.take(bytes@.len() as int) =~= bytes@);
    }
    assert(text@ =~= crate::text::lower(header_text(value_view(*value))));
    text
}

/// Determines the image format from the answer to a HEAD request, which is sent
/// where the URL extension is ambiguous.
///
/// A `Content-Type` of `application/gzip` or `application/x-gzip`, or a
/// `Content-Encoding: gzip`, tells gzip; anything else raw.
pub fn detect_format_via_head(outcome: HeadOutcome) -> (r: Result<ImageFormat, ProxyError>)
    ensures
        match format_from_head(outcome@) {
            Ok(format) => r == Ok::<ImageFormat, ProxyError>(format),
            Err(e) => r matches Err(x) && x@ == e,
        },
        match outcome {
            HeadOutcome::Failed(reason) => r matches Err(ProxyError::ProbeFailed(msg)) && msg@
                == "HEAD request failed: "@ + reason@,
            HeadOutcome::Answered(reply) => {
                &&& r is Err <==> 400 <= reply.status < 600
                &&& r is Err ==> (r matches Err(ProxyError::ProbeFailed(msg)) && msg@
                    == "HEAD request failed: "@ + ("upstream returned status "@
                    + crate::text::decimal(reply.status as nat)))
            },
        },
{
    match outcome {
        HeadOutcome::Failed(reason) => Err(
            ProxyError::ProbeFailed(join(HEAD_FAILED, reason.as_str())),
        ),
        HeadOutcome::Answered(reply) => {
            if status_is_error(reply.status) {
                let reason = join(HEAD_STATUS, numeral(reply.status).as_str());
                return Err(ProxyError::ProbeFailed(join(HEAD_FAILED, reason.as_str())));
            }
            let media_type = trimmed(&part_before(&lowered_header(&reply.content_type), ';'));
            let coding = trimmed(&lowered_header(&reply.content_encoding));
            if same_text(&media_type, "application/gzip") || same_text(
                &media_type,
                "application/x-gzip",
            ) || same_text(&coding, "gzip") {
                Ok(ImageFormat::Gzip)
            } else {
                Ok(ImageFormat::Raw)
            }
        },
    }
}

// ---- The steps of an import ----

/// Whether a URL is one that the proxy fetches.
pub open spec fn has_http_scheme(url: Seq<char>) -> bool {
    "http://"@.is_prefix_of(url) || "https://"@.is_prefix_of(url)
}

/// The part of a refused URL that is quoted.
pub open spec fn excerpt(url: Seq<char>) -> Seq<char> {
    if url.len() <= EXCERPT_LEN {
        url
    } else {
        url.take(EXCERPT_LEN as int)
    }
}

/// What an import is after.
pub struct Job {
    src_url: String,
    ssl_verify: bool,
}

/// A [`Job`] with its text as a sequence of characters.
pub struct JobModel {
    pub src_url: Seq<char>,
    pub ssl_verify: bool,
}

impl View for Job {
    type V = JobModel;

    closed spec fn view(&self) -> JobModel {
        JobModel { src_url: self.src_url@, ssl_verify: self.ssl_verify }
    }
}

impl Job {
    /// Only HTTP and HTTPS URLs are imported.
    #[verifier::type_invariant]
    spec fn is_fetchable(self) -> bool {
        has_http_scheme(self.src_url@)
    }

    /// The upstream URL.
    pub fn src_url(&self) -> (r: &str)
        ensures
            r@ == self@.src_url,
            has_http_scheme(r@),
            "http://"@.is_prefix_of(r@) || "https://"@.is_prefix_of(r@),
    {
        proof {
            use_type_invariant(self);
        }
        self.src_url.as_str()
    }

    /// Whether the upstream's certificate is checked.
    pub fn ssl_verify(&self) -> (r: bool)
        ensures
            r == self@.ssl_verify,
    {
        self.ssl_verify
    }

    /// The request of the URL by `method`.
    fn request(&self, method: Method) -> (r: UpstreamRequest)
        ensures
            r.asks(method, self@.src_url, self@.ssl_verify),
            has_http_scheme(r.url@),
            r.method == method,
            r.url@ == self@.src_url,
            r.accept_encoding@ == "identity"@,
            r.ssl_verify == self@.ssl_verify,
            "http://"@.is_prefix_of(r.url@) || "https://"@.is_prefix_of(r.url@),
    {
        UpstreamRequest::new(method, self.src_url(), self.ssl_verify)
    }
}

/// An import, by the step that it has reached.
pub enum Import {
    /// It is refused, and answered with an error.
    Refused(ProxyError),
    /// It waits for a HEAD probe.
    Probing(Probing),
    /// It waits for the import lock.
    Locking(Locking),
    /// It holds the import lock and waits for the upstream's answer.
    Fetching(Fetching),
    /// It holds the import lock and is answered with a stream.
    Streaming(Streaming),
}

/// An [`Import`] with its parts as models.
pub enum ImportModel {
    Refused(ProxyErrorModel),
    Probing(JobModel),
    Locking(JobModel, ImageFormat),
    Fetching(JobModel, ImageFormat),
    Streaming(StreamModel),
}

impl View for Import {
    type V = ImportModel;

    open spec fn view(&self) -> ImportModel {
        match self {
            Import::Refused(e) => ImportModel::Refused(e@),
            Import::Probing(p) => ImportModel::Probing(p@),
            Import::Locking(l) => ImportModel::Locking(l@.0, l@.1),
            Import::Fetching(f) => ImportModel::Fetching(f@.0, f@.1),
            Import::Streaming(s) => ImportModel::Streaming(s@),
        }
    }
}

impl ImportModel {
    /// Whether an import at this step owns the guard of the import lock.
    pub open spec fn holds_lock(self) -> bool {
        self is Fetching || self is Streaming
    }
}

/// Where an import stands once its parameters have been looked at.
pub open spec fn begin(params: ParamsModel) -> ImportModel {
    match params.src {
        None => ImportModel::Refused(ProxyErrorModel::BadRequest(MISSING_SRC@)),
        Some(url) => if !has_http_scheme(url) {
            ImportModel::Refused(ProxyErrorModel::BadRequest(BAD_SCHEME@ + excerpt(url)))
        } else {
            let job = JobModel {
                src_url: url,
                ssl_verify: match params.verify_ssl {
                    Some(verify) => verify,
                    None => true,
                },
            };
            match format_from_extension(url) {
                Some(format) => ImportModel::Locking(job, format),
                None => ImportModel::Probing(job),
            }
        },
    }
}

/// Where a probing import stands after its probe.
pub open spec fn after_probe(job: JobModel, outcome: HeadModel) -> ImportModel {
    match format_from_head(outcome) {
        Ok(format) => ImportModel::Locking(job, format),
        Err(e) => ImportModel::Refused(e),
    }
}

/// Where a locking import stands after its attempt to take the lock.
pub open spec fn after_lock(job: JobModel, format: ImageFormat, granted: bool) -> ImportModel {
    if granted {
        ImportModel::Fetching(job, format)
    } else {
        ImportModel::Refused(ProxyErrorModel::ImportInProgress)
    }
}

/// Where a fetching import stands after the upstream's answer.
pub open spec fn after_fetch(
    job: JobModel,
    format: ImageFormat,
    outcome: FetchOutcome,
) -> ImportModel {
    match outcome.failure() {
        Some(e) => ImportModel::Refused(ProxyErrorModel::UpstreamFailed(FETCH_FAILED@ + e.text())),
        None => ImportModel::Streaming(
            StreamModel { src_url: job.src_url, format, bytes_sent: 0 },
        ),
    }
}

/// Begins an import: validates `src`, settles whether certificates are checked
/// (default: yes), and detects the format from the extension where it can.
pub fn handle_image_xva(params: ImageParams) -> (r: Import)
    ensures
        r@ == begin(params@),
        params.src is None ==> (r matches Import::Refused(ProxyError::BadRequest(msg)) && msg@
            == "Missing required query parameter: src"@),
        params.src matches Some(url) ==> {
            let web = "http://"@.is_prefix_of(url@) || "https://"@.is_prefix_of(url@);
            &&& r is Refused <==> !web
            &&& r is Refused ==> (r matches Import::Refused(ProxyError::BadRequest(msg)) && msg@
                == "src must start with http:// or https://, got: "@ + if url@.len() <= 40 {
                url@
            } else {
                url@.take(40)
            })
            &&& web ==> match format_from_extension(url@) {
                Some(format) => {
                    &&& r matches Import::Locking(l)
                    &&& l@.0.src_url == url@
                    &&& l@.0.ssl_verify == (params.verify_ssl != Some(false))
                    &&& l@.1 == format
                },
                None => {
                    &&& r matches Import::Probing(p)
                    &&& p@.src_url == url@
                    &&& p@.ssl_verify == (params.verify_ssl != Some(false))
                },
            }
        },
{
    match params.src {
        None => Import::Refused(ProxyError::BadRequest(MISSING_SRC.to_owned())),
        Some(src_url) => {
            let url = chars_of(src_url.as_str());
            if !begins_with(&url, "http://") && !begins_with(&url, "https://") {
                let quoted = leading(src_url.as_str(), EXCERPT_LEN);
                return Import::Refused(ProxyError::BadRequest(join(BAD_SCHEME, quoted.as_str())));
            }
            let ssl_verify = match params.verify_ssl {
                Some(verify) => verify,
                None => true,
            };
            let format = detect_format_from_extension(src_url.as_str());
            let job = Job { src_url, ssl_verify };
            match format {
                Some(format) => Import::Locking(Locking { job, format }),
                None => Import::Probing(Probing { job }),
            }
        },
    }
}

/// An import whose format the extension does not tell.
pub struct Probing {
    job: Job,
}

impl View for Probing {
    type V = JobModel;

    closed spec fn view(&self) -> JobModel {
        self.job@
    }
}

impl Probing {
    /// The HEAD request to send.
    pub fn request(&self) -> (r: UpstreamRequest)
        ensures
            r.asks(Method::Head, self@.src_url, self@.ssl_verify),
            has_http_scheme(r.url@),
            r.method == Method::Head,
            r.url@ == self@.src_url,
            r.accept_encoding@ == "identity"@,
            r.ssl_verify == self@.ssl_verify,
            "http://"@.is_prefix_of(r.url@) || "https://"@.is_prefix_of(r.url@),
    {
        self.job.request(Method::Head)
    }

    /// Goes on with what became of the request.
    pub fn resume(self, outcome: HeadOutcome) -> (r: Import)
        ensures
            r@ == after_probe(self@, outcome@),
            match format_from_head(outcome@) {
                Ok(format) => r matches Import::Locking(l) && l@ == (self@, format),
                Err(e) => r matches Import::Refused(x) && x@ == e,
            },
    {
        match detect_format_via_head(outcome) {
            Ok(format) => Import::Locking(Locking { job: self.job, format }),
            Err(e) => Import::Refused(e),
        }
    }
}

/// An import of a known format, about to take the import lock.
pub struct Locking {
    job: Job,
    format: ImageFormat,
}

impl View for Locking {
    type V = (JobModel, ImageFormat);

    closed spec fn view(&self) -> (JobModel, ImageFormat) {
        (self.job@, self.format)
    }
}

impl Locking {
    /// Goes on with the guard of the import lock, or without one where another
    /// import holds the lock.
    pub fn resume(self, guard: Option<ImportGuard>) -> (r: Import)
        ensures
            r@ == after_lock(self@.0, self@.1, guard is Some),
            r matches Import::Fetching(f) ==> guard == Some(f.guard()),
            match guard {
                Some(g) => r matches Import::Fetching(f) && f@ == self@ && f.guard() == g,
                None => r == Import::Refused(ProxyError::ImportInProgress),
            },
    {
        match guard {
            Some(guard) => Import::Fetching(
                Fetching { job: self.job, format: self.format, guard },
            ),
            None => Import::Refused(ProxyError::ImportInProgress),
        }
    }

    /// Attempts to take the shared import lock, without waiting, and goes on.
    /// Whether the lock is free depends on the imports that are running.
    pub fn acquire(self, state: &AppState) -> (r: Import)
        ensures
            r@ == after_lock(self@.0, self@.1, true) || r@ == after_lock(self@.0, self@.1, false),
            r matches Import::Fetching(f) ==> f.guard().lock() == state.lock(),
            exists|outcome: Option<ImportGuard>| #[trigger]
                crate::lock::attempted(state.lock(), outcome) && r@ == after_lock(
                    self@.0,
                    self@.1,
                    outcome is Some,
                ) && match outcome {
                    Some(g) => r matches Import::Fetching(f) && f@ == self@ && f.guard() == g,
                    None => r == Import::Refused(ProxyError::ImportInProgress),
                },
    {
        self.resume(state.try_import_lock())
    }
}

/// An import that holds the lock and fetches its image.
pub struct Fetching {
    job: Job,
    format: ImageFormat,
    guard: ImportGuard,
}

impl View for Fetching {
    type V = (JobModel, ImageFormat);

    closed spec fn view(&self) -> (JobModel, ImageFormat) {
        (self.job@, self.format)
    }
}

impl Fetching {
    /// The guard of the import lock.
    pub closed spec fn guard(&self) -> ImportGuard {
        self.guard
    }

    /// The GET request to send.
    pub fn request(&self) -> (r: UpstreamRequest)
        ensures
            r.asks(Method::Get, self@.0.src_url, self@.0.ssl_verify),
            has_http_scheme(r.url@),
            r.method == Method::Get,
            r.url@ == self@.0.src_url,
            r.accept_encoding@ == "identity"@,
            r.ssl_verify == self@.0.ssl_verify,
            "http://"@.is_prefix_of(r.url@) || "https://"@.is_prefix_of(r.url@),
    {
        self.job.request(Method::Get)
    }

    /// Goes on with what became of the request. The guard moves into the stream;
    /// where there is none, the lock is released.
    pub fn resume(self, outcome: FetchOutcome) -> (r: Import)
        ensures
            r@ == after_fetch(self@.0, self@.1, outcome),
            r matches Import::Streaming(s) ==> s.guard() == self.guard(),
            match outcome {
                FetchOutcome::ConnectFailed => r matches Import::Refused(
                    ProxyError::UpstreamFailed(msg),
                ) && msg@ == "Failed to fetch upstream image: "@ + "Failed to connect to upstream"@,
                FetchOutcome::Answered(status) => if 400 <= status < 600 {
                    r matches Import::Refused(ProxyError::UpstreamFailed(msg)) && msg@
                        == "Failed to fetch upstream image: "@ + "Upstream returned non-2xx status"@
                } else {
                    &&& r matches Import::Streaming(s)
                    &&& s@.src_url == self@.0.src_url
                    &&& s@.format == self@.1
                    &&& s@.bytes_sent == 0
                    &&& s.guard() == self.guard()
                },
            },
    {
        match fetch_xva_stream(self.job.src_url(), self.format, outcome, self.guard) {
            Ok(stream) => Import::Streaming(Streaming { stream }),
            Err(e) => Import::Refused(ProxyError::UpstreamFailed(join(FETCH_FAILED, e.message()))),
        }
    }
}

/// The HTTP versions that matter to XAPI.
#[derive(Debug, Clone, Copy, PartialEq, Eq, Structural)]
pub enum HttpVersion {
    Http10,
    Http11,
}

/// The `Content-Type` of a streaming answer.
pub const OCTET_STREAM: &'static str = "application/octet-stream";

/// The `Connection` of a streaming answer.
pub const CLOSE: &'static str = "close";

/// The head of a streaming answer.
#[derive(Debug)]
pub struct ReplyHead {
    pub version: HttpVersion,
    pub status: u16,
    /// Value of the `Content-Type` header.
    pub content_type: &'static str,
    /// Value of the `Connection` header.
    pub connection: &'static str,
}

/// An import that is answered with a stream.
pub struct Streaming {
    stream: GuardedStream,
}

impl View for Streaming {
    type V = StreamModel;

    closed spec fn view(&self) -> StreamModel {
        self.stream@
    }
}

impl Streaming {
    /// The guard of the import lock.
    pub closed spec fn guard(&self) -> ImportGuard {
        self.stream.guard()
    }

    /// The head of the answer.
    ///
    /// It must be HTTP/1.0. An HTTP/1.1 answer of unknown length uses chunked
    /// transfer encoding, and XAPI's `open_uri` reads raw socket bytes without
    /// decoding the chunk framing. HTTP/1.0 has no chunked encoding: the bytes
    /// are written verbatim and the close of the connection signals their end.
    pub fn reply_head(&self) -> (r: ReplyHead)
        ensures
            r.version == HttpVersion::Http10,
            r.status == 200,
            r.content_type@ == OCTET_STREAM@,
            r.connection@ == CLOSE@,
            r.content_type@ == "application/octet-stream"@,
            r.connection@ == "close"@,
    {
        ReplyHead {
            version: HttpVersion::Http10,
            status: 200,
            content_type: OCTET_STREAM,
            connection: CLOSE,
        }
    }

    /// The stream that the body of the answer owns.
    pub fn into_stream(self) -> (r: GuardedStream)
        ensures
            r@ == self@,
            r.guard() == self.guard(),
    {
        self.stream
    }
}

/// The error for an answer that could not be put together.
pub fn reply_failed(detail: &str) -> (r: ProxyError)
    ensures
        r@ == ProxyErrorModel::UpstreamFailed(REPLY_FAILED@ + detail@),
        r matches ProxyError::UpstreamFailed(msg) && msg@ == "Internal response builder error: "@
            + detail@,
{
    ProxyError::UpstreamFailed(join(REPLY_FAILED, detail))
}

// ---- Fallback ----

/// What is said of a path that nothing is served under.
pub open spec fn unknown_path(path: Seq<char>) -> Seq<char> {
    "Unknown path '"@ + path + "'. Expected "@ + IMAGE_PATH@
}

/// Refuses any path other than [`IMAGE_PATH`].
pub fn handle_not_found(path: &str) -> (r: ProxyError)
    ensures
        r@ == ProxyErrorModel::NotFound(unknown_path(path@)),
        r matches ProxyError::NotFound(msg) && msg@ == "Unknown path '"@ + path@ + "'. Expected "@
            + "/image.xva"@,
{
    let mut msg = join("Unknown path '", path);
    msg.append("'. Expected ");
    msg.append(IMAGE_PATH);
    ProxyError::NotFound(msg)
}

} // verus!
