//! The fetch pipeline: what is asked of the upstream, what is made of its
//! answer, and the stream that holds the import lock for as long as it lives.

use futures::FutureExt;
use tokio::io::AsyncReadExt;
use vstd::prelude::*;

use crate::lock::ImportGuard;

verus! {

/// How the bytes of an upstream image are packed.
#[derive(Debug, Clone, Copy, PartialEq, Eq, Structural)]
pub enum ImageFormat {
    /// A gzip-compressed XVA, which is decompressed on the fly.
    Gzip,
    /// A plain XVA, which is passed through.
    Raw,
}

/// The methods that the proxy uses upstream.
#[derive(Debug, Clone, Copy, PartialEq, Eq, Structural)]
pub enum Method {
    Head,
    Get,
}

/// The `Accept-Encoding` of every upstream request: the image itself may be
/// gzip, and the server must not put a transport encoding on top of it.
pub const ACCEPT_ENCODING: &'static str = "identity";

/// A request to be sent upstream.
#[derive(Debug)]
pub struct UpstreamRequest {
    pub method: Method,
    pub url: String,
    /// Value of the `Accept-Encoding` header.
    pub accept_encoding: String,
    /// Whether the client that sends the request checks TLS certificates.
    pub ssl_verify: bool,
}

impl UpstreamRequest {
    /// Whether this is a request of `url` by `method`, as the proxy sends it.
    pub open spec fn asks(&self, method: Method, url: Seq<char>, ssl_verify: bool) -> bool {
        &&& self.method == method
        &&& self.url@ == url
        &&& self.accept_encoding@ == ACCEPT_ENCODING@
        &&& self.ssl_verify == ssl_verify
    }

    /// A request of `url` by `method`.
    pub fn new(method: Method, url: &str, ssl_verify: bool) -> (r: UpstreamRequest)
        ensures
            r.asks(method, url@, ssl_verify),
            r.method == method,
            r.url@ == url@,
            r.accept_encoding@ == "identity"@,
            r.ssl_verify == ssl_verify,
    {
        UpstreamRequest {
            method,
            url: url.to_owned(),
            accept_encoding: ACCEPT_ENCODING.to_owned(),
            ssl_verify,
        }
    }
}

/// Whether an upstream status code is a client error or a server error.
pub open spec fn is_error_status(status: u16) -> bool {
    400 <= status < 600
}

/// Whether an upstream status code is a client error or a server error.
pub fn status_is_error(status: u16) -> (r: bool)
    ensures
        r == is_error_status(status),
        r == (400 <= status < 600),
{
    400 <= status && status < 600
}

/// What became of the request for the image.
#[derive(Debug, Clone, Copy, PartialEq, Eq, Structural)]
pub enum FetchOutcome {
    /// No answer came.
    ConnectFailed,
    /// The head of an answer came, with this status code.
    Answered(u16),
}

/// Why the image could not be fetched.
#[derive(Debug, Clone, Copy, PartialEq, Eq, Structural)]
pub enum FetchError {
    /// No answer came.
    Connect,
    /// The answer was a client error or a server error.
    Status,
}

/// What is said where no answer came.
pub const CONNECT_FAILED: &'static str = "Failed to connect to upstream";

/// What is said where an error status came.
pub const STATUS_FAILED: &'static str = "Upstream returned non-2xx status";

impl FetchError {
    /// The error in words.
    pub open spec fn text(self) -> Seq<char> {
        match self {
            FetchError::Connect => CONNECT_FAILED@,
            FetchError::Status => STATUS_FAILED@,
        }
    }

    /// The error in words.
    pub fn message(self) -> (r: &'static str)
        ensures
            r@ == self.text(),
            self is Connect ==> r@ == "Failed to connect to upstream"@,
            self is Status ==> r@ == "Upstream returned non-2xx status"@,
    {
        match self {
            FetchError::Connect => CONNECT_FAILED,
            FetchError::Status => STATUS_FAILED,
        }
    }
}

impl FetchOutcome {
    /// Why the image cannot be had after this outcome, if it cannot.
    pub open spec fn failure(self) -> Option<FetchError> {
        match self {
            FetchOutcome::ConnectFailed => Some(FetchError::Connect),
            FetchOutcome::Answered(status) => if is_error_status(status) {
                Some(FetchError::Status)
            } else {
                None
            },
        }
    }
}

/// The image cannot be had where no answer came, and where one came with a status
/// code from 400 up to 599; with any other status code it can.
pub proof fn law_error_statuses_fail_the_fetch(status: u16)
    ensures
        FetchOutcome::ConnectFailed.failure() == Some(FetchError::Connect),
        FetchOutcome::Answered(status).failure() == Some(FetchError::Status) <==> 400 <= status
            < 600,
        FetchOutcome::Answered(status).failure() is None <==> status < 400 || status >= 600,
{
}

/// A plain image is passed on byte by byte as it came, a compressed one as the
/// decoder has it.
pub proof fn law_format_decides_what_is_passed_on(body: Seq<u8>)
    ensures
        relayed(ImageFormat::Raw, body) == Some(body),
        relayed(ImageFormat::Gzip, body) == gunzipped(body),
{
}

/// What a [`GuardedStream`] knows of the transfer.
pub struct StreamModel {
    pub src_url: Seq<char>,
    pub format: ImageFormat,
    pub bytes_sent: u64,
}

/// A byte stream's share in the import lock.
///
/// It owns the guard of the lock, so that dropping it, however the transfer
/// ended, releases the lock. It also counts the bytes handed on.
pub struct GuardedStream {
    /// Released (lock freed) exactly when this value is dropped.
    _guard: ImportGuard,
    src_url: String,
    format: ImageFormat,
    bytes_sent: u64,
}

impl View for GuardedStream {
    type V = StreamModel;

    closed spec fn view(&self) -> StreamModel {
        StreamModel {
            src_url: self.src_url@,
            format: self.format,
            bytes_sent: self.bytes_sent,
        }
    }
}

/// The byte count after one more item: the count grows by the length of a
/// chunk, wrapping at 2^64, and an error in place of a chunk leaves it.
pub open spec fn counted(count: u64, item: Option<usize>) -> u64 {
    match item {
        Some(len) => ((count + len) % 0x1_0000_0000_0000_0000) as u64,
        None => count,
    }
}

impl GuardedStream {
    /// The guard of the import lock.
    pub closed spec fn guard(&self) -> ImportGuard {
        self._guard
    }

    /// The original upstream URL.
    pub fn src_url(&self) -> (r: &str)
        ensures
            r@ == self@.src_url,
    {
        self.src_url.as_str()
    }

    /// The pipeline that the bytes go through.
    pub fn format(&self) -> (r: ImageFormat)
        ensures
            r == self@.format,
    {
        self.format
    }

    /// The number of bytes handed on so far.
    pub fn bytes_sent(&self) -> (r: u64)
        ensures
            r == self@.bytes_sent,
    {
        self.bytes_sent
    }

    /// Takes note of an item that is handed on: a chunk of the given length, or
    /// an error.
    pub fn record(&mut self, item: Option<usize>)
        ensures
            final(self)@ == (StreamModel {
                bytes_sent: counted(old(self)@.bytes_sent, item),
                ..old(self)@
            }),
            final(self).guard() == old(self).guard(),
            final(self)@.src_url == old(self)@.src_url,
            final(self)@.format == old(self)@.format,
            item is None ==> final(self)@.bytes_sent == old(self)@.bytes_sent,
            item matches Some(len) ==> final(self)@.bytes_sent == (old(self)@.bytes_sent + len)
                % 0x1_0000_0000_0000_0000,
    {
        if let Some(len) = item {
            self.bytes_sent = self.bytes_sent.wrapping_add(len as u64);
        }
    }
}

/// Turns the outcome of the request for the image into the stream that will
/// relay it, which from then on owns the import lock. Where the image cannot be
/// had the guard is dropped, and with it the lock.
pub fn fetch_xva_stream(
    src_url: &str,
    format: ImageFormat,
    outcome: FetchOutcome,
    guard: ImportGuard,
) -> (r: Result<GuardedStream, FetchError>)
    ensures
        match outcome.failure() {
            Some(e) => r == Err::<GuardedStream, FetchError>(e),
            None => r matches Ok(s) && s@ == (StreamModel {
                src_url: src_url@,
                format,
                bytes_sent: 0,
            }) && s.guard() == guard,
        },
        outcome is ConnectFailed ==> r == Err::<GuardedStream, FetchError>(FetchError::Connect),
        outcome matches FetchOutcome::Answered(status) ==> {
            &&& r == Err::<GuardedStream, FetchError>(FetchError::Status) <==> 400 <= status < 600
            &&& r is Ok <==> status < 400 || status >= 600
        },
        r matches Ok(s) ==> {
            &&& s@.src_url == src_url@
            &&& s@.format == format
            &&& s@.bytes_sent == 0
            &&& s.guard() == guard
        },
{
    match outcome {
        FetchOutcome::ConnectFailed => Err(FetchError::Connect),
        FetchOutcome::Answered(status) => {
            if status_is_error(status) {
                Err(FetchError::Status)
            } else {
                Ok(GuardedStream {
                    _guard: guard,
                    src_url: src_url.to_owned(),
                    format,
                    bytes_sent: 0,
                })
            }
        },
    }
}

/// What async-compression's gzip decoder makes of `data`: the content of its
/// first gzip member, or nothing where that member is broken or cut short.
pub uninterp spec fn gunzipped(data: Seq<u8>) -> Option<Seq<u8>>;

/// Decompresses a gzip file held in memory by reading
/// `async_compression::tokio::bufread::GzipDecoder` to its end.
///
/// Relied on: reading from memory never waits, and the outcome (the bytes, or
/// failure) is a function of the compressed bytes. Which error a broken file
/// gives is left unsaid.
#[verifier::external_body]
fn gunzip(data: &[u8]) -> (r: Option<Vec<u8>>)
    ensures
        gunzipped(data@) == match r {
            Some(content) => Some(content@),
            None => None,
        },
{
    let mut content: Vec<u8> = Vec::new();
    let mut decoder = async_compression::tokio::bufread::GzipDecoder::new(data);
    let read = decoder.read_to_end(&mut content).now_or_never();
    read.and_then(|outcome| outcome.ok()).map(|_| content)
}

/// A compressed image that cannot be decompressed.
#[derive(Debug, Clone, Copy, PartialEq, Eq, Structural)]
pub struct CorruptImage;

/// The image that is owed to the caller when the upstream sends `body`: a plain
/// image as it is, a compressed one decompressed.
pub open spec fn relayed(format: ImageFormat, body: Seq<u8>) -> Option<Seq<u8>> {
    match format {
        ImageFormat::Raw => Some(body),
        ImageFormat::Gzip => gunzipped(body),
    }
}

/// The outcome of decompressing an image.
pub fn decompressed(content: Option<Vec<u8>>) -> (r: Result<Vec<u8>, CorruptImage>)
    ensures
        match content {
            Some(image) => r == Ok::<Vec<u8>, CorruptImage>(image),
            None => r == Err::<Vec<u8>, CorruptImage>(CorruptImage),
        },
{
    match content {
        Some(image) => Ok(image),
        None => Err(CorruptImage),
    }
}

/// The image that is owed to the caller when the upstream sends `body`, for a body
/// that is held in memory. A body that is too large for that is streamed through
/// the same decoder outside this library.
pub fn relay_image(format: ImageFormat, body: Vec<u8>) -> (r: Result<Vec<u8>, CorruptImage>)
    ensures
        match relayed(format, body@) {
            Some(image) => r matches Ok(v) && v@ == image,
            None => r == Err::<Vec<u8>, CorruptImage>(CorruptImage),
        },
        format == ImageFormat::Raw ==> r == Ok::<Vec<u8>, CorruptImage>(body),
        format == ImageFormat::Gzip ==> match gunzipped(body@) {
            Some(image) => r matches Ok(v) && v@ == image,
            None => r == Err::<Vec<u8>, CorruptImage>(CorruptImage),
        },
{
    match format {
        ImageFormat::Raw => Ok(body),
        ImageFormat::Gzip => decompressed(gunzip(body.as_slice())),
    }
}

/// The byte count after a run of items.
pub open spec fn count_of(items: Seq<Option<usize>>) -> u64
    decreases items.len(),
{
    if items.len() == 0 {
        0
    } else {
        counted(count_of(items.drop_last()), items.last())
    }
}

/// The lengths of the chunks in a run of items, added up.
pub open spec fn total_len(items: Seq<Option<usize>>) -> nat
    decreases items.len(),
{
    if items.len() == 0 {
        0
    } else {
        total_len(items.drop_last()) + match items.last() {
            Some(len) => len as nat,
            None => 0,
        }
    }
}

/// The byte count is the number of bytes handed on, modulo 2^64, whatever
/// errors stand between the chunks.
pub proof fn law_count_is_bytes_handed_on(items: Seq<Option<usize>>)
    ensures
        count_of(items) == total_len(items) % 0x1_0000_0000_0000_0000,
    decreases items.len(),
{
    if items.len() > 0 {
        law_count_is_bytes_handed_on(items.drop_last());
    }
}

} // verus!
