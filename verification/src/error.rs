//! The ways in which a request can fail, and how each one is answered.

use vstd::prelude::*;

use crate::text::join;

verus! {

/// The body of the answer to a request that finds another import running.
pub const IMPORT_IN_PROGRESS: &'static str =
    "An import is already in progress. Only one concurrent import is allowed.";

/// What precedes the reason in the body of the answer to a failed probe.
pub const PROBE_FAILED: &'static str =
    "Format probe failed — could not determine image type: ";

/// A request that is answered with an error.
#[derive(Debug)]
pub enum ProxyError {
    /// The caller omitted a required parameter or sent a bad value.
    BadRequest(String),
    /// The path is not recognised.
    NotFound(String),
    /// Another XVA import is already streaming; only one is allowed.
    ImportInProgress,
    /// The upstream HTTP(S) fetch failed.
    UpstreamFailed(String),
    /// The HEAD probe that detects the image format failed: the URL extension
    /// is ambiguous and the request could not be completed (network error,
    /// upstream answered 4xx or 5xx).
    ProbeFailed(String),
}

/// A [`ProxyError`] with its texts as sequences of characters.
pub enum ProxyErrorModel {
    BadRequest(Seq<char>),
    NotFound(Seq<char>),
    ImportInProgress,
    UpstreamFailed(Seq<char>),
    ProbeFailed(Seq<char>),
}

impl View for ProxyError {
    type V = ProxyErrorModel;

    open spec fn view(&self) -> ProxyErrorModel {
        match self {
            ProxyError::BadRequest(msg) => ProxyErrorModel::BadRequest(msg@),
            ProxyError::NotFound(msg) => ProxyErrorModel::NotFound(msg@),
            ProxyError::ImportInProgress => ProxyErrorModel::ImportInProgress,
            ProxyError::UpstreamFailed(msg) => ProxyErrorModel::UpstreamFailed(msg@),
            ProxyError::ProbeFailed(msg) => ProxyErrorModel::ProbeFailed(msg@),
        }
    }
}

impl ProxyErrorModel {
    /// The HTTP status code of the answer.
    pub open spec fn status(self) -> u16 {
        match self {
            ProxyErrorModel::BadRequest(_) => 400,
            ProxyErrorModel::NotFound(_) => 404,
            ProxyErrorModel::ImportInProgress => 409,
            ProxyErrorModel::UpstreamFailed(_) => 502,
            ProxyErrorModel::ProbeFailed(_) => 502,
        }
    }

    /// The body of the answer.
    pub open spec fn body(self) -> Seq<char> {
        match self {
            ProxyErrorModel::BadRequest(msg) => msg,
            ProxyErrorModel::NotFound(msg) => msg,
            ProxyErrorModel::ImportInProgress => IMPORT_IN_PROGRESS@,
            ProxyErrorModel::UpstreamFailed(msg) => msg,
            ProxyErrorModel::ProbeFailed(msg) => PROBE_FAILED@ + msg,
        }
    }

    /// Whether the proxy stood between the caller and a failing upstream.
    pub open spec fn is_gateway_failure(self) -> bool {
        self is UpstreamFailed || self is ProbeFailed
    }

    /// Whether two errors are of the same variant.
    pub open spec fn same_kind(self, other: ProxyErrorModel) -> bool {
        ||| self is BadRequest && other is BadRequest
        ||| self is NotFound && other is NotFound
        ||| self is ImportInProgress && other is ImportInProgress
        ||| self is UpstreamFailed && other is UpstreamFailed
        ||| self is ProbeFailed && other is ProbeFailed
    }
}

/// The answer to a failed request: a status code and a plain-text body.
#[derive(Debug)]
pub struct ErrorResponse {
    pub status: u16,
    pub body: String,
}

impl ProxyError {
    /// The answer to the request that failed in this way.
    pub fn into_response(self) -> (r: ErrorResponse)
        ensures
            r.status == self@.status(),
            r.body@ == self@.body(),
            match self {
                ProxyError::BadRequest(msg) => r.status == 400 && r.body@ == msg@,
                ProxyError::NotFound(msg) => r.status == 404 && r.body@ == msg@,
                ProxyError::ImportInProgress => r.status == 409 && r.body@
                    == "An import is already in progress. Only one concurrent import is allowed."@,
                ProxyError::UpstreamFailed(msg) => r.status == 502 && r.body@ == msg@,
                ProxyError::ProbeFailed(msg) => r.status == 502 && r.body@
                    == "Format probe failed — could not determine image type: "@ + msg@,
            },
    {
        match self {
            ProxyError::BadRequest(msg) => ErrorResponse { status: 400, body: msg },
            ProxyError::NotFound(msg) => ErrorResponse { status: 404, body: msg },
            ProxyError::ImportInProgress => ErrorResponse {
                status: 409,
                body: IMPORT_IN_PROGRESS.to_owned(),
            },
            ProxyError::UpstreamFailed(msg) => ErrorResponse { status: 502, body: msg },
            ProxyError::ProbeFailed(msg) => ErrorResponse {
                status: 502,
                body: join(PROBE_FAILED, msg.as_str()),
            },
        }
    }
}

/// A model has the variant of its error and the same text.
pub proof fn law_model_keeps_kind_and_text(e: ProxyError)
    ensures
        e matches ProxyError::BadRequest(msg) ==> e@ == ProxyErrorModel::BadRequest(msg@),
        e matches ProxyError::NotFound(msg) ==> e@ == ProxyErrorModel::NotFound(msg@),
        e is ImportInProgress ==> e@ == ProxyErrorModel::ImportInProgress,
        e matches ProxyError::UpstreamFailed(msg) ==> e@ == ProxyErrorModel::UpstreamFailed(msg@),
        e matches ProxyError::ProbeFailed(msg) ==> e@ == ProxyErrorModel::ProbeFailed(msg@),
{
}

/// A bad request is answered with 400, an unknown path with 404, a second import
/// with 409, and whatever the upstream is to blame for with 502; every text is
/// passed on, that of a failed probe behind the words that say what failed.
pub proof fn law_what_each_error_is_answered_with(msg: Seq<char>)
    ensures
        ProxyErrorModel::BadRequest(msg).status() == 400,
        ProxyErrorModel::BadRequest(msg).body() == msg,
        ProxyErrorModel::NotFound(msg).status() == 404,
        ProxyErrorModel::NotFound(msg).body() == msg,
        ProxyErrorModel::ImportInProgress.status() == 409,
        ProxyErrorModel::ImportInProgress.body()
            == "An import is already in progress. Only one concurrent import is allowed."@,
        ProxyErrorModel::UpstreamFailed(msg).status() == 502,
        ProxyErrorModel::UpstreamFailed(msg).body() == msg,
        ProxyErrorModel::ProbeFailed(msg).status() == 502,
        ProxyErrorModel::ProbeFailed(msg).body()
            == "Format probe failed — could not determine image type: "@ + msg,
{
}

/// Errors of different variants are answered with different status codes,
/// except that both upstream failures are answered with one and the same.
pub proof fn law_status_tells_kinds_apart(a: ProxyErrorModel, b: ProxyErrorModel)
    ensures
        a.status() == b.status() <==> a.same_kind(b) || (a.is_gateway_failure()
            && b.is_gateway_failure()),
{
}

/// Every error is answered with a 4xx or 5xx status code, and it is 5xx exactly
/// where the upstream is to blame.
pub proof fn law_errors_are_answered_as_errors(e: ProxyErrorModel)
    ensures
        400 <= e.status() < 600,
        e.status() >= 500 <==> e.is_gateway_failure(),
{
}

/// The reason that an error carries stands at the end of the body it is
/// answered with.
pub proof fn law_body_ends_with_reason(reason: Seq<char>)
    ensures
        reason.is_suffix_of(ProxyErrorModel::BadRequest(reason).body()),
        reason.is_suffix_of(ProxyErrorModel::NotFound(reason).body()),
        reason.is_suffix_of(ProxyErrorModel::UpstreamFailed(reason).body()),
        reason.is_suffix_of(ProxyErrorModel::ProbeFailed(reason).body()),
{
}

} // verus!
