//! An HTTP client that is known by the settings it was built with.
//!
//! Nothing but [`build_with`] makes an [`UpstreamClient`], and no other module can
//! take one apart: the client and its settings stay together.

use vstd::prelude::*;

verus! {

/// reqwest's HTTP client. Nothing inside it is known.
#[verifier::external_type_specification]
#[verifier::external_body]
pub struct ExClient(reqwest::Client);

/// The error with which reqwest refuses to build a client.
#[verifier::external_type_specification]
#[verifier::external_body]
pub struct ExReqwestError(reqwest::Error);

/// What an HTTP client is built with.
#[derive(Debug)]
pub struct ClientSettings {
    /// Value of the `User-Agent` header.
    pub user_agent: String,
    /// Whether certificates and host names go unchecked.
    pub accept_invalid_certs: bool,
    /// Whether the client decompresses answers by itself. A compressed image is
    /// gzip by content, not by transport encoding, and must arrive as it is.
    pub auto_decompress: bool,
}

/// A [`ClientSettings`] with its text as a sequence of characters.
pub struct ClientModel {
    pub user_agent: Seq<char>,
    pub accept_invalid_certs: bool,
    pub auto_decompress: bool,
}

impl View for ClientSettings {
    type V = ClientModel;

    open spec fn view(&self) -> ClientModel {
        ClientModel {
            user_agent: self.user_agent@,
            accept_invalid_certs: self.accept_invalid_certs,
            auto_decompress: self.auto_decompress,
        }
    }
}

/// A model holds what its settings hold.
pub proof fn law_model_keeps_settings(settings: ClientSettings)
    ensures
        settings@.user_agent == settings.user_agent@,
        settings@.accept_invalid_certs == settings.accept_invalid_certs,
        settings@.auto_decompress == settings.auto_decompress,
{
}

/// An HTTP client together with the settings that it was built with.
pub struct UpstreamClient {
    settings: ClientSettings,
    client: reqwest::Client,
}

impl View for UpstreamClient {
    type V = ClientModel;

    closed spec fn view(&self) -> ClientModel {
        self.settings@
    }
}

impl UpstreamClient {
    /// The client itself.
    pub closed spec fn inner(&self) -> reqwest::Client {
        self.client
    }

    /// The client itself, to send requests with.
    pub fn http(&self) -> (r: &reqwest::Client)
        ensures
            *r == self.inner(),
    {
        &self.client
    }

    /// Whether the client checks TLS certificates and host names.
    pub fn verifies_certificates(&self) -> (r: bool)
        ensures
            r == !self@.accept_invalid_certs,
    {
        !self.settings.accept_invalid_certs
    }
}

/// Builds a client by `reqwest::ClientBuilder::build`, with the given user agent
/// and certificate checks, and with reqwest's own gzip, deflate and brotli
/// decompression switched off (its zstd support is not compiled in).
///
/// Relied on: a client that comes back was built with these settings. Whether
/// one comes back depends on the machine (its TLS backend and resolver).
#[verifier::external_body]
pub(crate) fn build_with(settings: ClientSettings) -> (r: Result<UpstreamClient, reqwest::Error>)
    requires
        !settings.auto_decompress,
    ensures
        r matches Ok(c) ==> c@ == settings@,
{
    let built = reqwest::Client::builder()
        .user_agent(settings.user_agent.as_str())
        .no_gzip()
        .no_deflate()
        .no_brotli()
        .danger_accept_invalid_certs(settings.accept_invalid_certs)
        .build();
    match built {
        Ok(client) => Ok(UpstreamClient { settings, client }),
        Err(e) => Err(e),
    }
}

} // verus!
