//! The state that all requests share: two HTTP clients and the import lock.

use std::sync::Arc;

use vstd::prelude::*;

use crate::client::{build_with, ClientModel, ClientSettings, UpstreamClient};
use crate::lock::{attempt, new_lock, ImportGuard};

verus! {

/// The `User-Agent` of every upstream request.
pub const USER_AGENT: &'static str = "xoa-lite-proxy/1.0";

impl ClientModel {
    /// What the client is built with that checks certificates or does not.
    pub open spec fn of(ssl_verify: bool) -> ClientModel {
        ClientModel {
            user_agent: USER_AGENT@,
            accept_invalid_certs: !ssl_verify,
            auto_decompress: false,
        }
    }
}

/// A client that is asked to check certificates accepts no invalid ones, one that
/// is not asked accepts them; neither decompresses anything by itself.
pub proof fn law_client_is_as_asked_for(ssl_verify: bool)
    ensures
        ClientModel::of(ssl_verify).accept_invalid_certs != ssl_verify,
        !ClientModel::of(ssl_verify).auto_decompress,
        ClientModel::of(ssl_verify).user_agent == "xoa-lite-proxy/1.0"@,
{
}

/// What the client is built with that checks certificates or does not.
pub fn client_settings(ssl_verify: bool) -> (r: ClientSettings)
    ensures
        r@ == ClientModel::of(ssl_verify),
        r.user_agent@ == "xoa-lite-proxy/1.0"@,
        r.accept_invalid_certs == !ssl_verify,
        !r.auto_decompress,
{
    ClientSettings {
        user_agent: USER_AGENT.to_owned(),
        accept_invalid_certs: !ssl_verify,
        auto_decompress: false,
    }
}

/// A client that could not be built.
#[derive(Debug)]
pub struct ClientError {
    pub source: reqwest::Error,
}

/// What is said of a client that could not be built.
pub const CLIENT_FAILED: &'static str = "Failed to build HTTP client";

impl ClientError {
    /// The error in words.
    pub fn message(&self) -> (r: &'static str)
        ensures
            r@ == CLIENT_FAILED@,
            r@ == "Failed to build HTTP client"@,
    {
        CLIENT_FAILED
    }
}

/// What is made of reqwest's answer to the attempt to build a client.
pub fn client_or_error(built: Result<UpstreamClient, reqwest::Error>) -> (r: Result<
    UpstreamClient,
    ClientError,
>)
    ensures
        match built {
            Ok(c) => r == Ok::<UpstreamClient, ClientError>(c),
            Err(e) => r == Err::<UpstreamClient, ClientError>((ClientError { source: e })),
        },
{
    match built {
        Ok(c) => Ok(c),
        Err(e) => Err(ClientError { source: e }),
    }
}

/// Builds an HTTP client that checks TLS certificates, or one that does not.
///
/// Whether it succeeds is up to the machine; a client that comes back checks
/// certificates exactly where that was asked for.
pub fn build_client(ssl_verify: bool) -> (r: Result<UpstreamClient, ClientError>)
    ensures
        r matches Ok(c) ==> c@ == ClientModel::of(ssl_verify),
        r matches Ok(c) ==> {
            &&& c@.user_agent == "xoa-lite-proxy/1.0"@
            &&& c@.accept_invalid_certs == !ssl_verify
            &&& !c@.auto_decompress
        },
{
    client_or_error(build_with(client_settings(ssl_verify)))
}

/// The shared state.
pub struct AppState {
    /// The client for upstreams whose certificates are checked (default).
    client_verify: UpstreamClient,
    /// The client for upstreams with self-signed certificates or a private CA.
    /// It has its own connection pool.
    client_no_verify: UpstreamClient,
    /// At most one XVA stream may be active at a time: XAPI's `VM.import` is not
    /// designed for concurrent image download. The lock is held for the whole
    /// duration of the body transfer.
    import_lock: Arc<tokio::sync::Mutex<()>>,
}

/// Why the shared state could not be set up.
#[derive(Debug)]
pub enum StartupError {
    /// The client that checks certificates could not be built.
    Verifying(ClientError),
    /// The client that does not check certificates could not be built.
    NonVerifying(ClientError),
}

/// What is said where the client that checks certificates is missing.
pub const VERIFYING_FAILED: &'static str = "Failed to build TLS-verifying HTTP client";

/// What is said where the client that does not check certificates is missing.
pub const NON_VERIFYING_FAILED: &'static str = "Failed to build TLS-non-verifying HTTP client";

impl StartupError {
    /// The error in words.
    pub open spec fn text(&self) -> Seq<char> {
        match self {
            StartupError::Verifying(_) => VERIFYING_FAILED@,
            StartupError::NonVerifying(_) => NON_VERIFYING_FAILED@,
        }
    }

    /// The error in words.
    pub fn message(&self) -> (r: &'static str)
        ensures
            r@ == self.text(),
            self is Verifying ==> r@ == "Failed to build TLS-verifying HTTP client"@,
            self is NonVerifying ==> r@ == "Failed to build TLS-non-verifying HTTP client"@,
    {
        match self {
            StartupError::Verifying(_) => VERIFYING_FAILED,
            StartupError::NonVerifying(_) => NON_VERIFYING_FAILED,
        }
    }
}

impl AppState {
    /// Each client checks certificates or does not, as its place says.
    #[verifier::type_invariant]
    spec fn clients_in_place(self) -> bool {
        &&& self.client_verify@ == ClientModel::of(true)
        &&& self.client_no_verify@ == ClientModel::of(false)
    }

    /// The client that serves requests which ask for certificate checks, or the
    /// one that serves the others.
    pub closed spec fn client(&self, ssl_verify: bool) -> UpstreamClient {
        if ssl_verify {
            self.client_verify
        } else {
            self.client_no_verify
        }
    }

    /// Puts together the state from what became of the two clients; the first
    /// that failed decides the error.
    pub fn assemble(
        client_verify: Result<UpstreamClient, ClientError>,
        client_no_verify: Result<UpstreamClient, ClientError>,
    ) -> (r: Result<AppState, StartupError>)
        requires
            client_verify matches Ok(c) ==> c@ == ClientModel::of(true),
            client_no_verify matches Ok(c) ==> c@ == ClientModel::of(false),
        ensures
            match (client_verify, client_no_verify) {
                (Err(e), _) => r == Err::<AppState, StartupError>(StartupError::Verifying(e)),
                (Ok(_), Err(e)) => r == Err::<AppState, StartupError>(
                    StartupError::NonVerifying(e),
                ),
                (Ok(a), Ok(b)) => r matches Ok(state) && state.client(true) == a && state.client(
                    false,
                ) == b,
            },
    {
        match client_verify {
            Err(e) => Err(StartupError::Verifying(e)),
            Ok(client_verify) => match client_no_verify {
                Err(e) => Err(StartupError::NonVerifying(e)),
                Ok(client_no_verify) => Ok(
                    AppState { client_verify, client_no_verify, import_lock: new_lock() },
                ),
            },
        }
    }

    /// Builds both clients and a fresh import lock. Whether it succeeds is up to
    /// the machine: each client, and each error, is one that [`build_client`] gave.
    pub fn new() -> (r: Result<AppState, StartupError>)
        ensures
            r matches Ok(state) ==> forall|ssl_verify: bool|
                (#[trigger] state.client(ssl_verify))@ == ClientModel::of(ssl_verify),
            r matches Ok(state) ==> forall|ssl_verify: bool|
                (#[trigger] state.client(ssl_verify))@.accept_invalid_certs == !ssl_verify
                    && !state.client(ssl_verify)@.auto_decompress,
            r matches Ok(state) ==> forall|ssl_verify: bool|
                call_ensures(
                    build_client,
                    (ssl_verify,),
                    Ok::<UpstreamClient, ClientError>(#[trigger] state.client(ssl_verify)),
                ),
            r matches Err(StartupError::Verifying(e)) ==> call_ensures(
                build_client,
                (true,),
                Err::<UpstreamClient, ClientError>(e),
            ),
            r matches Err(StartupError::NonVerifying(e)) ==> call_ensures(
                build_client,
                (false,),
                Err::<UpstreamClient, ClientError>(e),
            ) && exists|built: Result<UpstreamClient, ClientError>| #[trigger]
                call_ensures(build_client, (true,), built) && built is Ok,
    {
        let build = build_client;
        let client_verify = build(true);
        let client_no_verify = build(false);
        AppState::assemble(client_verify, client_no_verify)
    }

    /// The client for a request that asks for certificate checks, or waives them.
    pub fn client_for(&self, ssl_verify: bool) -> (r: &UpstreamClient)
        ensures
            *r == self.client(ssl_verify),
            r@ == ClientModel::of(ssl_verify),
            r@.user_agent == "xoa-lite-proxy/1.0"@,
            r@.accept_invalid_certs == !ssl_verify,
            !r@.auto_decompress,
    {
        proof {
            use_type_invariant(self);
        }
        if ssl_verify {
            &self.client_verify
        } else {
            &self.client_no_verify
        }
    }

    /// The import lock that all requests share.
    pub closed spec fn lock(&self) -> Arc<tokio::sync::Mutex<()>> {
        self.import_lock
    }

    /// Attempts to take the import lock that all requests share, without waiting.
    ///
    /// Whether the lock is free depends on the imports that are running; what is
    /// made of either outcome says [`crate::handler::Locking::resume`].
    pub fn try_import_lock(&self) -> (r: Option<ImportGuard>)
        ensures
            r matches Some(g) ==> g.lock() == self.lock(),
            crate::lock::attempted(self.lock(), r),
    {
        attempt(&self.import_lock)
    }
}

} // verus!
