//! Configuration, fixed once at startup.

use vstd::prelude::*;
use vstd::string::*;

use crate::text::{join, numeral};

verus! {

/// The port that is listened on unless another one is configured. It avoids
/// clashes with Vite dev (3000) and XAPI (443/80).
pub const DEFAULT_PORT: u16 = 9001;

/// The address that is bound unless another one is configured: XAPI is
/// co-located, so there is no reason to be reachable from the network.
pub const DEFAULT_BIND: &'static str = "127.0.0.1";

/// Where the proxy listens.
#[derive(Debug, Clone)]
pub struct Config {
    /// TCP port to listen on.
    pub port: u16,
    /// Address to bind to.
    pub bind: String,
}

/// The text `bind:port`.
pub open spec fn socket_address(bind: Seq<char>, port: u16) -> Seq<char> {
    bind + ":"@ + crate::text::decimal(port as nat)
}

impl Default for Config {
    fn default() -> (r: Config)
        ensures
            r.port == DEFAULT_PORT,
            r.bind@ == DEFAULT_BIND@,
            r.port == 9001,
            r.bind@ == "127.0.0.1"@,
    {
        Config { port: DEFAULT_PORT, bind: DEFAULT_BIND.to_owned() }
    }
}

impl Config {
    /// The address to listen on, as `bind:port`.
    pub fn listen_addr(&self) -> (r: String)
        ensures
            r@ == socket_address(self.bind@, self.port),
            r@ == self.bind@ + ":"@ + crate::text::decimal(self.port as nat),
    {
        let mut r = join(self.bind.as_str(), ":");
        r.append(numeral(self.port).as_str());
        r
    }
}

} // verus!
