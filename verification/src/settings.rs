//! The server's settings: where it listens, how long it waits between
//! connections, and how many failed logins an address may have.

use vstd::prelude::*;

verus! {

/// Where the server listens.
#[derive(Debug, Clone)]
pub struct Network {
    pub ip_address: String,
    pub port: String,
}

/// The limits the server applies to its clients.
#[derive(Debug, Clone)]
pub struct Security {
    /// Milliseconds the server waits after accepting a connection.
    pub response_time: u64,
    /// Failed logins after which an address is refused.
    pub login_trys: u32,
}

/// The server's settings, as its settings file holds them.
#[derive(Debug, Clone)]
pub struct Settings {
    pub network: Network,
    pub securtiy: Security,
}

/// `host:port`.
pub open spec fn address_text(host: Seq<char>, port: Seq<char>) -> Seq<char> {
    host + ":"@ + port
}

impl Settings {
    /// The address the server listens on: `ip_address:port`.
    pub fn listen_address(&self) -> (r: String)
        ensures
            r@ == address_text(self.network.ip_address@, self.network.port@),
    {
        let mut a = String::from_str(self.network.ip_address.as_str());
        a.append(":");
        a.append(self.network.port.as_str());
        a
    }

    /// Whether an address with `false_attempts` failed logins is refused:
    /// it has used up its `login_trys`.
    pub fn blocks(&self, false_attempts: u32) -> (r: bool)
        ensures
            r == (false_attempts >= self.securtiy.login_trys),
    {
        false_attempts >= self.securtiy.login_trys
    }
}

} // verus!
