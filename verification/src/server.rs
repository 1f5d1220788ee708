//! HTTP server configuration; the server itself is not implemented.

use vstd::prelude::*;

verus! {

/// Server configuration.
#[derive(Debug, Clone)]
pub struct ServerConfig {
    /// Host address.
    pub host: String,
    /// Port number.
    pub port: u16,
}

impl Default for ServerConfig {
    fn default() -> (c: ServerConfig)
        ensures
            c.host@ == "127.0.0.1"@,
            c.port == 3000,
    {
        ServerConfig { host: String::from_str("127.0.0.1"), port: 3000 }
    }
}

/// Start the HTTP server: not implemented, so it always refuses.
pub fn start_server(_config: ServerConfig) -> (r: Result<(), String>)
    ensures
        r matches Err(m) && m@ == "HTTP server not implemented"@,
{
    Err(String::from_str("HTTP server not implemented"))
}

} // verus!
