//! The proxy's configuration, fixed at startup.

use vstd::prelude::*;

verus! {

/// The port the proxy listens on where none is given.
pub const DEFAULT_SERVER_PORT: u16 = 4000;

/// What the proxy is started with. Nothing changes it afterwards.
pub struct Config {
    /// Local port to listen on.
    pub server_port: u16,
    /// Base address of the upstream, such as `http://127.0.0.1:8888`.
    pub host: String,
    /// Header names to allow across origins, comma-separated, passed on as given.
    pub allow_headers: Option<String>,
}

impl Config {
    /// Resolves startup parameters: a missing port falls back to
    /// [`DEFAULT_SERVER_PORT`], the other two are taken as they are.
    pub fn new(server_port: Option<u16>, host: String, allow_headers: Option<String>) -> (r: Config)
        ensures
            r.server_port == (match server_port {
                Some(p) => p,
                None => DEFAULT_SERVER_PORT,
            }),
            r.host == host,
            r.allow_headers == allow_headers,
    {
        let port: u16 = match server_port {
            Some(p) => p,
            None => DEFAULT_SERVER_PORT,
        };
        Config { server_port: port, host, allow_headers }
    }
}

} // verus!
