//! The serving process's network coordinates and their builder.
//!
//! The listening loop itself — socket binding, request parsing, response
//! writing — is input/output and lives outside the library; what is kept
//! here is the configuration value it starts from and the defaulting rules
//! of its builder.

use vstd::prelude::*;

verus! {

/// Where the serving process listens: a host name and a port.
pub struct Server {
    pub host: String,
    pub port: u16,
}

impl Server {
    /// A builder with neither host nor port chosen yet.
    pub fn builder() -> (r: ServerBuilder)
        ensures
            r.host is None,
            r.port is None,
    {
        ServerBuilder { host: None, port: None }
    }
}

/// Collects the optional host and port choices for a `Server`; `build`
/// fills what was left unchosen with the defaults.
pub struct ServerBuilder {
    pub host: Option<String>,
    pub port: Option<u16>,
}

impl ServerBuilder {
    /// Choose the host, keeping the port choice.
    pub fn host(self, value: String) -> (r: ServerBuilder)
        ensures
            r.host == Some(value),
            r.port == self.port,
    {
        ServerBuilder { host: Some(value), port: self.port }
    }

    /// Choose the port, keeping the host choice.
    pub fn port(self, value: u16) -> (r: ServerBuilder)
        ensures
            r.port == Some(value),
            r.host == self.host,
    {
        ServerBuilder { host: self.host, port: Some(value) }
    }

    /// The configured server: a chosen host and port are kept, an unchosen
    /// host defaults to `localhost` and an unchosen port to 8080.
    pub fn build(self) -> (r: Server)
        ensures
            (self.host matches Some(h) ==> r.host == h),
            self.host is None ==> r.host@ == "localhost"@,
            (self.port matches Some(p) ==> r.port == p),
            self.port is None ==> r.port == 8080,
    {
        let host = match self.host {
            Some(h) => h,
            None => "localhost".to_owned(),
        };
        let port = match self.port {
            Some(p) => p,
            None => 8080,
        };
        Server { host, port }
    }
}

} // verus!
