use vstd::prelude::*;
use crate::text::{decimal, decimal_text};

verus! {

/// The port of the remote service when the configuration names none.
pub const DEFAULT_PORT: u16 = 50051;

/// Where the remote service listens; either part may be absent.
#[derive(Debug, Clone)]
pub struct GrpcConfig {
    pub host: Option<String>,
    pub port: Option<u16>,
}

/// The client's configuration.
#[derive(Debug, Clone)]
pub struct Config {
    pub grpc: GrpcConfig,
}

/// The host to reach: the configured one, else `localhost`.
pub open spec fn host_of(c: GrpcConfig) -> Seq<char> {
    match c.host {
        Some(h) => h@,
        None => "localhost"@,
    }
}

/// The port to reach: the configured one, else the default.
pub open spec fn port_of(c: GrpcConfig) -> u16 {
    match c.port {
        Some(p) => p,
        None => DEFAULT_PORT,
    }
}

/// The address of the remote service, `http://<host>:<port>`.
pub open spec fn endpoint_of(c: GrpcConfig) -> Seq<char> {
    "http://"@ + host_of(c) + ":"@ + decimal(port_of(c) as nat)
}

impl Config {
    /// The address to connect to, with `localhost` and the default port
    /// standing in for absent values.
    pub fn endpoint(&self) -> (r: String)
        ensures
            r@ == endpoint_of(self.grpc),
    {
        let mut r = String::from_str("http://");
        match &self.grpc.host {
            Some(h) => r.append(h.as_str()),
            None => r.append("localhost"),
        }
        r.append(":");
        let port = match self.grpc.port {
            Some(p) => p,
            None => DEFAULT_PORT,
        };
        let digits = decimal_text(port as u64);
        r.append(digits.as_str());
        proof {
            reveal_strlit("http://");
            reveal_strlit("localhost");
            reveal_strlit(":");
            assert(r@ =~= endpoint_of(self.grpc));
        }
        r
    }
}

} // verus!
