//! How to reach a cluster: its endpoints, their TLS material, the
//! credentials and the timeouts of the connection.
use vstd::prelude::*;

use crate::auth::AuthenticateRequest;

verus! {

/// The TLS material of an endpoint, as PEM bytes.
#[derive(Debug, Clone)]
pub struct TlsConfig {
    pub domain_name: String,
    pub ca_cert: Vec<u8>,
    pub client_cert: Vec<u8>,
    pub client_key: Vec<u8>,
}

/// An endpoint of the cluster: its URL, and its TLS material when the
/// connection is encrypted.
#[derive(Debug, Clone)]
pub struct Endpoint {
    pub url: String,
    pub tls: Option<TlsConfig>,
}

impl Endpoint {
    /// Creates a plain endpoint at `url`.
    pub fn new(url: String) -> (r: Self)
        ensures
            r == (Endpoint { url, tls: None }),
    {
        Endpoint { url, tls: None }
    }

    /// The endpoint, encrypted with a CA certificate and a client identity,
    /// each given as PEM bytes, for the server name `domain_name`.
    pub fn tls_raw(
        self,
        domain_name: String,
        ca_cert: Vec<u8>,
        client_cert: Vec<u8>,
        client_key: Vec<u8>,
    ) -> (r: Self)
        ensures
            r == (Endpoint {
                url: self.url,
                tls: Some(TlsConfig { domain_name, ca_cert, client_cert, client_key }),
            }),
    {
        Endpoint {
            url: self.url,
            tls: Some(TlsConfig { domain_name, ca_cert, client_cert, client_key }),
        }
    }
}

/// The time to wait for a connection by default, in milliseconds.
pub const DEFAULT_CONNECT_TIMEOUT_MS: u64 = 30000;

/// The interval of HTTP/2 keep-alive pings by default, in milliseconds.
pub const DEFAULT_KEEP_ALIVE_INTERVAL_MS: u64 = 5000;

/// How to connect to a cluster.
#[derive(Debug, Clone)]
pub struct ClientConfig {
    pub endpoints: Vec<Endpoint>,
    pub auth: Option<(String, String)>,
    pub connect_timeout_ms: u64,
    pub http2_keep_alive_interval_ms: u64,
}

impl ClientConfig {
    /// Creates a configuration for `endpoints`, without credentials and with
    /// the default timeouts.
    pub fn new(endpoints: Vec<Endpoint>) -> (r: Self)
        ensures
            r == (ClientConfig {
                endpoints,
                auth: None,
                connect_timeout_ms: DEFAULT_CONNECT_TIMEOUT_MS,
                http2_keep_alive_interval_ms: DEFAULT_KEEP_ALIVE_INTERVAL_MS,
            }),
    {
        ClientConfig {
            endpoints,
            auth: None,
            connect_timeout_ms: DEFAULT_CONNECT_TIMEOUT_MS,
            http2_keep_alive_interval_ms: DEFAULT_KEEP_ALIVE_INTERVAL_MS,
        }
    }

    /// The configuration, authenticating as `name` with `password`.
    pub fn auth(self, name: String, password: String) -> (r: Self)
        ensures
            r == (ClientConfig { auth: Some((name, password)), ..self }),
    {
        let mut r = self;
        r.auth = Some((name, password));
        r
    }

    /// The request for a token to make once connected, when the
    /// configuration holds credentials; the client then connects again with
    /// the token.
    pub fn authenticate_request(&self) -> (r: Option<AuthenticateRequest>)
        ensures
            self.auth.is_none() ==> r.is_none(),
            self.auth matches Some((name, password)) ==> r matches Some(req) && req.name@ == name@
                && req.password@ == password@,
    {
        match &self.auth {
            Some((name, password)) => Some(AuthenticateRequest::new(name.clone(), password.clone())),
            None => None,
        }
    }

    /// The configuration, waiting `timeout_ms` milliseconds for a
    /// connection.
    pub fn connect_timeout(self, timeout_ms: u64) -> (r: Self)
        ensures
            r == (ClientConfig { connect_timeout_ms: timeout_ms, ..self }),
    {
        let mut r = self;
        r.connect_timeout_ms = timeout_ms;
        r
    }

    /// The configuration, pinging every `interval_ms` milliseconds.
    pub fn http2_keep_alive_interval(self, interval_ms: u64) -> (r: Self)
        ensures
            r == (ClientConfig { http2_keep_alive_interval_ms: interval_ms, ..self }),
    {
        let mut r = self;
        r.http2_keep_alive_interval_ms = interval_ms;
        r
    }
}

} // verus!
