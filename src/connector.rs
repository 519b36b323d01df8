//! Settings for the connectors that clients use: how many threads resolve
//! names, and for HTTPS the pinned server certificate and the client's key
//! and certificate.
use vstd::prelude::*;

verus! {

/// The number of name-resolving threads when none is set.
pub const DEFAULT_DNS_THREADS: usize = 4;

/// Where connector settings start.
#[derive(Debug)]
pub struct Connector;

impl Connector {
    /// Settings for an HTTP connector, with the default number of threads.
    pub fn builder() -> (r: Builder)
        ensures
            r.dns_threads == DEFAULT_DNS_THREADS,
    {
        Builder { dns_threads: DEFAULT_DNS_THREADS }
    }
}

/// Settings for an HTTP connector.
#[derive(Debug)]
pub struct Builder {
    /// The number of name-resolving threads.
    pub dns_threads: usize,
}

impl Builder {
    /// Sets the number of name-resolving threads.
    pub fn dns_threads(self, threads: usize) -> (r: Builder)
        ensures
            r.dns_threads == threads,
    {
        Builder { dns_threads: threads }
    }

    /// Settings for an HTTPS connector, with the same number of threads, no
    /// pinned certificate and no client authentication.
    pub fn https(self) -> (r: HttpsBuilder)
        ensures
            r.dns_threads == self.dns_threads,
            r.server_cert is None,
            r.client_cert is None,
    {
        HttpsBuilder { dns_threads: self.dns_threads, server_cert: None, client_cert: None }
    }
}

/// Settings for an HTTPS connector.
#[derive(Debug)]
pub struct HttpsBuilder {
    /// The number of name-resolving threads.
    pub dns_threads: usize,
    /// The file of the CA certificate that the server's must chain to.
    pub server_cert: Option<String>,
    /// The files of the client's private key and certificate.
    pub client_cert: Option<(String, String)>,
}

impl HttpsBuilder {
    /// Sets the number of name-resolving threads.
    pub fn dns_threads(self, threads: usize) -> (r: HttpsBuilder)
        ensures
            r.dns_threads == threads,
            r.server_cert == self.server_cert,
            r.client_cert == self.client_cert,
    {
        HttpsBuilder { dns_threads: threads, ..self }
    }

    /// Pins the CA certificate in the given file.
    pub fn pin_server_certificate(self, ca_certificate: &str) -> (r: HttpsBuilder)
        ensures
            r.dns_threads == self.dns_threads,
            r.server_cert matches Some(p) && p@ == ca_certificate@,
            r.client_cert == self.client_cert,
    {
        HttpsBuilder { server_cert: Some(ca_certificate.to_owned()), ..self }
    }

    /// Authenticates the client with the key and certificate in the given
    /// files.
    pub fn client_authentication(self, client_key: &str, client_certificate: &str) -> (r:
        HttpsBuilder)
        ensures
            r.dns_threads == self.dns_threads,
            r.server_cert == self.server_cert,
            r.client_cert matches Some((k, c)) && k@ == client_key@ && c@ == client_certificate@,
    {
        HttpsBuilder {
            client_cert: Some((client_key.to_owned(), client_certificate.to_owned())),
            ..self
        }
    }
}

} // verus!
