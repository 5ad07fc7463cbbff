//! Configuration of the TLS collaborator, reduced to the plain values
//! connection establishment records and hands over. The handshake and
//! all certificate verification belong to the collaborator; this crate
//! only accumulates its options and consumes its results.

use vstd::prelude::*;

verus! {

/// A TLS protocol version bound.
#[derive(Clone, Copy, Debug, PartialEq, Eq, Structural)]
pub enum TlsVersion {
    Tls10,
    Tls11,
    Tls12,
    Tls13,
}

/// Where the collaborator writes TLS key material for debugging.
#[derive(Debug)]
pub enum KeyLogPolicy {
    /// The path named by the environment.
    Environment,
    /// An explicit file path.
    File(String),
}

/// A client identity (certificate and key) in serialized form.
#[derive(Debug)]
pub struct Identity {
    pub der: Vec<u8>,
}

/// A certificate store in serialized form.
#[derive(Debug)]
pub struct CertStore {
    pub der_certs: Vec<Vec<u8>>,
}

/// The per-client TLS parameters handed to the collaborator when the
/// connector is built; connection establishment reads none of them but
/// whether HTTP/2 is offered through ALPN.
#[derive(Clone, Copy, Debug, PartialEq, Eq, Structural)]
pub struct TlsConfig {
    pub alpn_h2: bool,
}

/// Peer information surfaced from an established TLS stream: the
/// peer's certificate in DER form.
#[derive(Debug)]
pub struct TlsInfo {
    pub peer_certificate: Option<Vec<u8>>,
}

/// Accumulates the TLS options the builder exposes. Immutable once the
/// connector is built.
#[derive(Debug)]
pub struct TlsConnectorBuilder {
    pub min_version: Option<TlsVersion>,
    pub max_version: Option<TlsVersion>,
    pub keylog: Option<KeyLogPolicy>,
    pub sni: bool,
    pub verify_hostname: bool,
    pub identity: Option<Identity>,
    pub cert_store: Option<CertStore>,
    pub cert_verification: bool,
}

impl TlsConnectorBuilder {
    /// The starting options: SNI, hostname verification and certificate
    /// verification on, nothing else set.
    pub fn new() -> (r: TlsConnectorBuilder)
        ensures
            r.min_version is None,
            r.max_version is None,
            r.keylog is None,
            r.sni,
            r.verify_hostname,
            r.identity is None,
            r.cert_store is None,
            r.cert_verification,
    {
        TlsConnectorBuilder {
            min_version: None,
            max_version: None,
            keylog: None,
            sni: true,
            verify_hostname: true,
            identity: None,
            cert_store: None,
            cert_verification: true,
        }
    }

    pub fn max_version(self, version: Option<TlsVersion>) -> (r: TlsConnectorBuilder)
        ensures
            r == (TlsConnectorBuilder { max_version: version, ..self }),
    {
        TlsConnectorBuilder { max_version: version, ..self }
    }

    pub fn min_version(self, version: Option<TlsVersion>) -> (r: TlsConnectorBuilder)
        ensures
            r == (TlsConnectorBuilder { min_version: version, ..self }),
    {
        TlsConnectorBuilder { min_version: version, ..self }
    }

    pub fn keylog(self, policy: Option<KeyLogPolicy>) -> (r: TlsConnectorBuilder)
        ensures
            r == (TlsConnectorBuilder { keylog: policy, ..self }),
    {
        TlsConnectorBuilder { keylog: policy, ..self }
    }

    pub fn tls_sni(self, enabled: bool) -> (r: TlsConnectorBuilder)
        ensures
            r == (TlsConnectorBuilder { sni: enabled, ..self }),
    {
        TlsConnectorBuilder { sni: enabled, ..self }
    }

    pub fn verify_hostname(self, enabled: bool) -> (r: TlsConnectorBuilder)
        ensures
            r == (TlsConnectorBuilder { verify_hostname: enabled, ..self }),
    {
        TlsConnectorBuilder { verify_hostname: enabled, ..self }
    }

    pub fn identity(self, identity: Option<Identity>) -> (r: TlsConnectorBuilder)
        ensures
            r == (TlsConnectorBuilder { identity: identity, ..self }),
    {
        TlsConnectorBuilder { identity, ..self }
    }

    pub fn cert_store(self, cert_store: CertStore) -> (r: TlsConnectorBuilder)
        ensures
            r == (TlsConnectorBuilder { cert_store: Some(cert_store), ..self }),
    {
        TlsConnectorBuilder { cert_store: Some(cert_store), ..self }
    }

    pub fn cert_verification(self, enabled: bool) -> (r: TlsConnectorBuilder)
        ensures
            r == (TlsConnectorBuilder { cert_verification: enabled, ..self }),
    {
        TlsConnectorBuilder { cert_verification: enabled, ..self }
    }

    /// Freeze the accumulated options together with the per-client
    /// parameters into the connector handed to the dispatcher.
    pub fn build(self, config: TlsConfig) -> (r: TlsConnector)
        ensures
            r.opts == self,
            r.config == config,
    {
        TlsConnector { opts: self, config }
    }
}

/// The frozen TLS options the dispatcher carries. The collaborator
/// performs handshakes from these; the dispatcher only passes them on.
#[derive(Debug)]
pub struct TlsConnector {
    pub opts: TlsConnectorBuilder,
    pub config: TlsConfig,
}

impl TlsConnector {
    /// Start accumulating TLS options.
    pub fn builder() -> (r: TlsConnectorBuilder)
        ensures
            r.min_version is None,
            r.max_version is None,
            r.keylog is None,
            r.sni,
            r.verify_hostname,
            r.identity is None,
            r.cert_store is None,
            r.cert_verification,
    {
        TlsConnectorBuilder::new()
    }
}

} // verus!
