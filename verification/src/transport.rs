//! The transport stacks a finished attempt can stand on, and the
//! capability lookup that threads through their wrapping layers.
//!
//! Every connect sequence converges on one of three shapes: plain TCP
//! (direct plaintext, or a transparent SOCKS tunnel), TLS directly over
//! TCP (direct HTTPS, or TLS over a SOCKS tunnel), and TLS negotiated
//! over an HTTP CONNECT tunnel whose link to the proxy may itself be
//! plain or encrypted. A tracing decorator may wrap any of them.

use vstd::prelude::*;

use crate::tls::TlsInfo;

verus! {

/// What an established TLS session reports: the peer's certificate in
/// DER form, if the peer presented one, and whether ALPN selected
/// HTTP/2.
#[derive(Debug)]
pub struct TlsSession {
    pub peer_cert_der: Option<Vec<u8>>,
    pub alpn_h2: bool,
}

/// The link beneath a CONNECT tunnel: the connection to the proxy
/// itself, plain or encrypted depending on the proxy's scheme.
#[derive(Debug)]
pub enum ProxyLink {
    Plain,
    Tls(TlsSession),
}

/// The concrete transport stack beneath a connection.
#[derive(Debug)]
pub enum Stack {
    /// Plain TCP: a direct plaintext connection, or a SOCKS tunnel,
    /// which is transparent past negotiation.
    Tcp,
    /// TLS negotiated directly over TCP.
    Tls(TlsSession),
    /// TLS negotiated over an HTTP CONNECT tunnel; `link` is the
    /// connection to the proxy the tunnel runs through.
    TlsOverTunnel { session: TlsSession, link: ProxyLink },
}

impl Stack {
    /// The DER bytes the capability lookup yields on this stack. Each
    /// layer forwards the query to the transport it wraps: a TLS layer
    /// directly over TCP answers with its own peer certificate, a TLS
    /// layer over a tunnel forwards to the link beneath it, and plain
    /// TCP answers with nothing.
    pub open spec fn spec_tls_peer_cert(self) -> Option<Seq<u8>> {
        match self {
            Stack::Tcp => None,
            Stack::Tls(s) => match s.peer_cert_der {
                Some(d) => Some(d@),
                None => None,
            },
            Stack::TlsOverTunnel { session, link } => match link {
                ProxyLink::Plain => None,
                ProxyLink::Tls(ps) => match ps.peer_cert_der {
                    Some(d) => Some(d@),
                    None => None,
                },
            },
        }
    }

    /// Whether the connection's own TLS layer negotiated HTTP/2
    /// through ALPN. Plain TCP negotiates nothing.
    pub open spec fn spec_negotiated_h2(self) -> bool {
        match self {
            Stack::Tcp => false,
            Stack::Tls(s) => s.alpn_h2,
            Stack::TlsOverTunnel { session, link } => session.alpn_h2,
        }
    }
}

/// A transport stack together with the optional tracing decorator
/// around it. The decorator forwards every capability query to the
/// stack it wraps.
#[derive(Debug)]
pub struct Transport {
    pub stack: Stack,
    pub verbose: bool,
}

/// A fresh vector with the same bytes.
pub fn clone_bytes(v: &Vec<u8>) -> (r: Vec<u8>)
    ensures
        r@ == v@,
{
    let mut r: Vec<u8> = Vec::new();
    let mut i: usize = 0;
    while i < v.len()
        invariant
            i <= v.len(),
            r@ == v@.take(i as int),
        decreases v.len() - i,
    {
        r.push(v[i]);
        assert(r@ =~= v@.take(i as int + 1));
        i = i + 1;
    }
    assert(v@.take(v.len() as int) =~= v@);
    r
}

impl Transport {
    /// The capability lookup delegates through the decorator to the
    /// stack beneath it.
    pub open spec fn spec_tls_peer_cert(self) -> Option<Seq<u8>> {
        self.stack.spec_tls_peer_cert()
    }

    pub open spec fn spec_negotiated_h2(self) -> bool {
        self.stack.spec_negotiated_h2()
    }

    /// Query the stack for TLS peer information: the peer certificate's
    /// DER bytes where a layer can answer, nothing on plain TCP or when
    /// no layer holds a certificate.
    pub fn tls_info(&self) -> (r: Option<TlsInfo>)
        ensures
            r is Some <==> self.spec_tls_peer_cert() is Some,
            r matches Some(info) ==> info.peer_certificate matches Some(c) && Some(c@)
                == self.spec_tls_peer_cert(),
    {
        let cert: Option<&Vec<u8>> = match &self.stack {
            Stack::Tcp => None,
            Stack::Tls(s) => match &s.peer_cert_der {
                Some(d) => Some(d),
                None => None,
            },
            Stack::TlsOverTunnel { session: _, link } => match link {
                ProxyLink::Plain => None,
                ProxyLink::Tls(ps) => match &ps.peer_cert_der {
                    Some(d) => Some(d),
                    None => None,
                },
            },
        };
        match cert {
            Some(d) => Some(TlsInfo { peer_certificate: Some(clone_bytes(d)) }),
            None => None,
        }
    }

    /// Whether the connection's TLS layer selected HTTP/2 through ALPN.
    pub fn negotiated_h2(&self) -> (r: bool)
        ensures
            r == self.spec_negotiated_h2(),
    {
        match &self.stack {
            Stack::Tcp => false,
            Stack::Tls(s) => s.alpn_h2,
            Stack::TlsOverTunnel { session, link: _ } => session.alpn_h2,
        }
    }
}

/// Applies the tracing decorator when verbose connecting is on; a
/// decorated transport behaves identically and forwards every
/// capability query inward.
#[derive(Clone, Copy, Debug, PartialEq, Eq, Structural)]
pub struct Wrapper(pub bool);

impl Wrapper {
    /// Wrap a finished stack, decorating it exactly when verbose mode
    /// is on.
    pub fn wrap(&self, stack: Stack) -> (t: Transport)
        ensures
            t.stack == stack,
            t.verbose == self.0,
    {
        Transport { stack, verbose: self.0 }
    }
}

} // verus!
