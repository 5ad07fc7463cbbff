//! The uniform connection handle every connect sequence produces, and
//! the connection descriptor it reports to the HTTP engine.

use vstd::prelude::*;

use crate::tls::TlsInfo;
use crate::transport::Transport;

verus! {

/// The descriptor a connection reports: whether the HTTP engine must
/// write the request target in absolute form, whether ALPN selected
/// HTTP/2, and — when the handle was asked to surface it and a layer of
/// the transport can answer — the TLS peer certificate.
#[derive(Debug)]
pub struct Connected {
    pub is_proxy: bool,
    pub negotiated_h2: bool,
    pub tls_info: Option<TlsInfo>,
}

/// The uniform connection handle: one fixed type over every transport
/// stack a connect sequence can produce.
///
/// `is_proxy` is fixed at construction and true only when a plaintext
/// proxy stands in for the origin without tunnelling: the HTTP engine
/// then writes the request target in absolute form. Tunnels, SOCKS and
/// TLS included, are transparent past negotiation and never set it.
/// `tls_info` records whether the peer certificate should be surfaced
/// in the descriptor.
#[derive(Debug)]
pub struct Conn {
    pub inner: Transport,
    pub is_proxy: bool,
    pub tls_info: bool,
}

impl Conn {
    /// The descriptor of this connection: the proxy-form flag as fixed
    /// at construction; the HTTP/2 flag straight from the transport's
    /// TLS layer, independent of `tls_info`; and the peer certificate
    /// exactly when `tls_info` is set and the capability lookup on the
    /// transport yields one.
    pub fn connected(&self) -> (r: Connected)
        ensures
            r.is_proxy == self.is_proxy,
            r.negotiated_h2 == self.inner.spec_negotiated_h2(),
            r.tls_info is Some <==> self.tls_info && self.inner.spec_tls_peer_cert() is Some,
            r.tls_info matches Some(info) ==> info.peer_certificate matches Some(c) && Some(c@)
                == self.inner.spec_tls_peer_cert(),
    {
        let tls_info = if self.tls_info {
            self.inner.tls_info()
        } else {
            None
        };
        Connected { is_proxy: self.is_proxy, negotiated_h2: self.inner.negotiated_h2(), tls_info }
    }
}

} // verus!
