//! Connection-establishment core of an HTTP client.
//!
//! Given a target destination the dispatcher decides whether to connect
//! directly or through a proxy, which tunnel protocol to negotiate, and
//! whether to upgrade the transport to TLS; it tags the resulting uniform
//! connection handle with the proxy-form and TLS-info capabilities the
//! HTTP engine reads. The actual sockets, TLS handshakes and timers are
//! collaborators driven outside this crate; every decision they depend
//! on, and every rule about what a finished connection reports, is
//! verified here over plain values.

pub mod conn;
pub mod connect;
pub mod error;
pub mod http2;
pub mod laws;
pub mod plan;
pub mod proxy;
pub mod socks;
pub mod tcp;
pub mod tls;
pub mod transport;
pub mod tunnel;
pub mod uri;
pub mod verbose;
