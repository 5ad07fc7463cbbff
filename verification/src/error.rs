//! The classified errors a connection attempt can end in. Every branch
//! of the dispatcher converges on this one shape, so the HTTP engine
//! handles a single error type regardless of which step failed. None of
//! these are retried here; retry policy belongs to the caller.

use vstd::prelude::*;

verus! {

/// Why a connection attempt failed.
#[derive(Clone, Copy, Debug, PartialEq, Eq, Structural)]
pub enum ConnectError {
    /// The attempt did not complete within the configured duration;
    /// surfaced distinctly so callers can tell it from transport
    /// failure.
    Timeout,
    /// Resolution or the raw socket connect failed.
    Transport,
    /// A TLS handshake failed, to the origin or to an encrypted proxy.
    Tls,
    /// Tunnel negotiation failed: the CONNECT exchange was refused or
    /// the SOCKS handshake broke off.
    Tunnel,
    /// The destination lacks the host that TLS or tunnel verification
    /// requires; fatal and never retried.
    UriBadHost,
}

impl ConnectError {
    /// A short name for the error, for messages assembled outside the
    /// core.
    pub fn name(&self) -> (r: &'static str)
        ensures
            *self == ConnectError::Timeout ==> r@ == "timeout"@,
            *self == ConnectError::Transport ==> r@ == "transport"@,
            *self == ConnectError::Tls ==> r@ == "tls"@,
            *self == ConnectError::Tunnel ==> r@ == "tunnel"@,
            *self == ConnectError::UriBadHost ==> r@ == "bad host"@,
    {
        match self {
            ConnectError::Timeout => "timeout",
            ConnectError::Transport => "transport",
            ConnectError::Tls => "tls",
            ConnectError::Tunnel => "tunnel",
            ConnectError::UriBadHost => "bad host",
        }
    }
}

} // verus!
