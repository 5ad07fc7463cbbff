//! The laws of the dispatcher, stated across its functions and proved
//! from the contracts in this crate.

use vstd::prelude::*;

use crate::conn::Conn;
use crate::connect::{
    spec_call, spec_layered_call, spec_resolved_interception, ConnectOutcomes, ConnectorService,
    LayeredService,
};
use crate::connect::{SocksOutcome, TcpOutcome, TlsOutcome, TunnelOutcome};
use crate::error::ConnectError;
use crate::plan::{spec_plan, PlannedTunnel};
use crate::proxy::Intercepted;
use crate::transport::{Stack, TlsSession};
use crate::uri::{Destination, Scheme};

verus! {

/// With no proxy decision — none carried by the destination and no
/// rule of the matcher set matching its URI — a connection the
/// dispatcher yields is never in proxy form.
pub proof fn lemma_direct_never_proxy_form(
    svc: ConnectorService,
    dst: Destination,
    net: ConnectOutcomes,
)
    requires
        spec_resolved_interception(svc, dst) is None,
    ensures
        spec_call(svc, dst, net) matches Ok(c) ==> !c.is_proxy,
{
}

/// A plaintext destination matching a plaintext HTTP proxy rule yields
/// a proxy-form connection, and its transport connects to the proxy's
/// address, not the origin's.
pub proof fn lemma_plaintext_proxy_form(
    svc: ConnectorService,
    dst: Destination,
    net: ConnectOutcomes,
    i: Intercepted,
)
    requires
        spec_resolved_interception(svc, dst) == Some(i),
        !i.uri.scheme.spec_is_socks(),
        i.uri.scheme != Scheme::Https,
        dst.uri.scheme != Scheme::Https,
    ensures
        spec_call(svc, dst, net) matches Ok(c) ==> c.is_proxy,
        spec_plan(svc, dst) matches Ok(p) ==> p.is_proxy && Some(p.connect_host) == i.uri.host
            && p.connect_port == i.uri.spec_effective_port(),
{
}

/// An encrypted destination matching a tunnelling proxy rule yields a
/// connection that is not in proxy form — the tunnel is transparent —
/// and its TLS handshake verifies the origin host while its transport
/// connects to the proxy's address.
pub proof fn lemma_tunnel_transparent(
    svc: ConnectorService,
    dst: Destination,
    net: ConnectOutcomes,
    i: Intercepted,
)
    requires
        spec_resolved_interception(svc, dst) == Some(i),
        !i.uri.scheme.spec_is_socks(),
        dst.uri.scheme == Scheme::Https,
    ensures
        spec_call(svc, dst, net) matches Ok(c) ==> !c.is_proxy,
        spec_plan(svc, dst) matches Ok(p) ==> !p.is_proxy && p.tls_host == dst.uri.host && Some(
            p.connect_host,
        ) == i.uri.host,
{
}

/// A SOCKS proxy is equally transparent: whatever the destination,
/// the connection is never in proxy form, and an encrypted destination
/// verifies the origin host over the tunnel.
pub proof fn lemma_socks_transparent(
    svc: ConnectorService,
    dst: Destination,
    net: ConnectOutcomes,
    i: Intercepted,
)
    requires
        spec_resolved_interception(svc, dst) == Some(i),
        i.uri.scheme.spec_is_socks(),
    ensures
        spec_call(svc, dst, net) matches Ok(c) ==> !c.is_proxy,
        spec_plan(svc, dst) matches Ok(p) ==> !p.is_proxy && (dst.uri.scheme == Scheme::Https
            ==> p.tls_host == dst.uri.host),
{
}

/// A configured timeout shorter than the attempt's elapsed time makes
/// the call resolve to the distinct timeout error, whatever any step
/// yielded: no connection handle and no other error surfaces.
pub proof fn lemma_timeout_wins(svc: ConnectorService, dst: Destination, net: ConnectOutcomes)
    requires
        svc.timeout matches Some(t) && t < net.delay,
    ensures
        spec_call(svc, dst, net) == Err::<Conn, ConnectError>(ConnectError::Timeout),
{
}

/// The same for the layered shape, whose timeout sits outermost around
/// the whole pipeline.
pub proof fn lemma_timeout_wins_layered(
    l: LayeredService,
    dst: Destination,
    net: ConnectOutcomes,
)
    requires
        l.timeout matches Some(t) && t < net.delay,
    ensures
        spec_layered_call(l, dst, net) == Err::<Conn, ConnectError>(ConnectError::Timeout),
{
}

/// The dispatcher is a function of its immutable configuration, the
/// destination and the reported outcomes alone: two attempts with
/// equal inputs resolve alike, so concurrent attempts sharing one
/// configuration are independent.
pub proof fn lemma_call_deterministic(
    svc: ConnectorService,
    dst1: Destination,
    dst2: Destination,
    net1: ConnectOutcomes,
    net2: ConnectOutcomes,
)
    requires
        dst1 == dst2,
        net1 == net2,
    ensures
        spec_call(svc, dst1, net1) == spec_call(svc, dst2, net2),
{
}

/// Both dispatcher shapes race attempts against the configured timeout
/// identically: a layered dispatcher whose base service embeds no
/// timeout resolves every call exactly as the direct shape with the
/// timeout embedded.
pub proof fn lemma_shapes_agree(
    svc: ConnectorService,
    t: Option<u64>,
    n: usize,
    dst: Destination,
    net: ConnectOutcomes,
)
    requires
        svc.timeout is None,
    ensures
        spec_layered_call(LayeredService { service: svc, layer_count: n, timeout: t }, dst, net)
            == spec_call((ConnectorService { timeout: t, ..svc }), dst, net),
{
}

/// Capability delegation: the TLS-info lookup on plain TCP yields
/// nothing; on a TLS stream that holds a peer certificate it yields
/// exactly that certificate's DER bytes; and a connection whose
/// `tls_info` flag is off reports no TLS info whatever its transport
/// (the flag-off half is the descriptor contract of
/// [`crate::conn::Conn::connected`]).
pub proof fn lemma_capability_delegation(c: Conn)
    ensures
        c.inner.stack is Tcp ==> c.inner.spec_tls_peer_cert() is None,
        c.inner.stack matches Stack::Tls(s) ==> (s.peer_cert_der matches Some(d)
            ==> c.inner.spec_tls_peer_cert() == Some(d@)),
{
}

/// Every successful call agrees with the plan of its destination: the
/// plan exists, it carries the same proxy-form tag the finished
/// connection was given, and the connection's transport stack is the
/// one the plan announced — tunneled exactly under a CONNECT plan,
/// plain TCP exactly where no TLS host was planned, and decorated
/// exactly when verbose connecting is on.
pub proof fn lemma_call_agrees_with_plan(
    svc: ConnectorService,
    dst: Destination,
    net: ConnectOutcomes,
)
    ensures
        spec_call(svc, dst, net) matches Ok(c) ==> spec_plan(svc, dst) matches Ok(p) && {
            &&& c.is_proxy == p.is_proxy
            &&& (c.inner.stack is TlsOverTunnel <==> p.tunnel is HttpConnect)
            &&& (c.inner.stack is Tcp <==> p.tls_host is None)
            &&& c.inner.verbose == svc.verbose.0
        },
{
}

/// Success is owed: under a plan the classifier accepts, when every
/// step the attempt drives succeeds and the attempt finishes within
/// any configured timeout, the dispatcher yields a handle.
pub proof fn lemma_success_when_steps_succeed(
    svc: ConnectorService,
    dst: Destination,
    net: ConnectOutcomes,
)
    requires
        spec_plan(svc, dst) is Ok,
        net.tcp == TcpOutcome::Connected,
        net.socks == SocksOutcome::Established,
        net.tunnel == TunnelOutcome::Established,
        net.tls is Established,
        net.proxy_tls is Established,
        svc.timeout matches Some(t) ==> net.delay <= t,
    ensures
        spec_call(svc, dst, net) is Ok,
{
}

/// What ALPN negotiated surfaces unchanged: a successful attempt whose
/// origin handshake reported a session either stands on plain TCP and
/// reports no HTTP/2, or carries exactly that session's ALPN outcome.
pub proof fn lemma_alpn_surfaces(
    svc: ConnectorService,
    dst: Destination,
    net: ConnectOutcomes,
    s: TlsSession,
)
    requires
        net.tls == TlsOutcome::Established(s),
    ensures
        spec_call(svc, dst, net) matches Ok(c) ==> c.inner.spec_negotiated_h2() == (!(
        c.inner.stack is Tcp) && s.alpn_h2),
{
}

} // verus!
