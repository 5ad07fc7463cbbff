//! The connection-establishment dispatcher.
//!
//! The dispatcher classifies a destination — proxied or direct, tunnel
//! protocol, plaintext or encrypted — and drives the matching connect
//! sequence. Sockets, handshakes and timers run in the surrounding
//! runtime; it reports what each step yielded in a [`ConnectOutcomes`],
//! and the dispatcher, a pure function of configuration, destination
//! and outcomes, assembles the uniform connection handle or the
//! classified error. Every decision — which step runs, in what order,
//! which error class a failed step surfaces, and how the finished
//! connection is tagged — is fixed here by contract.

use vstd::prelude::*;

use crate::conn::Conn;
use crate::error::ConnectError;
use crate::proxy::{first_match, spec_first_match, Intercepted, ProxyMatcher};
use crate::tcp::{HttpConnector, Resolver};
use crate::tls::{
    CertStore, Identity, KeyLogPolicy, TlsConfig, TlsConnector, TlsConnectorBuilder, TlsVersion,
};
use crate::transport::{ProxyLink, Stack, TlsSession, Wrapper};
use crate::uri::{Destination, Scheme, Uri};

verus! {

/// Outcome of the raw TCP connect step.
#[derive(Clone, Copy, Debug, PartialEq, Eq, Structural)]
pub enum TcpOutcome {
    Connected,
    Failed,
}

/// Outcome of a TLS handshake: the established session, or failure.
#[derive(Debug)]
pub enum TlsOutcome {
    Established(TlsSession),
    Failed,
}

/// Outcome of the HTTP CONNECT exchange: the proxy answered with a
/// tunnel-established response, or with anything else.
#[derive(Clone, Copy, Debug, PartialEq, Eq, Structural)]
pub enum TunnelOutcome {
    Established,
    Refused,
}

/// Outcome of the SOCKS negotiation, any variant, any stage.
#[derive(Clone, Copy, Debug, PartialEq, Eq, Structural)]
pub enum SocksOutcome {
    Established,
    Failed,
}

/// What the runtime reports back for one attempt: the outcome of every
/// I/O step the dispatcher may order, and how long the attempt took in
/// milliseconds. A branch reads only the steps it drives, in the order
/// it drives them; the first failed step decides the error.
#[derive(Debug)]
pub struct ConnectOutcomes {
    /// Elapsed time of the whole attempt, for the timeout race.
    pub delay: u64,
    /// The raw TCP connect, direct to the origin or to the proxy.
    pub tcp: TcpOutcome,
    /// TLS to the proxy itself, read only when a CONNECT tunnel runs
    /// through an encrypted proxy.
    pub proxy_tls: TlsOutcome,
    /// The HTTP CONNECT exchange.
    pub tunnel: TunnelOutcome,
    /// The SOCKS negotiation, TCP connect to the proxy included.
    pub socks: SocksOutcome,
    /// TLS to the origin.
    pub tls: TlsOutcome,
}

/// The SOCKS branch: the tunnel is transparent past negotiation, so the
/// connection is never tagged proxy-form. An encrypted destination
/// shakes hands directly over the tunnel stream, verifying the origin
/// host; a plaintext destination uses the tunnel stream as the final
/// connection, with no TLS information to surface.
pub open spec fn spec_connect_socks(
    svc: ConnectorService,
    dst_uri: Uri,
    proxy_uri: Uri,
    net: ConnectOutcomes,
) -> Result<Conn, ConnectError> {
    if proxy_uri.host is None {
        Err(ConnectError::Tunnel)
    } else if dst_uri.scheme == Scheme::Https {
        match net.socks {
            SocksOutcome::Failed => Err(ConnectError::Tunnel),
            SocksOutcome::Established => if dst_uri.host is None {
                Err(ConnectError::UriBadHost)
            } else {
                match net.tls {
                    TlsOutcome::Failed => Err(ConnectError::Tls),
                    TlsOutcome::Established(session) => Ok(
                        Conn {
                            inner: crate::transport::Transport {
                                stack: Stack::Tls(session),
                                verbose: svc.verbose.0,
                            },
                            is_proxy: false,
                            tls_info: svc.tls_info,
                        },
                    ),
                }
            },
        }
    } else {
        match net.socks {
            SocksOutcome::Failed => Err(ConnectError::Tunnel),
            SocksOutcome::Established => Ok(
                Conn {
                    inner: crate::transport::Transport { stack: Stack::Tcp, verbose: svc.verbose.0 },
                    is_proxy: false,
                    tls_info: false,
                },
            ),
        }
    }
}

/// The direct sequence, also reached by the plaintext-proxy rewrite:
/// connect a plaintext transport to the URI's address, then upgrade to
/// TLS when the scheme is encrypted. The proxy-form tag is whatever the
/// caller decided.
pub open spec fn spec_connect_with_maybe_proxy(
    svc: ConnectorService,
    uri: Uri,
    is_proxy: bool,
    net: ConnectOutcomes,
) -> Result<Conn, ConnectError> {
    if uri.host is None {
        Err(ConnectError::Transport)
    } else {
        match net.tcp {
            TcpOutcome::Failed => Err(ConnectError::Transport),
            TcpOutcome::Connected => if uri.scheme == Scheme::Https {
                match net.tls {
                    TlsOutcome::Failed => Err(ConnectError::Tls),
                    TlsOutcome::Established(session) => Ok(
                        Conn {
                            inner: crate::transport::Transport {
                                stack: Stack::Tls(session),
                                verbose: svc.verbose.0,
                            },
                            is_proxy,
                            tls_info: svc.tls_info,
                        },
                    ),
                }
            } else {
                Ok(
                    Conn {
                        inner: crate::transport::Transport { stack: Stack::Tcp, verbose: svc.verbose.0 },
                        is_proxy,
                        tls_info: svc.tls_info,
                    },
                )
            },
        }
    }
}

/// The proxied sequence. A SOCKS proxy takes the SOCKS branch. An
/// encrypted destination tunnels through the proxy: the destination
/// must name a host for TLS verification, the link to the proxy is
/// itself encrypted exactly when the proxy's scheme is, the CONNECT
/// exchange must succeed, and the origin handshake runs over the
/// tunnel; the result is transparent, never proxy-form. A plaintext
/// destination is rewritten to the proxy's URI and falls through to the
/// direct sequence tagged proxy-form.
pub open spec fn spec_connect_via_proxy(
    svc: ConnectorService,
    dst_uri: Uri,
    proxy_uri: Uri,
    net: ConnectOutcomes,
) -> Result<Conn, ConnectError> {
    if proxy_uri.scheme.spec_is_socks() {
        spec_connect_socks(svc, dst_uri, proxy_uri, net)
    } else if dst_uri.scheme == Scheme::Https {
        if dst_uri.host is None {
            Err(ConnectError::UriBadHost)
        } else if proxy_uri.host is None {
            Err(ConnectError::Transport)
        } else {
            match net.tcp {
                TcpOutcome::Failed => Err(ConnectError::Transport),
                TcpOutcome::Connected => {
                    let link_or_err: Result<ProxyLink, ConnectError> = if proxy_uri.scheme
                        == Scheme::Https {
                        match net.proxy_tls {
                            TlsOutcome::Failed => Err(ConnectError::Tls),
                            TlsOutcome::Established(ps) => Ok(ProxyLink::Tls(ps)),
                        }
                    } else {
                        Ok(ProxyLink::Plain)
                    };
                    match link_or_err {
                        Err(e) => Err(e),
                        Ok(link) => match net.tunnel {
                            TunnelOutcome::Refused => Err(ConnectError::Tunnel),
                            TunnelOutcome::Established => match net.tls {
                                TlsOutcome::Failed => Err(ConnectError::Tls),
                                TlsOutcome::Established(session) => Ok(
                                    Conn {
                                        inner: crate::transport::Transport {
                                            stack: Stack::TlsOverTunnel { session, link },
                                            verbose: svc.verbose.0,
                                        },
                                        is_proxy: false,
                                        tls_info: svc.tls_info,
                                    },
                                ),
                            },
                        },
                    }
                },
            }
        }
    } else {
        spec_connect_with_maybe_proxy(svc, proxy_uri, true, net)
    }
}

/// The proxy decision for a destination: a decision pre-resolved
/// upstream wins and skips the matcher set; otherwise the first
/// matching rule of the ordered set decides; no match means direct.
pub open spec fn spec_resolved_interception(svc: ConnectorService, dst: Destination) -> Option<
    Intercepted,
> {
    match dst.intercepted {
        Some(i) => Some(i),
        None => match spec_first_match(svc.proxies@, dst.uri) {
            Some(m) => Some(m.interception),
            None => None,
        },
    }
}

/// The dispatch before the timeout race: resolve the proxy decision,
/// then take the proxied or the direct sequence.
pub open spec fn spec_dispatch(svc: ConnectorService, dst: Destination, net: ConnectOutcomes) -> Result<
    Conn,
    ConnectError,
> {
    match spec_resolved_interception(svc, dst) {
        Some(i) => spec_connect_via_proxy(svc, dst.uri, i.uri, net),
        None => spec_connect_with_maybe_proxy(svc, dst.uri, false, net),
    }
}

/// The timeout race: with a configured duration shorter than the
/// attempt's elapsed time the attempt is abandoned and the distinct
/// timeout error surfaces, whatever the attempt would have yielded;
/// otherwise, and always without a configured duration, the attempt's
/// own result stands.
pub open spec fn spec_with_timeout(
    r: Result<Conn, ConnectError>,
    delay: u64,
    timeout: Option<u64>,
) -> Result<Conn, ConnectError> {
    match timeout {
        Some(t) => if t < delay {
            Err(ConnectError::Timeout)
        } else {
            r
        },
        None => r,
    }
}

/// One whole call of the base dispatcher: the dispatch wrapped in the
/// timeout race with the service's own embedded timeout.
pub open spec fn spec_call(svc: ConnectorService, dst: Destination, net: ConnectOutcomes) -> Result<
    Conn,
    ConnectError,
> {
    spec_with_timeout(spec_dispatch(svc, dst, net), net.delay, svc.timeout)
}

/// Race a finished attempt against the optional configured duration.
pub fn with_timeout(r: Result<Conn, ConnectError>, delay: u64, timeout: Option<u64>) -> (out: Result<
    Conn,
    ConnectError,
>)
    ensures
        out == spec_with_timeout(r, delay, timeout),
{
    match timeout {
        Some(t) => if t < delay {
            Err(ConnectError::Timeout)
        } else {
            r
        },
        None => r,
    }
}

/// The base dispatcher service: the shared, immutable configuration
/// one connection attempt reads. Attempts are independent; a call
/// borrows the service and mutates nothing, so any number may run
/// concurrently over one configuration.
#[derive(Debug)]
pub struct ConnectorService {
    pub http: HttpConnector,
    pub tls: TlsConnector,
    pub proxies: Vec<ProxyMatcher>,
    pub verbose: Wrapper,
    /// With no user middleware the single optional timeout is embedded
    /// here and applied inside `call` itself.
    pub timeout: Option<u64>,
    pub nodelay: bool,
    pub resolver: Resolver,
    pub tls_info: bool,
}

impl ConnectorService {
    /// The dispatcher tracks no backpressure: it is always ready.
    pub fn poll_ready(&self) -> (r: bool)
        ensures
            r,
    {
        true
    }

    /// The SOCKS branch; see [`spec_connect_socks`] for the sequence it
    /// drives.
    pub fn connect_socks(&self, dst: Destination, proxy: Intercepted, net: ConnectOutcomes) -> (r:
        Result<Conn, ConnectError>)
        ensures
            r == spec_connect_socks(*self, dst.uri, proxy.uri, net),
    {
        if proxy.uri.host.is_none() {
            return Err(ConnectError::Tunnel);
        }
        if dst.uri.scheme == Scheme::Https {
            match net.socks {
                SocksOutcome::Failed => Err(ConnectError::Tunnel),
                SocksOutcome::Established => {
                    if dst.uri.host.is_none() {
                        return Err(ConnectError::UriBadHost);
                    }
                    match net.tls {
                        TlsOutcome::Failed => Err(ConnectError::Tls),
                        TlsOutcome::Established(session) => Ok(
                            Conn {
                                inner: self.verbose.wrap(Stack::Tls(session)),
                                is_proxy: false,
                                tls_info: self.tls_info,
                            },
                        ),
                    }
                },
            }
        } else {
            match net.socks {
                SocksOutcome::Failed => Err(ConnectError::Tunnel),
                SocksOutcome::Established => Ok(
                    Conn {
                        inner: self.verbose.wrap(Stack::Tcp),
                        is_proxy: false,
                        tls_info: false,
                    },
                ),
            }
        }
    }

    /// The direct sequence; see [`spec_connect_with_maybe_proxy`].
    pub fn connect_with_maybe_proxy(&self, dst: Destination, is_proxy: bool, net: ConnectOutcomes) -> (r:
        Result<Conn, ConnectError>)
        ensures
            r == spec_connect_with_maybe_proxy(*self, dst.uri, is_proxy, net),
    {
        if dst.uri.host.is_none() {
            return Err(ConnectError::Transport);
        }
        match net.tcp {
            TcpOutcome::Failed => Err(ConnectError::Transport),
            TcpOutcome::Connected => {
                if dst.uri.scheme == Scheme::Https {
                    match net.tls {
                        TlsOutcome::Failed => Err(ConnectError::Tls),
                        TlsOutcome::Established(session) => Ok(
                            Conn {
                                inner: self.verbose.wrap(Stack::Tls(session)),
                                is_proxy,
                                tls_info: self.tls_info,
                            },
                        ),
                    }
                } else {
                    Ok(
                        Conn {
                            inner: self.verbose.wrap(Stack::Tcp),
                            is_proxy,
                            tls_info: self.tls_info,
                        },
                    )
                }
            },
        }
    }

    /// The proxied sequence; see [`spec_connect_via_proxy`].
    pub fn connect_via_proxy(&self, dst: Destination, proxy: Intercepted, net: ConnectOutcomes) -> (r:
        Result<Conn, ConnectError>)
        ensures
            r == spec_connect_via_proxy(*self, dst.uri, proxy.uri, net),
    {
        if proxy.uri.scheme.is_socks() {
            return self.connect_socks(dst, proxy, net);
        }
        if dst.uri.scheme == Scheme::Https {
            if dst.uri.host.is_none() {
                return Err(ConnectError::UriBadHost);
            }
            if proxy.uri.host.is_none() {
                return Err(ConnectError::Transport);
            }
            match net.tcp {
                TcpOutcome::Failed => {
                    return Err(ConnectError::Transport);
                },
                TcpOutcome::Connected => {},
            }
            let link = if proxy.uri.scheme == Scheme::Https {
                match net.proxy_tls {
                    TlsOutcome::Failed => {
                        return Err(ConnectError::Tls);
                    },
                    TlsOutcome::Established(ps) => ProxyLink::Tls(ps),
                }
            } else {
                ProxyLink::Plain
            };
            match net.tunnel {
                TunnelOutcome::Refused => {
                    return Err(ConnectError::Tunnel);
                },
                TunnelOutcome::Established => {},
            }
            match net.tls {
                TlsOutcome::Failed => Err(ConnectError::Tls),
                TlsOutcome::Established(session) => Ok(
                    Conn {
                        inner: self.verbose.wrap(Stack::TlsOverTunnel { session, link }),
                        is_proxy: false,
                        tls_info: self.tls_info,
                    },
                ),
            }
        } else {
            let mut dst = dst;
            let Intercepted { uri, basic_auth: _, raw_auth: _, custom_headers: _ } = proxy;
            dst.set_uri(uri);
            self.connect_with_maybe_proxy(dst, true, net)
        }
    }

    /// One connection attempt: resolve the proxy decision — a decision
    /// already carried by the destination wins, otherwise the first
    /// matching rule — drive the matching sequence, and race the whole
    /// attempt against the embedded timeout.
    pub fn call(&self, dst: Destination, net: ConnectOutcomes) -> (r: Result<Conn, ConnectError>)
        ensures
            r == spec_call(*self, dst, net),
    {
        let mut dst = dst;
        let delay = net.delay;
        let res = if let Some(proxy) = dst.take_proxy_intercepted() {
            self.connect_via_proxy(dst, proxy, net)
        } else {
            match first_match(&self.proxies, &dst.uri) {
                Some(intercepted) => self.connect_via_proxy(dst, intercepted, net),
                None => self.connect_with_maybe_proxy(dst, false, net),
            }
        };
        with_timeout(res, delay, self.timeout)
    }
}

/// The opaque request wrapper of the layered shape: user middleware
/// sees this type, not the destination itself, so no caller can bypass
/// the pipeline or depend on its request type. Only this crate can
/// construct or open one.
#[derive(Debug)]
pub struct Unnameable(pub(crate) Destination);

impl Unnameable {
    /// The wrapped destination, named only for contracts.
    pub open(crate) spec fn spec_dst(self) -> Destination {
        self.0
    }
}

/// One user-supplied middleware layer. Its transform is the caller's
/// own code and runs in the surrounding runtime, outside the verified
/// core; the dispatcher records only how many layers are stacked and
/// keeps the timeout outermost around all of them.
#[derive(Clone, Copy, Debug, PartialEq, Eq, Structural)]
pub struct ConnectorLayer {}

/// The layered dispatcher shape: the base service behind type erasure,
/// the count of user layers around it, and the single configured
/// timeout applied outermost so timeout semantics match the direct
/// shape. A final normalization step maps any timeout raised inside
/// the pipeline to the classified timeout error.
#[derive(Debug)]
pub struct LayeredService {
    pub service: ConnectorService,
    pub layer_count: usize,
    pub timeout: Option<u64>,
}

/// One call through the layered shape: the base dispatch, then the
/// outermost timeout race.
pub open spec fn spec_layered_call(
    l: LayeredService,
    dst: Destination,
    net: ConnectOutcomes,
) -> Result<Conn, ConnectError> {
    spec_with_timeout(spec_call(l.service, dst, net), net.delay, l.timeout)
}

impl LayeredService {
    /// Open the opaque wrapper, run the base service, and apply the
    /// outermost timeout.
    pub fn call(&self, request: Unnameable, net: ConnectOutcomes) -> (r: Result<Conn, ConnectError>)
        ensures
            r == spec_layered_call(*self, request.spec_dst(), net),
    {
        let delay = net.delay;
        let res = self.service.call(request.0, net);
        with_timeout(res, delay, self.timeout)
    }
}

/// The dispatcher in one of its two shapes: the direct shape with at
/// most an embedded timeout, chosen when no user middleware is
/// configured, and the layered shape otherwise.
#[derive(Debug)]
pub enum Connector {
    Simple(ConnectorService),
    WithLayers(LayeredService),
}

/// One call of the dispatcher, whichever shape it took at build time.
pub open spec fn spec_connector_call(c: Connector, dst: Destination, net: ConnectOutcomes) -> Result<
    Conn,
    ConnectError,
> {
    match c {
        Connector::Simple(s) => spec_call(s, dst, net),
        Connector::WithLayers(l) => spec_layered_call(l, dst, net),
    }
}

impl Connector {
    /// Start accumulating configuration around the given proxy rules
    /// and resolver capability.
    pub fn builder(proxies: Vec<ProxyMatcher>, resolver: Resolver) -> (r: ConnectorBuilder)
        ensures
            r.http == (HttpConnector {
                resolver,
                keepalive: None,
                keepalive_interval: None,
                keepalive_retries: None,
                user_timeout: None,
                connect_timeout: None,
                interface: None,
                local_ipv4: None,
                local_ipv6: None,
                nodelay: false,
                enforce_http: false,
            }),
            r.proxies == proxies,
            r.verbose == Wrapper(false),
            r.timeout is None,
            !r.nodelay,
            r.resolver == resolver,
            !r.tls_info,
            r.tls_builder.min_version is None,
            r.tls_builder.max_version is None,
            r.tls_builder.keylog is None,
            r.tls_builder.sni,
            r.tls_builder.verify_hostname,
            r.tls_builder.identity is None,
            r.tls_builder.cert_store is None,
            r.tls_builder.cert_verification,
    {
        let mut http = HttpConnector::new_with_resolver(resolver);
        http.enforce_http(false);
        ConnectorBuilder {
            http,
            proxies,
            verbose: Wrapper(false),
            timeout: None,
            nodelay: false,
            resolver,
            tls_info: false,
            tls_builder: TlsConnector::builder(),
        }
    }

    /// Both shapes are always immediately ready.
    pub fn poll_ready(&self) -> (r: bool)
        ensures
            r,
    {
        match self {
            Connector::Simple(s) => s.poll_ready(),
            Connector::WithLayers(l) => l.service.poll_ready(),
        }
    }

    /// Submit a destination: the direct shape calls the base service,
    /// the layered shape wraps the destination in the opaque request
    /// type and sends it down the pipeline.
    pub fn call(&self, dst: Destination, net: ConnectOutcomes) -> (r: Result<Conn, ConnectError>)
        ensures
            r == spec_connector_call(*self, dst, net),
    {
        match self {
            Connector::Simple(s) => s.call(dst, net),
            Connector::WithLayers(l) => l.call(Unnameable(dst), net),
        }
    }
}

/// Accumulates the whole dispatcher configuration: socket options, TLS
/// options, proxy rules, the optional connect timeout, and flags. At
/// finalization it chooses the dispatcher's shape.
#[derive(Debug)]
pub struct ConnectorBuilder {
    pub http: HttpConnector,
    pub proxies: Vec<ProxyMatcher>,
    pub verbose: Wrapper,
    pub timeout: Option<u64>,
    pub nodelay: bool,
    pub resolver: Resolver,
    pub tls_info: bool,
    pub tls_builder: TlsConnectorBuilder,
}

impl ConnectorBuilder {
    /// Keep sockets idle this long before sending TCP keepalive probes.
    pub fn keepalive(self, dur: Option<u64>) -> (r: ConnectorBuilder)
        ensures
            r == (ConnectorBuilder {
                http: (HttpConnector { keepalive: dur, ..self.http }),
                ..self
            }),
    {
        let mut b = self;
        b.http.set_keepalive(dur);
        b
    }

    /// The gap between two successive keepalive retransmissions.
    pub fn tcp_keepalive_interval(self, dur: Option<u64>) -> (r: ConnectorBuilder)
        ensures
            r == (ConnectorBuilder {
                http: (HttpConnector { keepalive_interval: dur, ..self.http }),
                ..self
            }),
    {
        let mut b = self;
        b.http.set_keepalive_interval(dur);
        b
    }

    /// How many keepalive retransmissions may go unanswered before the
    /// remote end is declared gone.
    pub fn tcp_keepalive_retries(self, retries: Option<u32>) -> (r: ConnectorBuilder)
        ensures
            r == (ConnectorBuilder {
                http: (HttpConnector { keepalive_retries: retries, ..self.http }),
                ..self
            }),
    {
        let mut b = self;
        b.http.set_keepalive_retries(retries);
        b
    }

    /// The TCP user-timeout socket option.
    pub fn tcp_user_timeout(self, dur: Option<u64>) -> (r: ConnectorBuilder)
        ensures
            r == (ConnectorBuilder {
                http: (HttpConnector { user_timeout: dur, ..self.http }),
                ..self
            }),
    {
        let mut b = self;
        b.http.set_tcp_user_timeout(dur);
        b
    }

    /// The connect timeout. It is recorded twice: on the transport
    /// step, which divides it evenly across a name's addresses, and on
    /// the builder, which embeds or layers it around the whole attempt.
    pub fn connect_timeout(self, timeout: Option<u64>) -> (r: ConnectorBuilder)
        ensures
            r == (ConnectorBuilder {
                timeout,
                http: (HttpConnector { connect_timeout: timeout, ..self.http }),
                ..self
            }),
    {
        let mut b = self;
        b.timeout = timeout;
        b.http.set_connect_timeout(timeout);
        b
    }

    /// Bind produced sockets to the named interface.
    pub fn interface(self, iface: Option<String>) -> (r: ConnectorBuilder)
        ensures
            r == (ConnectorBuilder {
                http: (HttpConnector { interface: iface, ..self.http }),
                ..self
            }),
    {
        let mut b = self;
        b.http.set_interface(iface);
        b
    }

    /// Bind produced sockets to the given local addresses, whichever
    /// family the connected peer calls for; passing neither leaves the
    /// binding unchanged.
    pub fn local_addresses(self, local_ipv4: Option<u32>, local_ipv6: Option<u128>) -> (r:
        ConnectorBuilder)
        ensures
            local_ipv4 is None && local_ipv6 is None ==> r == self,
            !(local_ipv4 is None && local_ipv6 is None) ==> r == (ConnectorBuilder {
                http: (HttpConnector { local_ipv4, local_ipv6, ..self.http }),
                ..self
            }),
    {
        let mut b = self;
        match (local_ipv4, local_ipv6) {
            (None, None) => {},
            (v4, v6) => {
                b.http.set_local_address(v4, v6);
            },
        }
        b
    }

    /// The caller's nodelay setting for produced sockets. The TLS
    /// handshake phase may override it; see the direct sequence.
    pub fn nodelay(self, enabled: bool) -> (r: ConnectorBuilder)
        ensures
            r == (ConnectorBuilder {
                nodelay: enabled,
                http: (HttpConnector { nodelay: enabled, ..self.http }),
                ..self
            }),
    {
        let mut b = self;
        b.nodelay = enabled;
        b.http.set_nodelay(enabled);
        b
    }

    /// Decorate produced connections with the tracing wrapper.
    pub fn verbose(self, enabled: bool) -> (r: ConnectorBuilder)
        ensures
            r == (ConnectorBuilder { verbose: Wrapper(enabled), ..self }),
    {
        let mut b = self;
        b.verbose = Wrapper(enabled);
        b
    }

    /// The highest TLS version the collaborator may negotiate.
    pub fn tls_max_version(self, version: Option<TlsVersion>) -> (r: ConnectorBuilder)
        ensures
            r == (ConnectorBuilder {
                tls_builder: (TlsConnectorBuilder { max_version: version, ..self.tls_builder }),
                ..self
            }),
    {
        let ConnectorBuilder { http, proxies, verbose, timeout, nodelay, resolver, tls_info, tls_builder } =
            self;
        ConnectorBuilder {
            http,
            proxies,
            verbose,
            timeout,
            nodelay,
            resolver,
            tls_info,
            tls_builder: tls_builder.max_version(version),
        }
    }

    /// The lowest TLS version the collaborator may negotiate.
    pub fn tls_min_version(self, version: Option<TlsVersion>) -> (r: ConnectorBuilder)
        ensures
            r == (ConnectorBuilder {
                tls_builder: (TlsConnectorBuilder { min_version: version, ..self.tls_builder }),
                ..self
            }),
    {
        let ConnectorBuilder { http, proxies, verbose, timeout, nodelay, resolver, tls_info, tls_builder } =
            self;
        ConnectorBuilder {
            http,
            proxies,
            verbose,
            timeout,
            nodelay,
            resolver,
            tls_info,
            tls_builder: tls_builder.min_version(version),
        }
    }

    /// Where the collaborator writes TLS key material, if anywhere.
    pub fn tls_keylog_policy(self, keylog_policy: Option<KeyLogPolicy>) -> (r: ConnectorBuilder)
        ensures
            r == (ConnectorBuilder {
                tls_builder: (TlsConnectorBuilder { keylog: keylog_policy, ..self.tls_builder }),
                ..self
            }),
    {
        let ConnectorBuilder { http, proxies, verbose, timeout, nodelay, resolver, tls_info, tls_builder } =
            self;
        ConnectorBuilder {
            http,
            proxies,
            verbose,
            timeout,
            nodelay,
            resolver,
            tls_info,
            tls_builder: tls_builder.keylog(keylog_policy),
        }
    }

    /// Surface TLS peer information on produced connections.
    pub fn tls_info(self, enabled: bool) -> (r: ConnectorBuilder)
        ensures
            r == (ConnectorBuilder { tls_info: enabled, ..self }),
    {
        let mut b = self;
        b.tls_info = enabled;
        b
    }

    /// Send the server name indication during handshakes.
    pub fn tls_sni(self, enabled: bool) -> (r: ConnectorBuilder)
        ensures
            r == (ConnectorBuilder {
                tls_builder: (TlsConnectorBuilder { sni: enabled, ..self.tls_builder }),
                ..self
            }),
    {
        let ConnectorBuilder { http, proxies, verbose, timeout, nodelay, resolver, tls_info, tls_builder } =
            self;
        ConnectorBuilder {
            http,
            proxies,
            verbose,
            timeout,
            nodelay,
            resolver,
            tls_info,
            tls_builder: tls_builder.tls_sni(enabled),
        }
    }

    /// Verify the peer's hostname during handshakes.
    pub fn tls_verify_hostname(self, enabled: bool) -> (r: ConnectorBuilder)
        ensures
            r == (ConnectorBuilder {
                tls_builder: (TlsConnectorBuilder { verify_hostname: enabled, ..self.tls_builder }),
                ..self
            }),
    {
        let ConnectorBuilder { http, proxies, verbose, timeout, nodelay, resolver, tls_info, tls_builder } =
            self;
        ConnectorBuilder {
            http,
            proxies,
            verbose,
            timeout,
            nodelay,
            resolver,
            tls_info,
            tls_builder: tls_builder.verify_hostname(enabled),
        }
    }

    /// The client identity for certificate authentication.
    pub fn tls_identity(self, identity: Option<Identity>) -> (r: ConnectorBuilder)
        ensures
            r == (ConnectorBuilder {
                tls_builder: (TlsConnectorBuilder { identity, ..self.tls_builder }),
                ..self
            }),
    {
        let ConnectorBuilder { http, proxies, verbose, timeout, nodelay, resolver, tls_info, tls_builder } =
            self;
        ConnectorBuilder {
            http,
            proxies,
            verbose,
            timeout,
            nodelay,
            resolver,
            tls_info,
            tls_builder: tls_builder.identity(identity),
        }
    }

    /// The certificate store verification draws from.
    pub fn tls_cert_store(self, cert_store: CertStore) -> (r: ConnectorBuilder)
        ensures
            r == (ConnectorBuilder {
                tls_builder: (TlsConnectorBuilder {
                    cert_store: Some(cert_store),
                    ..self.tls_builder
                }),
                ..self
            }),
    {
        let ConnectorBuilder { http, proxies, verbose, timeout, nodelay, resolver, tls_info, tls_builder } =
            self;
        ConnectorBuilder {
            http,
            proxies,
            verbose,
            timeout,
            nodelay,
            resolver,
            tls_info,
            tls_builder: tls_builder.cert_store(cert_store),
        }
    }

    /// Whether certificates are verified at all.
    pub fn tls_cert_verification(self, enabled: bool) -> (r: ConnectorBuilder)
        ensures
            r == (ConnectorBuilder {
                tls_builder: (TlsConnectorBuilder {
                    cert_verification: enabled,
                    ..self.tls_builder
                }),
                ..self
            }),
    {
        let ConnectorBuilder { http, proxies, verbose, timeout, nodelay, resolver, tls_info, tls_builder } =
            self;
        ConnectorBuilder {
            http,
            proxies,
            verbose,
            timeout,
            nodelay,
            resolver,
            tls_info,
            tls_builder: tls_builder.cert_verification(enabled),
        }
    }

    /// Finalize: freeze the TLS options with the per-client parameters
    /// and choose the dispatcher's shape. With no user middleware the
    /// direct shape embeds the optional timeout in the base service;
    /// with middleware the layered shape keeps the base service's
    /// timeout empty and applies the configured timeout outermost, so
    /// both shapes race attempts identically.
    pub fn build(self, tls_config: TlsConfig, layers: Option<Vec<ConnectorLayer>>) -> (r: Connector)
        ensures
            ({
                let service = (ConnectorService {
                    http: self.http,
                    tls: (TlsConnector { opts: self.tls_builder, config: tls_config }),
                    proxies: self.proxies,
                    verbose: self.verbose,
                    timeout: None,
                    nodelay: self.nodelay,
                    resolver: self.resolver,
                    tls_info: self.tls_info,
                });
                match layers {
                    Some(ls) => r == Connector::WithLayers(
                        LayeredService { service, layer_count: ls.len(), timeout: self.timeout },
                    ),
                    None => r == Connector::Simple(
                        ConnectorService { timeout: self.timeout, ..service },
                    ),
                }
            }),
    {
        let ConnectorBuilder { http, proxies, verbose, timeout, nodelay, resolver, tls_info, tls_builder } =
            self;
        let mut service = ConnectorService {
            http,
            tls: tls_builder.build(tls_config),
            proxies,
            verbose,
            timeout: None,
            nodelay,
            resolver,
            tls_info,
        };
        match layers {
            Some(ls) => Connector::WithLayers(
                LayeredService { service, layer_count: ls.len(), timeout },
            ),
            None => {
                service.timeout = timeout;
                Connector::Simple(service)
            },
        }
    }
}

} // verus!
