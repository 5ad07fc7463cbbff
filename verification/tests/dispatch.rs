use connect_core::conn::Conn;
use connect_core::connect::{
    ConnectOutcomes, Connector, ConnectorService, SocksOutcome, TcpOutcome, TlsOutcome,
    TunnelOutcome,
};
use connect_core::error::ConnectError;
use connect_core::plan::PlannedTunnel;
use connect_core::proxy::{Intercepted, MatchKind, ProxyMatcher};
use connect_core::tcp::Resolver;
use connect_core::tls::TlsConfig;
use connect_core::transport::{ProxyLink, Stack, TlsSession};
use connect_core::uri::{Destination, Scheme, Uri};

fn uri(scheme: Scheme, host: &str, port: Option<u16>) -> Uri {
    Uri::new(scheme, Some(host.to_string()), port)
}

fn interception(scheme: Scheme, host: &str, port: Option<u16>) -> Intercepted {
    Intercepted {
        uri: uri(scheme, host, port),
        basic_auth: None,
        raw_auth: None,
        custom_headers: None,
    }
}

fn rule(kind: MatchKind, scheme: Scheme, host: &str, port: Option<u16>) -> ProxyMatcher {
    ProxyMatcher { kind, no_proxy: Vec::new(), interception: interception(scheme, host, port) }
}

fn service(proxies: Vec<ProxyMatcher>) -> ConnectorService {
    let connector = Connector::builder(proxies, Resolver {})
        .tls_info(true)
        .build(TlsConfig { alpn_h2: true }, None);
    match connector {
        Connector::Simple(s) => s,
        Connector::WithLayers(_) => panic!("no layers were configured"),
    }
}

fn ok_outcomes(session: TlsSession) -> ConnectOutcomes {
    ConnectOutcomes {
        delay: 1,
        tcp: TcpOutcome::Connected,
        proxy_tls: TlsOutcome::Failed,
        tunnel: TunnelOutcome::Established,
        socks: SocksOutcome::Established,
        tls: TlsOutcome::Established(session),
    }
}

fn h2_session() -> TlsSession {
    TlsSession { peer_cert_der: Some(vec![0x30, 0x82, 0x01, 0x0a]), alpn_h2: true }
}

#[test]
fn direct_https_h2_scenario() {
    // Destination https://example.test/, no proxy configured, handshake
    // succeeds and negotiates HTTP/2.
    let svc = service(Vec::new());
    let dst = Destination::new(uri(Scheme::Https, "example.test", None));
    let conn = svc.call(dst, ok_outcomes(h2_session())).unwrap();
    assert!(!conn.is_proxy);
    let described = conn.connected();
    assert!(described.negotiated_h2);
    assert!(!described.is_proxy);
}

#[test]
fn plaintext_proxy_scenario() {
    // Destination http://example.test/ with a rule for
    // http://proxy.test:8080: the transport goes to the proxy and the
    // request line must be written in absolute form.
    let svc = service(vec![rule(MatchKind::Http, Scheme::Http, "proxy.test", Some(8080))]);
    let dst = Destination::new(uri(Scheme::Http, "example.test", None));
    let plan = svc.plan(&dst).unwrap();
    assert_eq!(plan.connect_host, "proxy.test");
    assert_eq!(plan.connect_port, 8080);
    assert!(plan.is_proxy);
    assert!(matches!(plan.tunnel, PlannedTunnel::Direct));
    let conn = svc.call(dst, ok_outcomes(h2_session())).unwrap();
    assert!(conn.is_proxy);
    assert!(conn.connected().is_proxy);
}

#[test]
fn socks5_https_scenario() {
    // Destination https://example.test/ through a SOCKS5 proxy: the
    // handshake over the tunnel verifies example.test and the result
    // is not proxy-form.
    let svc = service(vec![rule(MatchKind::All, Scheme::Socks5, "socks.test", Some(1080))]);
    let dst = Destination::new(uri(Scheme::Https, "example.test", None));
    let plan = svc.plan(&dst).unwrap();
    assert_eq!(plan.connect_host, "socks.test");
    assert_eq!(plan.connect_port, 1080);
    assert_eq!(plan.tls_host.as_deref(), Some("example.test"));
    assert!(!plan.is_proxy);
    match &plan.tunnel {
        PlannedTunnel::Socks { version, raw_auth } => {
            assert_eq!(*version, Scheme::Socks5);
            assert!(raw_auth.is_none());
        }
        other => panic!("expected a SOCKS tunnel, got {other:?}"),
    }
    let conn = svc.call(dst, ok_outcomes(h2_session())).unwrap();
    assert!(!conn.is_proxy);
    assert!(matches!(conn.inner.stack, Stack::Tls(_)));
}

#[test]
fn https_tunnel_uses_origin_host() {
    // An encrypted destination behind an HTTP proxy tunnels: TLS
    // verifies the origin, the transport goes to the proxy, and the
    // connection is not proxy-form.
    let svc = service(vec![rule(MatchKind::Https, Scheme::Http, "proxy.test", Some(3128))]);
    let dst = Destination::new(uri(Scheme::Https, "example.test", None));
    let plan = svc.plan(&dst).unwrap();
    assert_eq!(plan.connect_host, "proxy.test");
    assert_eq!(plan.tls_host.as_deref(), Some("example.test"));
    assert!(!plan.is_proxy);
    assert!(!plan.proxy_tls);
    assert!(matches!(plan.tunnel, PlannedTunnel::HttpConnect { .. }));
    let conn = svc.call(dst, ok_outcomes(h2_session())).unwrap();
    assert!(!conn.is_proxy);
    match conn.inner.stack {
        Stack::TlsOverTunnel { link: ProxyLink::Plain, .. } => {}
        other => panic!("expected a tunneled stack over a plain link, got {other:?}"),
    }
}

#[test]
fn no_matching_rule_is_never_proxy_form() {
    // A rule that only intercepts HTTPS leaves an HTTP destination on
    // the direct path.
    let svc = service(vec![rule(MatchKind::Https, Scheme::Http, "proxy.test", Some(8080))]);
    let dst = Destination::new(uri(Scheme::Http, "example.test", None));
    let plan = svc.plan(&dst).unwrap();
    assert_eq!(plan.connect_host, "example.test");
    assert!(!plan.is_proxy);
    let conn = svc.call(dst, ok_outcomes(h2_session())).unwrap();
    assert!(!conn.is_proxy);
}

#[test]
fn no_proxy_list_exempts_host() {
    let mut r = rule(MatchKind::All, Scheme::Http, "proxy.test", Some(8080));
    r.no_proxy.push("example.test".to_string());
    let svc = service(vec![r]);
    let dst = Destination::new(uri(Scheme::Http, "example.test", None));
    let plan = svc.plan(&dst).unwrap();
    assert_eq!(plan.connect_host, "example.test");
    assert!(!plan.is_proxy);
}

#[test]
fn first_matching_rule_wins() {
    let svc = service(vec![
        rule(MatchKind::Http, Scheme::Http, "first.test", Some(1111)),
        rule(MatchKind::All, Scheme::Http, "second.test", Some(2222)),
    ]);
    let dst = Destination::new(uri(Scheme::Http, "example.test", None));
    let plan = svc.plan(&dst).unwrap();
    assert_eq!(plan.connect_host, "first.test");
    assert_eq!(plan.connect_port, 1111);
}

#[test]
fn pre_resolved_interception_skips_matchers() {
    let svc = service(vec![rule(MatchKind::All, Scheme::Http, "ruled.test", Some(1111))]);
    let mut dst = Destination::new(uri(Scheme::Http, "example.test", None));
    dst.set_proxy_intercepted(interception(Scheme::Http, "override.test", Some(9999)));
    let plan = svc.plan(&dst).unwrap();
    assert_eq!(plan.connect_host, "override.test");
    assert_eq!(plan.connect_port, 9999);
    assert!(plan.is_proxy);
}

#[test]
fn timeout_beats_transport_failure() {
    // A timeout shorter than the attempt's delay resolves to the
    // distinct timeout error even though the connect itself failed,
    // and no handle is produced.
    let connector = Connector::builder(Vec::new(), Resolver {})
        .connect_timeout(Some(10))
        .build(TlsConfig { alpn_h2: false }, None);
    let dst = Destination::new(uri(Scheme::Http, "example.test", None));
    let net = ConnectOutcomes {
        delay: 50,
        tcp: TcpOutcome::Failed,
        proxy_tls: TlsOutcome::Failed,
        tunnel: TunnelOutcome::Refused,
        socks: SocksOutcome::Failed,
        tls: TlsOutcome::Failed,
    };
    let r = connector.call(dst, net);
    assert!(matches!(r, Err(ConnectError::Timeout)));
}

#[test]
fn attempt_within_timeout_keeps_its_result() {
    let connector = Connector::builder(Vec::new(), Resolver {})
        .connect_timeout(Some(50))
        .build(TlsConfig { alpn_h2: false }, None);
    let dst = Destination::new(uri(Scheme::Http, "example.test", None));
    let net = ConnectOutcomes {
        delay: 10,
        tcp: TcpOutcome::Failed,
        proxy_tls: TlsOutcome::Failed,
        tunnel: TunnelOutcome::Refused,
        socks: SocksOutcome::Failed,
        tls: TlsOutcome::Failed,
    };
    let r = connector.call(dst, net);
    assert!(matches!(r, Err(ConnectError::Transport)));
}

fn conn_shape(c: &Conn) -> (bool, bool, bool) {
    (c.is_proxy, c.tls_info, matches!(c.inner.stack, Stack::Tls(_)))
}

#[test]
fn two_attempts_are_independent() {
    // Two calls with equivalent destinations over the same shared
    // configuration resolve alike, and dropping one result leaves the
    // other untouched.
    let svc = service(Vec::new());
    let dst1 = Destination::new(uri(Scheme::Https, "example.test", None));
    let dst2 = Destination::new(uri(Scheme::Https, "example.test", None));
    let first = svc.call(dst1, ok_outcomes(h2_session())).unwrap();
    let second = svc.call(dst2, ok_outcomes(h2_session())).unwrap();
    let shape = conn_shape(&first);
    drop(first);
    assert_eq!(shape, conn_shape(&second));
    assert_eq!(second.connected().negotiated_h2, true);
}

#[test]
fn error_classes_by_failing_step() {
    let svc = service(Vec::new());
    let mut net = ok_outcomes(h2_session());
    net.tcp = TcpOutcome::Failed;
    let dst = Destination::new(uri(Scheme::Https, "example.test", None));
    assert!(matches!(svc.call(dst, net), Err(ConnectError::Transport)));

    let mut net = ok_outcomes(h2_session());
    net.tls = TlsOutcome::Failed;
    let dst = Destination::new(uri(Scheme::Https, "example.test", None));
    assert!(matches!(svc.call(dst, net), Err(ConnectError::Tls)));

    let tunneling = service(vec![rule(MatchKind::Https, Scheme::Http, "proxy.test", Some(3128))]);
    let mut net = ok_outcomes(h2_session());
    net.tunnel = TunnelOutcome::Refused;
    let dst = Destination::new(uri(Scheme::Https, "example.test", None));
    assert!(matches!(tunneling.call(dst, net), Err(ConnectError::Tunnel)));

    let socks = service(vec![rule(MatchKind::All, Scheme::Socks5, "socks.test", Some(1080))]);
    let mut net = ok_outcomes(h2_session());
    net.socks = SocksOutcome::Failed;
    let dst = Destination::new(uri(Scheme::Https, "example.test", None));
    assert!(matches!(socks.call(dst, net), Err(ConnectError::Tunnel)));
}

#[test]
fn missing_host_is_fatal_for_tunnel() {
    let svc = service(vec![rule(MatchKind::Https, Scheme::Http, "proxy.test", Some(3128))]);
    let dst = Destination::new(Uri::new(Scheme::Https, None, None));
    assert!(matches!(svc.plan(&dst), Err(ConnectError::UriBadHost)));
    let r = svc.call(dst, ok_outcomes(h2_session()));
    assert!(matches!(r, Err(ConnectError::UriBadHost)));
}

#[test]
fn plaintext_proxy_rewrites_effective_scheme() {
    // An HTTPS proxy standing in for a plaintext destination: the
    // transport handshakes with the proxy itself and the connection is
    // proxy-form.
    let svc = service(vec![rule(MatchKind::Http, Scheme::Https, "proxy.test", Some(443))]);
    let dst = Destination::new(uri(Scheme::Http, "example.test", None));
    let plan = svc.plan(&dst).unwrap();
    assert_eq!(plan.connect_host, "proxy.test");
    assert_eq!(plan.tls_host.as_deref(), Some("proxy.test"));
    assert!(plan.is_proxy);
    let conn = svc.call(dst, ok_outcomes(h2_session())).unwrap();
    assert!(conn.is_proxy);
    assert!(matches!(conn.inner.stack, Stack::Tls(_)));
}

#[test]
fn socks_plaintext_is_transparent_tcp() {
    let svc = service(vec![rule(MatchKind::All, Scheme::Socks5h, "socks.test", None)]);
    let dst = Destination::new(uri(Scheme::Http, "example.test", None));
    let plan = svc.plan(&dst).unwrap();
    assert_eq!(plan.connect_port, 1080);
    let conn = svc.call(dst, ok_outcomes(h2_session())).unwrap();
    assert!(!conn.is_proxy);
    assert!(!conn.tls_info);
    assert!(matches!(conn.inner.stack, Stack::Tcp));
}

#[test]
fn default_ports_by_scheme() {
    let svc = service(Vec::new());
    let dst = Destination::new(uri(Scheme::Https, "example.test", None));
    assert_eq!(svc.plan(&dst).unwrap().connect_port, 443);
    let dst = Destination::new(uri(Scheme::Http, "example.test", None));
    assert_eq!(svc.plan(&dst).unwrap().connect_port, 80);
    let dst = Destination::new(uri(Scheme::Http, "example.test", Some(8123)));
    assert_eq!(svc.plan(&dst).unwrap().connect_port, 8123);
}

#[test]
fn error_names() {
    assert_eq!(ConnectError::Timeout.name(), "timeout");
    assert_eq!(ConnectError::Transport.name(), "transport");
    assert_eq!(ConnectError::Tls.name(), "tls");
    assert_eq!(ConnectError::Tunnel.name(), "tunnel");
    assert_eq!(ConnectError::UriBadHost.name(), "bad host");
}

#[test]
fn nodelay_toggled_around_handshake() {
    // With the caller's delay setting left on (nodelay off), the
    // handshake phase still runs with nodelay, and the caller's
    // setting is restored afterwards.
    let svc = service(Vec::new());
    let dst = Destination::new(uri(Scheme::Https, "example.test", None));
    let plan = svc.plan(&dst).unwrap();
    assert!(plan.nodelay_during_handshake);
    assert!(!plan.nodelay_after);
    let dst = Destination::new(uri(Scheme::Http, "example.test", None));
    let plan = svc.plan(&dst).unwrap();
    assert!(!plan.nodelay_during_handshake);
}
