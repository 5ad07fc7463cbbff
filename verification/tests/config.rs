use connect_core::conn::Conn;
use connect_core::connect::{Connector, ConnectorLayer};
use connect_core::http2::{
    Http2Config, PseudoId, PseudoOrder, StreamDependency, StreamId, DEFAULT_CONN_WINDOW_SIZE,
    DEFAULT_INITIAL_MAX_SEND_STREAMS, DEFAULT_MAX_SEND_BUF_SIZE, DEFAULT_STREAM_WINDOW_SIZE,
    SPEC_WINDOW_SIZE,
};
use connect_core::tcp::Resolver;
use connect_core::tls::{TlsConfig, TlsConnector, TlsVersion};
use connect_core::transport::{ProxyLink, Stack, TlsSession, Transport, Wrapper};

#[test]
fn builder_accumulates_socket_options() {
    let b = Connector::builder(Vec::new(), Resolver {})
        .keepalive(Some(15_000))
        .tcp_keepalive_interval(Some(5_000))
        .tcp_keepalive_retries(Some(3))
        .tcp_user_timeout(Some(30_000))
        .connect_timeout(Some(10_000))
        .interface(Some("eth0".to_string()))
        .local_addresses(Some(0x0a000002), None)
        .nodelay(true)
        .verbose(true);
    assert_eq!(b.http.keepalive, Some(15_000));
    assert_eq!(b.http.keepalive_interval, Some(5_000));
    assert_eq!(b.http.keepalive_retries, Some(3));
    assert_eq!(b.http.user_timeout, Some(30_000));
    assert_eq!(b.http.connect_timeout, Some(10_000));
    assert_eq!(b.timeout, Some(10_000));
    assert_eq!(b.http.interface.as_deref(), Some("eth0"));
    assert_eq!(b.http.local_ipv4, Some(0x0a000002));
    assert_eq!(b.http.local_ipv6, None);
    assert!(b.http.nodelay);
    assert!(b.nodelay);
    assert_eq!(b.verbose, Wrapper(true));
    assert!(!b.http.enforce_http);
}

#[test]
fn builder_accumulates_tls_options() {
    let b = Connector::builder(Vec::new(), Resolver {})
        .tls_min_version(Some(TlsVersion::Tls12))
        .tls_max_version(Some(TlsVersion::Tls13))
        .tls_sni(false)
        .tls_verify_hostname(false)
        .tls_cert_verification(false)
        .tls_info(true);
    assert_eq!(b.tls_builder.min_version, Some(TlsVersion::Tls12));
    assert_eq!(b.tls_builder.max_version, Some(TlsVersion::Tls13));
    assert!(!b.tls_builder.sni);
    assert!(!b.tls_builder.verify_hostname);
    assert!(!b.tls_builder.cert_verification);
    assert!(b.tls_info);
}

#[test]
fn tls_builder_defaults() {
    let b = TlsConnector::builder();
    assert!(b.sni);
    assert!(b.verify_hostname);
    assert!(b.cert_verification);
    assert!(b.min_version.is_none());
    assert!(b.max_version.is_none());
    assert!(b.keylog.is_none());
    assert!(b.identity.is_none());
    assert!(b.cert_store.is_none());
}

#[test]
fn build_chooses_direct_shape_without_layers() {
    let c = Connector::builder(Vec::new(), Resolver {})
        .connect_timeout(Some(7))
        .build(TlsConfig { alpn_h2: false }, None);
    match c {
        Connector::Simple(s) => assert_eq!(s.timeout, Some(7)),
        Connector::WithLayers(_) => panic!("expected the direct shape"),
    }
}

#[test]
fn build_chooses_layered_shape_with_layers() {
    let c = Connector::builder(Vec::new(), Resolver {})
        .connect_timeout(Some(7))
        .build(
            TlsConfig { alpn_h2: false },
            Some(vec![ConnectorLayer {}, ConnectorLayer {}]),
        );
    match c {
        Connector::Simple(_) => panic!("expected the layered shape"),
        Connector::WithLayers(l) => {
            assert_eq!(l.layer_count, 2);
            assert_eq!(l.timeout, Some(7));
            // The base service embeds no timeout; it sits outermost.
            assert_eq!(l.service.timeout, None);
        }
    }
}

#[test]
fn h2_defaults() {
    let cfg = Http2Config::builder().build();
    assert!(!cfg.h2_builder.adaptive_window);
    assert_eq!(cfg.h2_builder.initial_stream_window_size, DEFAULT_STREAM_WINDOW_SIZE);
    assert_eq!(cfg.h2_builder.initial_conn_window_size, DEFAULT_CONN_WINDOW_SIZE);
    assert_eq!(cfg.h2_builder.initial_max_send_streams, DEFAULT_INITIAL_MAX_SEND_STREAMS);
    assert_eq!(cfg.h2_builder.max_send_buffer_size, DEFAULT_MAX_SEND_BUF_SIZE);
    assert!(cfg.h2_builder.max_frame_size.is_none());
    assert!(cfg.h2_builder.initial_stream_id.is_none());
}

#[test]
fn h2_window_setters_disable_adaptive() {
    let cfg = Http2Config::builder()
        .adaptive_window(true)
        .initial_stream_window_size(Some(1_000))
        .initial_connection_window_size(Some(2_000))
        .build();
    assert!(!cfg.h2_builder.adaptive_window);
    assert_eq!(cfg.h2_builder.initial_stream_window_size, 1_000);
    assert_eq!(cfg.h2_builder.initial_conn_window_size, 2_000);
}

#[test]
fn h2_window_setters_ignore_nothing() {
    let cfg = Http2Config::builder()
        .initial_stream_window_size(None)
        .initial_connection_window_size(None)
        .initial_max_send_streams(None)
        .build();
    assert_eq!(cfg.h2_builder.initial_stream_window_size, DEFAULT_STREAM_WINDOW_SIZE);
    assert_eq!(cfg.h2_builder.initial_conn_window_size, DEFAULT_CONN_WINDOW_SIZE);
    assert_eq!(cfg.h2_builder.initial_max_send_streams, DEFAULT_INITIAL_MAX_SEND_STREAMS);
}

#[test]
fn h2_adaptive_window_resets_to_spec_size() {
    let cfg = Http2Config::builder()
        .initial_stream_window_size(Some(1_000))
        .adaptive_window(true)
        .build();
    assert!(cfg.h2_builder.adaptive_window);
    assert_eq!(cfg.h2_builder.initial_stream_window_size, SPEC_WINDOW_SIZE);
    assert_eq!(cfg.h2_builder.initial_conn_window_size, SPEC_WINDOW_SIZE);
    assert_eq!(SPEC_WINDOW_SIZE, 65_535);
}

#[test]
fn h2_plain_setters() {
    let dep = StreamDependency {
        dependency_id: StreamId(0),
        weight: 200,
        is_exclusive: false,
    };
    let order = PseudoOrder {
        ids: vec![PseudoId::Method, PseudoId::Scheme, PseudoId::Authority, PseudoId::Path],
    };
    let cfg = Http2Config::builder()
        .initial_stream_id(Some(3))
        .max_frame_size(Some(16_384))
        .max_header_list_size(262_144)
        .header_table_size(Some(4_096))
        .max_concurrent_streams(Some(100))
        .enable_push(false)
        .enable_connect_protocol(true)
        .no_rfc7540_priorities(true)
        .max_concurrent_reset_streams(8)
        .max_send_buf_size(1 << 20)
        .max_pending_accept_reset_streams(Some(4))
        .headers_stream_dependency(Some(dep))
        .headers_pseudo_order(Some(order))
        .build();
    assert_eq!(cfg.h2_builder.initial_stream_id, Some(3));
    assert_eq!(cfg.h2_builder.max_frame_size, Some(16_384));
    assert_eq!(cfg.h2_builder.max_header_list_size, Some(262_144));
    assert_eq!(cfg.h2_builder.header_table_size, Some(4_096));
    assert_eq!(cfg.h2_builder.max_concurrent_streams, Some(100));
    assert_eq!(cfg.h2_builder.enable_push, Some(false));
    assert_eq!(cfg.h2_builder.enable_connect_protocol, Some(true));
    assert_eq!(cfg.h2_builder.no_rfc7540_priorities, Some(true));
    assert_eq!(cfg.h2_builder.max_concurrent_reset_streams, Some(8));
    assert_eq!(cfg.h2_builder.max_send_buffer_size, 1 << 20);
    assert_eq!(cfg.h2_builder.max_pending_accept_reset_streams, Some(4));
    assert_eq!(cfg.h2_builder.headers_stream_dependency, Some(dep));
    let ids = cfg.h2_builder.headers_pseudo_order.unwrap().ids;
    assert_eq!(ids[0], PseudoId::Method);
    assert_eq!(ids.len(), 4);
}

fn tls_conn(tls_info: bool, cert: Option<Vec<u8>>) -> Conn {
    Conn {
        inner: Transport {
            stack: Stack::Tls(TlsSession { peer_cert_der: cert, alpn_h2: false }),
            verbose: false,
        },
        is_proxy: false,
        tls_info,
    }
}

#[test]
fn tls_info_none_on_plain_tcp() {
    let conn = Conn {
        inner: Transport { stack: Stack::Tcp, verbose: false },
        is_proxy: false,
        tls_info: true,
    };
    assert!(conn.connected().tls_info.is_none());
}

#[test]
fn tls_info_surfaces_peer_certificate() {
    let der = vec![0x30, 0x82, 0x01, 0x0a];
    let conn = tls_conn(true, Some(der.clone()));
    let info = conn.connected().tls_info.unwrap();
    assert_eq!(info.peer_certificate, Some(der));
}

#[test]
fn tls_info_flag_off_yields_none() {
    let der = vec![0x30, 0x82, 0x01, 0x0a];
    let conn = tls_conn(false, Some(der));
    assert!(conn.connected().tls_info.is_none());
}

#[test]
fn tls_info_none_without_certificate() {
    let conn = tls_conn(true, None);
    assert!(conn.connected().tls_info.is_none());
}

#[test]
fn tls_info_delegates_through_tunnel_link() {
    // A tunneled TLS layer forwards the lookup to the link beneath it:
    // a plain link answers nothing, an encrypted link answers with its
    // own certificate.
    let origin = TlsSession { peer_cert_der: Some(vec![1, 2, 3]), alpn_h2: true };
    let conn = Conn {
        inner: Transport {
            stack: Stack::TlsOverTunnel { session: origin, link: ProxyLink::Plain },
            verbose: true,
        },
        is_proxy: false,
        tls_info: true,
    };
    let described = conn.connected();
    assert!(described.tls_info.is_none());
    assert!(described.negotiated_h2);

    let origin = TlsSession { peer_cert_der: Some(vec![1, 2, 3]), alpn_h2: false };
    let proxy_session = TlsSession { peer_cert_der: Some(vec![9, 9]), alpn_h2: false };
    let conn = Conn {
        inner: Transport {
            stack: Stack::TlsOverTunnel { session: origin, link: ProxyLink::Tls(proxy_session) },
            verbose: false,
        },
        is_proxy: false,
        tls_info: true,
    };
    let info = conn.connected().tls_info.unwrap();
    assert_eq!(info.peer_certificate, Some(vec![9, 9]));
}
