use connect_core::proxy::Intercepted;
use connect_core::socks::{
    socks4_connect, socks4_reply_ok, socks4a_connect, socks5_auth_ok, socks5_auth_request,
    socks5_connect_domain, socks5_connect_ipv4, socks5_greeting, socks5_method_ok,
    socks5_reply_ok,
};
use connect_core::tunnel::{connect_request, tunnel_established, tunnel_response_code};
use connect_core::uri::{Scheme, Uri};
use connect_core::verbose::{escape, escape_vectored};

fn plain_interception() -> Intercepted {
    Intercepted {
        uri: Uri::new(Scheme::Http, Some("proxy.test".to_string()), Some(3128)),
        basic_auth: None,
        raw_auth: None,
        custom_headers: None,
    }
}

#[test]
fn connect_request_minimal() {
    let host = "example.test".to_string();
    let r = connect_request(&host, 443, &plain_interception());
    assert_eq!(
        r,
        "CONNECT example.test:443 HTTP/1.1\r\nHost: example.test:443\r\n\r\n"
    );
}

#[test]
fn connect_request_with_auth_and_headers() {
    let host = "example.test".to_string();
    let mut proxy = plain_interception();
    proxy.basic_auth = Some("Basic dXNlcjpwdw==".to_string());
    proxy.custom_headers = Some(vec![
        ("User-Agent".to_string(), "probe".to_string()),
        ("X-Padding".to_string(), "1".to_string()),
    ]);
    let r = connect_request(&host, 8443, &proxy);
    assert_eq!(
        r,
        "CONNECT example.test:8443 HTTP/1.1\r\nHost: example.test:8443\r\nProxy-Authorization: Basic dXNlcjpwdw==\r\nUser-Agent: probe\r\nX-Padding: 1\r\n\r\n"
    );
}

#[test]
fn connect_request_port_rendering() {
    let host = "h".to_string();
    let r = connect_request(&host, 65535, &plain_interception());
    assert_eq!(r, "CONNECT h:65535 HTTP/1.1\r\nHost: h:65535\r\n\r\n");
    let r = connect_request(&host, 7, &plain_interception());
    assert_eq!(r, "CONNECT h:7 HTTP/1.1\r\nHost: h:7\r\n\r\n");
}

#[test]
fn tunnel_response_classification() {
    let ok = b"HTTP/1.1 200 Connection established\r\n\r\n".to_vec();
    assert_eq!(tunnel_response_code(&ok), Some(200));
    assert!(tunnel_established(&ok));

    let ok_10 = b"HTTP/1.0 204 No Content\r\n\r\n".to_vec();
    assert_eq!(tunnel_response_code(&ok_10), Some(204));
    assert!(tunnel_established(&ok_10));

    let denied = b"HTTP/1.1 407 Proxy Authentication Required\r\n\r\n".to_vec();
    assert_eq!(tunnel_response_code(&denied), Some(407));
    assert!(!tunnel_established(&denied));

    let garbage = b"SSH-2.0-OpenSSH\r\n".to_vec();
    assert_eq!(tunnel_response_code(&garbage), None);
    assert!(!tunnel_established(&garbage));

    let short = b"HTTP/1.1 2".to_vec();
    assert_eq!(tunnel_response_code(&short), None);
}

#[test]
fn socks5_greeting_bytes() {
    assert_eq!(socks5_greeting(false), vec![5, 1, 0]);
    assert_eq!(socks5_greeting(true), vec![5, 2, 0, 2]);
}

#[test]
fn socks5_method_selection() {
    assert!(socks5_method_ok(&vec![5, 0], false));
    assert!(!socks5_method_ok(&vec![5, 2], false));
    assert!(socks5_method_ok(&vec![5, 2], true));
    assert!(!socks5_method_ok(&vec![5, 0xff], true));
    assert!(!socks5_method_ok(&vec![4, 0], false));
}

#[test]
fn socks5_auth_exchange() {
    let user = b"user".to_vec();
    let pass = b"pw".to_vec();
    assert_eq!(
        socks5_auth_request(&user, &pass),
        vec![1, 4, b'u', b's', b'e', b'r', 2, b'p', b'w']
    );
    assert!(socks5_auth_ok(&vec![1, 0]));
    assert!(!socks5_auth_ok(&vec![1, 1]));
}

#[test]
fn socks5_connect_requests() {
    let host = b"example.test".to_vec();
    let r = socks5_connect_domain(&host, 443);
    let mut expected = vec![5, 1, 0, 3, 12];
    expected.extend_from_slice(b"example.test");
    expected.extend_from_slice(&[1, 187]);
    assert_eq!(r, expected);

    let r = socks5_connect_ipv4(0x7f000001, 8080);
    assert_eq!(r, vec![5, 1, 0, 1, 127, 0, 0, 1, 31, 144]);
}

#[test]
fn socks5_reply_classification() {
    assert!(socks5_reply_ok(&vec![5, 0, 0, 1, 0, 0, 0, 0, 0, 0]));
    assert!(!socks5_reply_ok(&vec![5, 5, 0, 1, 0, 0, 0, 0, 0, 0]));
    assert!(!socks5_reply_ok(&vec![5]));
}

#[test]
fn socks4_connect_requests() {
    let userid = b"id".to_vec();
    let r = socks4_connect(0x0a000001, 80, &userid);
    assert_eq!(r, vec![4, 1, 0, 80, 10, 0, 0, 1, b'i', b'd', 0]);

    let host = b"example.test".to_vec();
    let r = socks4a_connect(&host, 80, &userid);
    let mut expected = vec![4, 1, 0, 80, 0, 0, 0, 1, b'i', b'd', 0];
    expected.extend_from_slice(b"example.test");
    expected.push(0);
    assert_eq!(r, expected);
}

#[test]
fn socks4_reply_classification() {
    assert!(socks4_reply_ok(&vec![0, 90, 0, 0, 0, 0, 0, 0]));
    assert!(!socks4_reply_ok(&vec![0, 91, 0, 0, 0, 0, 0, 0]));
    assert!(!socks4_reply_ok(&vec![0]));
}

#[test]
fn escape_renders_bytes_readably() {
    let bytes = b"a\n\"\x7f\\\t\r\0~".to_vec();
    let r = escape(&bytes);
    assert_eq!(r, b"b\"a\\n\\\"\\x7f\\\\\\t\\r\\0~\"".to_vec());
}

#[test]
fn escape_vectored_truncates_to_written() {
    let bufs = vec![b"abc".to_vec(), b"def".to_vec(), b"ghi".to_vec()];
    let r = escape_vectored(&bufs, 5);
    assert_eq!(r, b"b\"abc\"b\"de\"".to_vec());

    let r = escape_vectored(&bufs, 0);
    assert_eq!(r, Vec::<u8>::new());

    let r = escape_vectored(&bufs, 100);
    assert_eq!(r, b"b\"abc\"b\"def\"b\"ghi\"".to_vec());
}
