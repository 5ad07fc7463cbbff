//! The HTTP CONNECT tunnel negotiator: building the CONNECT request
//! for a target behind a proxy, and reading the proxy's answer. The
//! exchange itself runs over a transport the runtime owns; the request
//! text and the classification of the response are fixed here by
//! contract, byte for byte.

use vstd::prelude::*;

use crate::proxy::Intercepted;

verus! {

/// The decimal digit character for one digit value.
pub open spec fn spec_digit_char(d: nat) -> char {
    ((48 + d) as u8) as char
}

/// The decimal rendering of a number, most significant digit first.
pub open spec fn spec_dec_chars(n: nat) -> Seq<char>
    decreases n,
{
    if n < 10 {
        seq![spec_digit_char(n)]
    } else {
        spec_dec_chars(n / 10).push(spec_digit_char(n % 10))
    }
}

/// Append one digit character.
fn append_digit(s: &mut String, d: u16)
    requires
        d < 10,
    ensures
        final(s)@ == old(s)@ + seq![spec_digit_char(d as nat)],
{
    let part: &str = match d {
        0 => "0",
        1 => "1",
        2 => "2",
        3 => "3",
        4 => "4",
        5 => "5",
        6 => "6",
        7 => "7",
        8 => "8",
        _ => "9",
    };
    proof {
        reveal_strlit("0");
        reveal_strlit("1");
        reveal_strlit("2");
        reveal_strlit("3");
        reveal_strlit("4");
        reveal_strlit("5");
        reveal_strlit("6");
        reveal_strlit("7");
        reveal_strlit("8");
        reveal_strlit("9");
    }
    s.append(part);
    proof {
        assert(final(s)@ =~= old(s)@ + seq![spec_digit_char(d as nat)]);
    }
}

/// Append the decimal rendering of a number.
fn append_decimal(s: &mut String, n: u16)
    ensures
        final(s)@ == old(s)@ + spec_dec_chars(n as nat),
    decreases n,
{
    if n < 10 {
        append_digit(s, n);
    } else {
        append_decimal(s, n / 10);
        append_digit(s, n % 10);
        proof {
            assert(final(s)@ =~= old(s)@ + spec_dec_chars(n as nat));
        }
    }
}

/// `host:port` as written in the request line and the Host header.
pub open spec fn spec_host_port(host: Seq<char>, port: u16) -> Seq<char> {
    host + ":"@ + spec_dec_chars(port as nat)
}

/// One custom header line, `name: value` under the usual terminator.
pub open spec fn spec_header_line(name: Seq<char>, value: Seq<char>) -> Seq<char> {
    name + ": "@ + value + "\r\n"@
}

/// The custom header lines in their configured order.
pub open spec fn spec_headers_block(hs: Seq<(Seq<char>, Seq<char>)>) -> Seq<char>
    decreases hs.len(),
{
    if hs.len() == 0 {
        Seq::empty()
    } else {
        spec_header_line(hs[0].0, hs[0].1) + spec_headers_block(hs.drop_first())
    }
}

/// Appending one header to the list appends its line to the block.
proof fn lemma_headers_block_snoc(hs: Seq<(Seq<char>, Seq<char>)>, p: (Seq<char>, Seq<char>))
    ensures
        spec_headers_block(hs.push(p)) == spec_headers_block(hs) + spec_header_line(p.0, p.1),
    decreases hs.len(),
{
    if hs.len() == 0 {
        assert(hs.push(p).drop_first() =~= hs);
        assert(spec_headers_block(hs.push(p)) =~= spec_headers_block(hs) + spec_header_line(
            p.0,
            p.1,
        ));
    } else {
        assert(hs.push(p).drop_first() =~= hs.drop_first().push(p));
        lemma_headers_block_snoc(hs.drop_first(), p);
        assert(spec_headers_block(hs.push(p)) =~= spec_headers_block(hs) + spec_header_line(
            p.0,
            p.1,
        ));
    }
}

/// The views of a custom header list.
pub open spec fn spec_header_views(hs: Vec<(String, String)>) -> Seq<(Seq<char>, Seq<char>)> {
    hs@.map_values(|p: (String, String)| (p.0@, p.1@))
}

/// The whole CONNECT request for a target host and port: the request
/// line, the Host header, the optional ready-made basic-auth header,
/// the custom headers in order, and the terminating blank line.
pub open spec fn spec_connect_request(
    host: Seq<char>,
    port: u16,
    auth: Option<Seq<char>>,
    headers: Seq<(Seq<char>, Seq<char>)>,
) -> Seq<char> {
    "CONNECT "@ + spec_host_port(host, port) + " HTTP/1.1\r\n"@ + "Host: "@ + spec_host_port(
        host,
        port,
    ) + "\r\n"@ + (match auth {
        Some(a) => "Proxy-Authorization: "@ + a + "\r\n"@,
        None => Seq::empty(),
    }) + spec_headers_block(headers) + "\r\n"@
}

/// The auth and headers an interception contributes to the request.
pub open spec fn spec_auth_view(i: Intercepted) -> Option<Seq<char>> {
    match i.basic_auth {
        Some(a) => Some(a@),
        None => None,
    }
}

pub open spec fn spec_headers_of(i: Intercepted) -> Seq<(Seq<char>, Seq<char>)> {
    match i.custom_headers {
        Some(hs) => spec_header_views(hs),
        None => Seq::empty(),
    }
}

/// Build the CONNECT request text for a target behind the given
/// interception.
pub fn connect_request(host: &String, port: u16, proxy: &Intercepted) -> (r: String)
    ensures
        r@ == spec_connect_request(host@, port, spec_auth_view(*proxy), spec_headers_of(*proxy)),
{
    let mut s = String::new();
    s.append("CONNECT ");
    s.append(host.as_str());
    s.append(":");
    append_decimal(&mut s, port);
    s.append(" HTTP/1.1\r\n");
    s.append("Host: ");
    s.append(host.as_str());
    s.append(":");
    append_decimal(&mut s, port);
    s.append("\r\n");
    if let Some(a) = &proxy.basic_auth {
        s.append("Proxy-Authorization: ");
        s.append(a.as_str());
        s.append("\r\n");
    }
    let ghost prefix: Seq<char> = s@;
    if let Some(hs) = &proxy.custom_headers {
        let mut i: usize = 0;
        while i < hs.len()
            invariant
                i <= hs.len(),
                s@ == prefix + spec_headers_block(spec_header_views(*hs).take(i as int)),
            decreases hs.len() - i,
        {
            s.append(hs[i].0.as_str());
            s.append(": ");
            s.append(hs[i].1.as_str());
            s.append("\r\n");
            proof {
                lemma_headers_block_snoc(
                    spec_header_views(*hs).take(i as int),
                    (hs@[i as int].0@, hs@[i as int].1@),
                );
                assert(spec_header_views(*hs).take(i as int).push(
                    (hs@[i as int].0@, hs@[i as int].1@),
                ) =~= spec_header_views(*hs).take(i as int + 1));
            }
            i = i + 1;
        }
        proof {
            assert(spec_header_views(*hs).take(hs@.len() as int) =~= spec_header_views(*hs));
        }
    }
    s.append("\r\n");
    proof {
        assert(s@ =~= spec_connect_request(
            host@,
            port,
            spec_auth_view(*proxy),
            spec_headers_of(*proxy),
        ));
    }
    s
}

/// Whether a byte is a decimal digit.
pub open spec fn spec_is_digit(b: u8) -> bool {
    48 <= b <= 57
}

/// The status code of the proxy's response, read from the fixed
/// positions of the status line; nothing when the line is not an
/// HTTP/1.x status line with a three-digit code.
pub open spec fn spec_tunnel_response_code(resp: Seq<u8>) -> Option<u16> {
    if resp.len() >= 12 && resp[0] == 72 && resp[1] == 84 && resp[2] == 84 && resp[3] == 80
        && resp[4] == 47 && resp[5] == 49 && resp[6] == 46 && (resp[7] == 48 || resp[7] == 49)
        && resp[8] == 32 && spec_is_digit(resp[9]) && spec_is_digit(resp[10]) && spec_is_digit(
        resp[11],
    ) {
        Some((((resp[9] - 48) as u16) * 100 + ((resp[10] - 48) as u16) * 10 + (resp[11]
            - 48) as u16) as u16)
    } else {
        None
    }
}

/// Whether the proxy established the tunnel: a well-formed status line
/// with a success code.
pub open spec fn spec_tunnel_established(resp: Seq<u8>) -> bool {
    match spec_tunnel_response_code(resp) {
        Some(code) => 200 <= code < 300,
        None => false,
    }
}

/// Read the status code out of the proxy's response head.
pub fn tunnel_response_code(resp: &Vec<u8>) -> (r: Option<u16>)
    ensures
        r == spec_tunnel_response_code(resp@),
{
    if resp.len() >= 12 && resp[0] == 72 && resp[1] == 84 && resp[2] == 84 && resp[3] == 80
        && resp[4] == 47 && resp[5] == 49 && resp[6] == 46 && (resp[7] == 48 || resp[7] == 49)
        && resp[8] == 32 && 48 <= resp[9] && resp[9] <= 57 && 48 <= resp[10] && resp[10] <= 57
        && 48 <= resp[11] && resp[11] <= 57 {
        let code: u16 = ((resp[9] - 48) as u16) * 100 + ((resp[10] - 48) as u16) * 10 + (resp[11]
            - 48) as u16;
        Some(code)
    } else {
        None
    }
}

/// Classify the proxy's response: true exactly on a well-formed status
/// line with a success code; anything else fails the attempt.
pub fn tunnel_established(resp: &Vec<u8>) -> (r: bool)
    ensures
        r == spec_tunnel_established(resp@),
{
    match tunnel_response_code(resp) {
        Some(code) => 200 <= code && code < 300,
        None => false,
    }
}

} // verus!
