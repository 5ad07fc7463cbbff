//! The SOCKS tunnel negotiator: the handshake messages of the four
//! variants and the classification of the proxy's replies. The bytes
//! travel over a transport the runtime owns; what is sent and what
//! counts as success is fixed here by contract. Variants 4 and 4a
//! carry the client's own resolution (an address, or the host for the
//! proxy to resolve); variant 5 carries a resolved address and 5h the
//! host name.

use vstd::prelude::*;

verus! {

/// Append every byte of `bytes`.
fn push_all(out: &mut Vec<u8>, bytes: &Vec<u8>)
    ensures
        final(out)@ == old(out)@ + bytes@,
{
    let mut i: usize = 0;
    while i < bytes.len()
        invariant
            i <= bytes.len(),
            out@ == old(out)@ + bytes@.take(i as int),
        decreases bytes.len() - i,
    {
        out.push(bytes[i]);
        assert(out@ =~= old(out)@ + bytes@.take(i as int + 1));
        i = i + 1;
    }
    assert(bytes@.take(bytes.len() as int) =~= bytes@);
}

/// The big-endian bytes of a port.
pub open spec fn spec_port_bytes(port: u16) -> Seq<u8> {
    seq![(port / 256) as u8, (port % 256) as u8]
}

/// The four octets of an IPv4 address held as one 32-bit value.
pub open spec fn spec_ipv4_bytes(addr: u32) -> Seq<u8> {
    seq![
        (addr / 0x1000000) as u8,
        ((addr / 0x10000) % 256) as u8,
        ((addr / 256) % 256) as u8,
        (addr % 256) as u8,
    ]
}

/// The variant-5 greeting: version, method count, then the offered
/// methods — always no-auth, and username/password when credentials
/// are configured.
pub open spec fn spec_socks5_greeting(with_auth: bool) -> Seq<u8> {
    if with_auth {
        seq![5u8, 2u8, 0u8, 2u8]
    } else {
        seq![5u8, 1u8, 0u8]
    }
}

/// Build the variant-5 greeting.
pub fn socks5_greeting(with_auth: bool) -> (r: Vec<u8>)
    ensures
        r@ == spec_socks5_greeting(with_auth),
{
    let mut out: Vec<u8> = Vec::new();
    out.push(5);
    if with_auth {
        out.push(2);
        out.push(0);
        out.push(2);
        assert(out@ =~= spec_socks5_greeting(true));
    } else {
        out.push(1);
        out.push(0);
        assert(out@ =~= spec_socks5_greeting(false));
    }
    out
}

/// Whether the proxy selected a method this client offered: no-auth,
/// or username/password when credentials were offered.
pub open spec fn spec_socks5_method_ok(reply: Seq<u8>, with_auth: bool) -> bool {
    reply.len() == 2 && reply[0] == 5 && (reply[1] == 0 || (with_auth && reply[1] == 2))
}

/// Classify the proxy's method selection.
pub fn socks5_method_ok(reply: &Vec<u8>, with_auth: bool) -> (r: bool)
    ensures
        r == spec_socks5_method_ok(reply@, with_auth),
{
    reply.len() == 2 && reply[0] == 5 && (reply[1] == 0 || (with_auth && reply[1] == 2))
}

/// The username/password exchange of variant 5: subnegotiation
/// version, then each credential length-prefixed.
pub open spec fn spec_socks5_auth_request(user: Seq<u8>, pass: Seq<u8>) -> Seq<u8> {
    seq![1u8, user.len() as u8] + user + seq![pass.len() as u8] + pass
}

/// Build the username/password exchange.
pub fn socks5_auth_request(user: &Vec<u8>, pass: &Vec<u8>) -> (r: Vec<u8>)
    requires
        user@.len() <= 255,
        pass@.len() <= 255,
    ensures
        r@ == spec_socks5_auth_request(user@, pass@),
{
    let mut out: Vec<u8> = Vec::new();
    out.push(1);
    out.push(user.len() as u8);
    push_all(&mut out, user);
    out.push(pass.len() as u8);
    push_all(&mut out, pass);
    assert(out@ =~= spec_socks5_auth_request(user@, pass@));
    out
}

/// Whether the proxy accepted the credentials.
pub open spec fn spec_socks5_auth_ok(reply: Seq<u8>) -> bool {
    reply.len() == 2 && reply[0] == 1 && reply[1] == 0
}

/// Classify the credential reply.
pub fn socks5_auth_ok(reply: &Vec<u8>) -> (r: bool)
    ensures
        r == spec_socks5_auth_ok(reply@),
{
    reply.len() == 2 && reply[0] == 1 && reply[1] == 0
}

/// The variant-5 connect request naming the host for the proxy to
/// resolve: version, connect command, reserved, domain address type,
/// the length-prefixed host, and the port.
pub open spec fn spec_socks5_connect_domain(host: Seq<u8>, port: u16) -> Seq<u8> {
    seq![5u8, 1u8, 0u8, 3u8, host.len() as u8] + host + spec_port_bytes(port)
}

/// Build the domain-form connect request of variant 5.
pub fn socks5_connect_domain(host: &Vec<u8>, port: u16) -> (r: Vec<u8>)
    requires
        1 <= host@.len() <= 255,
    ensures
        r@ == spec_socks5_connect_domain(host@, port),
{
    let mut out: Vec<u8> = Vec::new();
    out.push(5);
    out.push(1);
    out.push(0);
    out.push(3);
    out.push(host.len() as u8);
    push_all(&mut out, host);
    out.push((port / 256) as u8);
    out.push((port % 256) as u8);
    assert(out@ =~= spec_socks5_connect_domain(host@, port));
    out
}

/// The variant-5 connect request carrying an address the client
/// resolved itself.
pub open spec fn spec_socks5_connect_ipv4(addr: u32, port: u16) -> Seq<u8> {
    seq![5u8, 1u8, 0u8, 1u8] + spec_ipv4_bytes(addr) + spec_port_bytes(port)
}

/// Build the address-form connect request of variant 5.
pub fn socks5_connect_ipv4(addr: u32, port: u16) -> (r: Vec<u8>)
    ensures
        r@ == spec_socks5_connect_ipv4(addr, port),
{
    let mut out: Vec<u8> = Vec::new();
    out.push(5);
    out.push(1);
    out.push(0);
    out.push(1);
    out.push((addr / 0x1000000) as u8);
    out.push(((addr / 0x10000) % 256) as u8);
    out.push(((addr / 256) % 256) as u8);
    out.push((addr % 256) as u8);
    out.push((port / 256) as u8);
    out.push((port % 256) as u8);
    assert(out@ =~= spec_socks5_connect_ipv4(addr, port));
    out
}

/// Whether the proxy granted the variant-5 connect: a version-5 reply
/// whose code reports success. The stream then stands exactly at the
/// start of the application bytes.
pub open spec fn spec_socks5_reply_ok(reply: Seq<u8>) -> bool {
    reply.len() >= 2 && reply[0] == 5 && reply[1] == 0
}

/// Classify the variant-5 connect reply.
pub fn socks5_reply_ok(reply: &Vec<u8>) -> (r: bool)
    ensures
        r == spec_socks5_reply_ok(reply@),
{
    reply.len() >= 2 && reply[0] == 5 && reply[1] == 0
}

/// The variant-4 connect request with a client-resolved address:
/// version, connect command, port, address, and the null-terminated
/// user id.
pub open spec fn spec_socks4_connect(addr: u32, port: u16, userid: Seq<u8>) -> Seq<u8> {
    seq![4u8, 1u8] + spec_port_bytes(port) + spec_ipv4_bytes(addr) + userid + seq![0u8]
}

/// Build the variant-4 connect request.
pub fn socks4_connect(addr: u32, port: u16, userid: &Vec<u8>) -> (r: Vec<u8>)
    ensures
        r@ == spec_socks4_connect(addr, port, userid@),
{
    let mut out: Vec<u8> = Vec::new();
    out.push(4);
    out.push(1);
    out.push((port / 256) as u8);
    out.push((port % 256) as u8);
    out.push((addr / 0x1000000) as u8);
    out.push(((addr / 0x10000) % 256) as u8);
    out.push(((addr / 256) % 256) as u8);
    out.push((addr % 256) as u8);
    push_all(&mut out, userid);
    out.push(0);
    assert(out@ =~= spec_socks4_connect(addr, port, userid@));
    out
}

/// The variant-4a connect request, whose marker address tells the
/// proxy to resolve the null-terminated host that follows the user id.
pub open spec fn spec_socks4a_connect(host: Seq<u8>, port: u16, userid: Seq<u8>) -> Seq<u8> {
    seq![4u8, 1u8] + spec_port_bytes(port) + seq![0u8, 0u8, 0u8, 1u8] + userid + seq![0u8] + host
        + seq![0u8]
}

/// Build the variant-4a connect request.
pub fn socks4a_connect(host: &Vec<u8>, port: u16, userid: &Vec<u8>) -> (r: Vec<u8>)
    ensures
        r@ == spec_socks4a_connect(host@, port, userid@),
{
    let mut out: Vec<u8> = Vec::new();
    out.push(4);
    out.push(1);
    out.push((port / 256) as u8);
    out.push((port % 256) as u8);
    out.push(0);
    out.push(0);
    out.push(0);
    out.push(1);
    push_all(&mut out, userid);
    out.push(0);
    push_all(&mut out, host);
    out.push(0);
    assert(out@ =~= spec_socks4a_connect(host@, port, userid@));
    out
}

/// Whether the proxy granted a variant-4 or 4a connect: a null version
/// octet and the granted code.
pub open spec fn spec_socks4_reply_ok(reply: Seq<u8>) -> bool {
    reply.len() >= 2 && reply[0] == 0 && reply[1] == 90
}

/// Classify the variant-4 connect reply.
pub fn socks4_reply_ok(reply: &Vec<u8>) -> (r: bool)
    ensures
        r == spec_socks4_reply_ok(reply@),
{
    reply.len() >= 2 && reply[0] == 0 && reply[1] == 90
}

} // verus!
