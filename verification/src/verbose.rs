//! The readable rendering of traffic that the tracing decorator
//! produces: bytes escaped into printable byte-string form, singly and
//! across the buffers of a vectored write. The decorator itself only
//! forwards I/O; what it prints is fixed here by contract.

use vstd::prelude::*;

verus! {

/// The lowercase hexadecimal digit for one value below sixteen.
pub open spec fn spec_hex_digit(d: nat) -> u8 {
    if d < 10 {
        (48 + d) as u8
    } else {
        (87 + d) as u8
    }
}

/// The escaped rendering of one byte: the usual short escapes, the
/// printable range as itself, anything else as a two-digit hex escape.
pub open spec fn spec_escape_byte(c: u8) -> Seq<u8> {
    if c == 10 {
        seq![92u8, 110u8]
    } else if c == 13 {
        seq![92u8, 114u8]
    } else if c == 9 {
        seq![92u8, 116u8]
    } else if c == 92 || c == 34 {
        seq![92u8, c]
    } else if c == 0 {
        seq![92u8, 48u8]
    } else if 32 <= c < 127 {
        seq![c]
    } else {
        seq![92u8, 120u8, spec_hex_digit((c / 16) as nat), spec_hex_digit((c % 16) as nat)]
    }
}

/// The escaped rendering of a byte sequence, in order.
pub open spec fn spec_escape_bytes(s: Seq<u8>) -> Seq<u8>
    decreases s.len(),
{
    if s.len() == 0 {
        Seq::empty()
    } else {
        spec_escape_byte(s[0]) + spec_escape_bytes(s.drop_first())
    }
}

/// Escaping one more byte appends its rendering.
proof fn lemma_escape_bytes_snoc(s: Seq<u8>, c: u8)
    ensures
        spec_escape_bytes(s.push(c)) == spec_escape_bytes(s) + spec_escape_byte(c),
    decreases s.len(),
{
    if s.len() == 0 {
        assert(s.push(c).drop_first() =~= s);
        assert(spec_escape_bytes(s.push(c)) =~= spec_escape_bytes(s) + spec_escape_byte(c));
    } else {
        assert(s.push(c).drop_first() =~= s.drop_first().push(c));
        lemma_escape_bytes_snoc(s.drop_first(), c);
        assert(spec_escape_bytes(s.push(c)) =~= spec_escape_bytes(s) + spec_escape_byte(c));
    }
}

/// The whole printable form: a byte-string opener, the escaped bytes,
/// and the closing quote.
pub open spec fn spec_escaped(s: Seq<u8>) -> Seq<u8> {
    seq![98u8, 34u8] + spec_escape_bytes(s) + seq![34u8]
}

/// Append the escaped rendering of one byte.
fn push_escaped_byte(out: &mut Vec<u8>, c: u8)
    ensures
        final(out)@ == old(out)@ + spec_escape_byte(c),
{
    if c == 10 {
        out.push(92);
        out.push(110);
    } else if c == 13 {
        out.push(92);
        out.push(114);
    } else if c == 9 {
        out.push(92);
        out.push(116);
    } else if c == 92 || c == 34 {
        out.push(92);
        out.push(c);
    } else if c == 0 {
        out.push(92);
        out.push(48);
    } else if 32 <= c && c < 127 {
        out.push(c);
    } else {
        out.push(92);
        out.push(120);
        let hi = c / 16;
        let lo = c % 16;
        out.push(if hi < 10 { 48 + hi } else { 87 + hi });
        out.push(if lo < 10 { 48 + lo } else { 87 + lo });
    }
    assert(final(out)@ =~= old(out)@ + spec_escape_byte(c));
}

/// Render a byte sequence in printable byte-string form, as the
/// tracing decorator prints what was read or written.
pub fn escape(bytes: &Vec<u8>) -> (r: Vec<u8>)
    ensures
        r@ == spec_escaped(bytes@),
{
    let mut out: Vec<u8> = Vec::new();
    out.push(98);
    out.push(34);
    let mut i: usize = 0;
    while i < bytes.len()
        invariant
            i <= bytes.len(),
            out@ == seq![98u8, 34u8] + spec_escape_bytes(bytes@.take(i as int)),
        decreases bytes.len() - i,
    {
        push_escaped_byte(&mut out, bytes[i]);
        proof {
            lemma_escape_bytes_snoc(bytes@.take(i as int), bytes@[i as int]);
            assert(bytes@.take(i as int).push(bytes@[i as int]) =~= bytes@.take(i as int + 1));
        }
        i = i + 1;
    }
    out.push(34);
    proof {
        assert(bytes@.take(bytes@.len() as int) =~= bytes@);
        assert(out@ =~= spec_escaped(bytes@));
    }
    out
}

/// The rendering of a vectored write: each buffer escaped in turn, the
/// last one truncated to what was actually written, and buffers beyond
/// the written count left out.
pub open spec fn spec_vectored_escaped(bufs: Seq<Seq<u8>>, left: nat) -> Seq<u8>
    decreases bufs.len(),
{
    if bufs.len() == 0 || left == 0 {
        Seq::empty()
    } else {
        let n = if left < bufs[0].len() {
            left
        } else {
            bufs[0].len()
        };
        spec_escaped(bufs[0].take(n as int)) + spec_vectored_escaped(
            bufs.drop_first(),
            (left - n) as nat,
        )
    }
}

/// The views of a list of buffers.
pub open spec fn spec_buf_views(bufs: Vec<Vec<u8>>) -> Seq<Seq<u8>> {
    Seq::new(bufs@.len(), |i: int| bufs@[i]@)
}

/// Render what a vectored write put on the wire, buffer by buffer.
pub fn escape_vectored(bufs: &Vec<Vec<u8>>, nwritten: usize) -> (r: Vec<u8>)
    ensures
        r@ == spec_vectored_escaped(spec_buf_views(*bufs), nwritten as nat),
{
    let ghost views: Seq<Seq<u8>> = spec_buf_views(*bufs);
    let mut out: Vec<u8> = Vec::new();
    let mut left: usize = nwritten;
    let mut i: usize = 0;
    proof {
        assert(views.skip(0) =~= views);
    }
    while i < bufs.len() && left > 0
        invariant
            views == spec_buf_views(*bufs),
            i <= bufs.len(),
            spec_vectored_escaped(views, nwritten as nat) == out@ + spec_vectored_escaped(
                views.skip(i as int),
                left as nat,
            ),
            left <= nwritten,
        decreases bufs.len() - i,
    {
        proof {
            assert(views.len() == bufs@.len());
            assert(views.skip(i as int)[0] == views[i as int]);
            assert(views.skip(i as int).drop_first() =~= views.skip(i as int + 1));
        }
        let buf = &bufs[i];
        let n = if left < buf.len() {
            left
        } else {
            buf.len()
        };
        let mut piece: Vec<u8> = Vec::new();
        let mut j: usize = 0;
        while j < n
            invariant
                j <= n,
                n <= buf@.len(),
                piece@ == buf@.take(n as int).take(j as int),
            decreases n - j,
        {
            piece.push(buf[j]);
            assert(piece@ =~= buf@.take(n as int).take(j as int + 1));
            j = j + 1;
        }
        proof {
            assert(buf@.take(n as int).take(n as int) =~= buf@.take(n as int));
        }
        let rendered = escape(&piece);
        push_all_bytes(&mut out, &rendered);
        left = left - n;
        i = i + 1;
    }
    proof {
        if i < bufs.len() {
            assert(left == 0);
        } else {
            assert(views.skip(i as int).len() == 0);
        }
        assert(spec_vectored_escaped(views.skip(i as int), left as nat) =~= Seq::<u8>::empty());
        assert(out@ =~= spec_vectored_escaped(views, nwritten as nat));
    }
    out
}

/// Append every byte of `bytes`.
fn push_all_bytes(out: &mut Vec<u8>, bytes: &Vec<u8>)
    ensures
        final(out)@ == old(out)@ + bytes@,
{
    let mut i: usize = 0;
    while i < bytes.len()
        invariant
            i <= bytes.len(),
            out@ == old(out)@ + bytes@.take(i as int),
        decreases bytes.len() - i,
    {
        out.push(bytes[i]);
        assert(out@ =~= old(out)@ + bytes@.take(i as int + 1));
        i = i + 1;
    }
    assert(bytes@.take(bytes@.len() as int) =~= bytes@);
}

} // verus!
