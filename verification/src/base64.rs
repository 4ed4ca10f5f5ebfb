//! Standard base64 encoding with padding, used for the base64 form of a
//! data URL.
use vstd::prelude::*;

verus! {

/// The standard-alphabet character for one six-bit value.
pub open spec fn spec_b64_char(v: u8) -> char
    recommends
        v < 64,
{
    if v < 26 {
        (('A' as u8) + v) as char
    } else if v < 52 {
        (('a' as u8) + (v - 26)) as char
    } else if v < 62 {
        (('0' as u8) + (v - 52)) as char
    } else if v == 62 {
        '+'
    } else {
        '/'
    }
}

/// Standard base64 with `=` padding: three bytes become four characters,
/// a final group of one or two bytes is padded.
pub open spec fn spec_base64(bytes: Seq<u8>) -> Seq<char>
    decreases bytes.len(),
{
    if bytes.len() == 0 {
        Seq::empty()
    } else if bytes.len() == 1 {
        let b0 = bytes[0];
        seq![spec_b64_char(b0 >> 2), spec_b64_char((b0 & 0x03) << 4), '=', '=']
    } else if bytes.len() == 2 {
        let b0 = bytes[0];
        let b1 = bytes[1];
        seq![
            spec_b64_char(b0 >> 2),
            spec_b64_char(((b0 & 0x03) << 4) | (b1 >> 4)),
            spec_b64_char((b1 & 0x0F) << 2),
            '=',
        ]
    } else {
        let b0 = bytes[0];
        let b1 = bytes[1];
        let b2 = bytes[2];
        seq![
            spec_b64_char(b0 >> 2),
            spec_b64_char(((b0 & 0x03) << 4) | (b1 >> 4)),
            spec_b64_char(((b1 & 0x0F) << 2) | (b2 >> 6)),
            spec_b64_char(b2 & 0x3F),
        ] + spec_base64(bytes.skip(3))
    }
}

/// Encoding distributes over concatenation at a group boundary.
pub proof fn lemma_base64_append(a: Seq<u8>, b: Seq<u8>)
    requires
        a.len() % 3 == 0,
    ensures
        spec_base64(a + b) == spec_base64(a) + spec_base64(b),
    decreases a.len(),
{
    if a.len() == 0 {
        assert(a + b =~= b);
        assert(spec_base64(a) + spec_base64(b) =~= spec_base64(b));
    } else {
        let rest = a.skip(3);
        lemma_base64_append(rest, b);
        assert((a + b).skip(3) =~= rest + b);
        assert((a + b).len() >= 3);
        assert((a + b)[0] == a[0] && (a + b)[1] == a[1] && (a + b)[2] == a[2]);
        assert(spec_base64(a + b) =~= spec_base64(a) + spec_base64(b));
    }
}

/// Relies on std's `String::push`: appends exactly one character.
#[verifier::external_body]
pub(crate) fn push_char(s: &mut String, c: char)
    ensures
        final(s)@ == old(s)@.push(c),
{
    s.push(c);
}

/// The standard-alphabet character for one six-bit value.
fn b64_char(v: u8) -> (c: char)
    requires
        v < 64,
    ensures
        c == spec_b64_char(v),
{
    if v < 26 {
        (('A' as u8) + v) as char
    } else if v < 52 {
        (('a' as u8) + (v - 26)) as char
    } else if v < 62 {
        (('0' as u8) + (v - 52)) as char
    } else if v == 62 {
        '+'
    } else {
        '/'
    }
}

/// Encode a byte buffer as standard base64 with padding.
pub fn to_standard_base64(buf: &[u8]) -> (r: String)
    ensures
        r@ == spec_base64(buf@),
{
    let n = buf.len();
    let mut out = String::new();
    let mut i: usize = 0;
    while n - i >= 3
        invariant
            i <= n,
            i % 3 == 0,
            n == buf@.len(),
            out@ == spec_base64(buf@.take(i as int)),
        decreases n - i,
    {
        let b0 = buf[i];
        let b1 = buf[i + 1];
        let b2 = buf[i + 2];
        proof {
            assert(b0 >> 2 < 64 && ((b0 & 0x03) << 4) | (b1 >> 4) < 64 && ((b1 & 0x0F) << 2) | (
            b2 >> 6) < 64 && b2 & 0x3F < 64) by (bit_vector);
        }
        push_char(&mut out, b64_char(b0 >> 2));
        push_char(&mut out, b64_char(((b0 & 0x03) << 4) | (b1 >> 4)));
        push_char(&mut out, b64_char(((b1 & 0x0F) << 2) | (b2 >> 6)));
        push_char(&mut out, b64_char(b2 & 0x3F));
        proof {
            let group = buf@.subrange(i as int, i as int + 3);
            lemma_base64_append(buf@.take(i as int), group);
            assert(buf@.take(i as int + 3) =~= buf@.take(i as int) + group);
            assert(group.len() == 3 && group[0] == b0 && group[1] == b1 && group[2] == b2);
            assert(group.skip(3) =~= Seq::<u8>::empty());
            assert(spec_base64(Seq::<u8>::empty()) =~= Seq::<char>::empty());
            assert(spec_base64(group) =~= seq![
                spec_b64_char(b0 >> 2),
                spec_b64_char(((b0 & 0x03) << 4) | (b1 >> 4)),
                spec_b64_char(((b1 & 0x0F) << 2) | (b2 >> 6)),
                spec_b64_char(b2 & 0x3F),
            ]);
            assert(out@ =~= spec_base64(buf@.take(i as int + 3)));
        }
        i += 3;
    }
    if n - i == 1 {
        let b0 = buf[i];
        proof {
            assert(b0 >> 2 < 64 && (b0 & 0x03) << 4 < 64) by (bit_vector);
        }
        push_char(&mut out, b64_char(b0 >> 2));
        push_char(&mut out, b64_char((b0 & 0x03) << 4));
        push_char(&mut out, '=');
        push_char(&mut out, '=');
        proof {
            let group = buf@.subrange(i as int, i as int + 1);
            lemma_base64_append(buf@.take(i as int), group);
            assert(buf@.take(i as int + 1) =~= buf@.take(i as int) + group);
            assert(group.len() == 1 && group[0] == b0);
            assert(spec_base64(group) =~= seq![
                spec_b64_char(b0 >> 2),
                spec_b64_char((b0 & 0x03) << 4),
                '=',
                '=',
            ]);
            assert(buf@.take(n as int) =~= buf@);
            assert(out@ =~= spec_base64(buf@));
        }
    } else if n - i == 2 {
        let b0 = buf[i];
        let b1 = buf[i + 1];
        proof {
            assert(b0 >> 2 < 64 && ((b0 & 0x03) << 4) | (b1 >> 4) < 64 && (b1 & 0x0F) << 2
                < 64) by (bit_vector);
        }
        push_char(&mut out, b64_char(b0 >> 2));
        push_char(&mut out, b64_char(((b0 & 0x03) << 4) | (b1 >> 4)));
        push_char(&mut out, b64_char((b1 & 0x0F) << 2));
        push_char(&mut out, '=');
        proof {
            let group = buf@.subrange(i as int, i as int + 2);
            lemma_base64_append(buf@.take(i as int), group);
            assert(buf@.take(i as int + 2) =~= buf@.take(i as int) + group);
            assert(group.len() == 2 && group[0] == b0 && group[1] == b1);
            assert(spec_base64(group) =~= seq![
                spec_b64_char(b0 >> 2),
                spec_b64_char(((b0 & 0x03) << 4) | (b1 >> 4)),
                spec_b64_char((b1 & 0x0F) << 2),
                '=',
            ]);
            assert(buf@.take(n as int) =~= buf@);
            assert(out@ =~= spec_base64(buf@));
        }
    } else {
        proof {
            assert(buf@.take(i as int) =~= buf@);
        }
    }
    out
}

} // verus!
