//! Data-URL encoding of raw assets: the shorter of a base64-encoded and a
//! percent-escaped form.
//!
//! The percent form exists only for UTF-8 payloads. It escapes as little as
//! possible: tab, newline, carriage return and `#` always; every character
//! of the blank tail of the text; and a `%` only where the two following
//! characters could make it read as an escape.
use vstd::prelude::*;

use crate::base64::{push_char, spec_base64, to_standard_base64};

verus! {

/// Relies on std's `str::from_utf8`: it succeeds exactly on valid UTF-8
/// and yields the string slice holding those bytes' decoding.
#[verifier::external_body]
fn bytes_as_utf8(buf: &[u8]) -> (r: Option<&str>)
    ensures
        r is Some <==> vstd::utf8::valid_utf8(buf@),
        r matches Some(s) ==> s@ == vstd::utf8::decode_utf8(buf@),
{
    core::str::from_utf8(buf).ok()
}

/// An ASCII hexadecimal digit.
pub open spec fn spec_is_hex_digit(c: char) -> bool {
    let v = c as u32;
    (48 <= v && v <= 57) || (97 <= v && v <= 102) || (65 <= v && v <= 70)
}

/// An ASCII hexadecimal digit.
fn is_hex_digit(c: char) -> (r: bool)
    ensures
        r == spec_is_hex_digit(c),
{
    let v = c as u32;
    (48 <= v && v <= 57) || (97 <= v && v <= 102) || (65 <= v && v <= 70)
}

/// The uppercase hexadecimal digit for one four-bit value.
pub open spec fn spec_hex_upper(v: u8) -> char
    recommends
        v < 16,
{
    if v < 10 {
        (('0' as u8) + v) as char
    } else {
        (('A' as u8) + (v - 10)) as char
    }
}

/// The uppercase hexadecimal digit for one four-bit value.
fn hex_upper(v: u8) -> (c: char)
    requires
        v < 16,
    ensures
        c == spec_hex_upper(v),
{
    if v < 10 {
        (('0' as u8) + v) as char
    } else {
        (('A' as u8) + (v - 10)) as char
    }
}

/// The two-digit percent escape of a character.
pub open spec fn spec_pct(c: char) -> Seq<char> {
    seq![
        '%',
        spec_hex_upper((((c as u32) >> 4) & 0xF) as u8),
        spec_hex_upper(((c as u32) & 0xF) as u8),
    ]
}

/// Whether this character ends the kept (unescaped) part of the text: any
/// character above space, or one of the three whitespace controls that are
/// always escaped anyway.
pub open spec fn spec_keeps_tail(c: char) -> bool {
    (c as u32) > 0x20 || c == '\t' || c == '\n' || c == '\r'
}

/// The index where the blank tail of the text begins: everything at or
/// after it is escaped.
pub open spec fn spec_trailing_start(s: Seq<char>) -> int
    decreases s.len(),
{
    if s.len() == 0 {
        0
    } else if spec_keeps_tail(s[s.len() - 1]) {
        s.len() as int
    } else {
        spec_trailing_start(s.drop_last())
    }
}

/// Whether the character at `i` is escaped: the always-escaped controls
/// and `#`, the blank tail, and a `%` that could otherwise read as the
/// start of an escape.
pub open spec fn spec_escape_at(s: Seq<char>, i: int) -> bool
    recommends
        0 <= i < s.len(),
{
    ||| s[i] == '\t'
    ||| s[i] == '\n'
    ||| s[i] == '\r'
    ||| s[i] == '#'
    ||| i >= spec_trailing_start(s)
    ||| (s[i] == '%' && i + 2 < s.len() && spec_is_hex_digit(s[i + 1]) && spec_is_hex_digit(
        s[i + 2],
    ))
}

/// The percent-escaped body: each character in order, escaped exactly
/// where `spec_escape_at` says.
pub open spec fn spec_percent_body(s: Seq<char>, n: int) -> Seq<char>
    decreases n,
{
    if n <= 0 {
        Seq::empty()
    } else {
        spec_percent_body(s, n - 1) + (if spec_escape_at(s, n - 1) {
            spec_pct(s[n - 1])
        } else {
            seq![s[n - 1]]
        })
    }
}

/// The full percent-escaped data URL of a text.
pub open spec fn spec_percent_dataurl(mime: Seq<char>, text: Seq<char>) -> Seq<char> {
    "data:"@ + mime + ","@ + spec_percent_body(text, text.len() as int)
}

/// The full base64 data URL of a byte buffer.
pub open spec fn spec_base64_dataurl(mime: Seq<char>, bytes: Seq<u8>) -> Seq<char> {
    "data:"@ + mime + ";base64,"@ + spec_base64(bytes)
}

/// The shorter of the two forms, by encoded byte length; ties and
/// non-UTF-8 payloads take the base64 form.
pub open spec fn spec_shortest_dataurl(mime: Seq<char>, bytes: Seq<u8>) -> Seq<char> {
    let b = spec_base64_dataurl(mime, bytes);
    if vstd::utf8::valid_utf8(bytes) {
        let p = spec_percent_dataurl(mime, vstd::utf8::decode_utf8(bytes));
        if (vstd::utf8::encode_utf8(p).len() as usize) < (vstd::utf8::encode_utf8(b).len() as usize) {
            p
        } else {
            b
        }
    } else {
        b
    }
}

/// Where the blank tail of `text` begins.
fn trailing_start(text: &str) -> (ts: usize)
    ensures
        ts as int == spec_trailing_start(text@),
        ts <= text@.len(),
{
    let n = text.unicode_len();
    let mut ts: usize = n;
    proof {
        assert(text@.take(n as int) =~= text@);
    }
    while ts > 0
        invariant
            ts <= n,
            n == text@.len(),
            spec_trailing_start(text@) == spec_trailing_start(text@.take(ts as int)),
        decreases ts,
    {
        let c = text.get_char(ts - 1);
        if c as u32 > 0x20 || c == '\t' || c == '\n' || c == '\r' {
            proof {
                assert(text@.take(ts as int).len() == ts);
                assert(text@.take(ts as int)[ts - 1] == text@[ts - 1]);
            }
            return ts;
        }
        proof {
            assert(text@.take(ts as int)[ts - 1] == text@[ts - 1]);
            assert(text@.take(ts as int).drop_last() =~= text@.take(ts as int - 1));
        }
        ts -= 1;
    }
    ts
}

/// Encode a UTF-8 payload as a percent-escaped data URL; a payload that is
/// not valid UTF-8 has no such form.
pub fn encode_as_percent_escaped_dataurl(mime: &str, buf: &[u8]) -> (r: Option<String>)
    ensures
        r is Some <==> vstd::utf8::valid_utf8(buf@),
        r matches Some(u) ==> u@ == spec_percent_dataurl(
            mime@,
            vstd::utf8::decode_utf8(buf@),
        ),
{
    match bytes_as_utf8(buf) {
        None => None,
        Some(text) => {
            let ghost prefix = "data:"@ + mime@ + ","@;
            let mut url = String::new();
            url.append("data:");
            url.append(mime);
            url.append(",");
            proof {
                assert(url@ =~= prefix);
                assert(url@ =~= prefix + spec_percent_body(text@, 0));
            }
            let n = text.unicode_len();
            let ts = trailing_start(text);
            let mut i: usize = 0;
            while i < n
                invariant
                    i <= n,
                    n == text@.len(),
                    ts as int == spec_trailing_start(text@),
                    url@ == prefix + spec_percent_body(text@, i as int),
                decreases n - i,
            {
                let c = text.get_char(i);
                let escapes = c == '\t' || c == '\n' || c == '\r' || c == '#' || i >= ts || (c
                    == '%' && n - i > 2 && is_hex_digit(text.get_char(i + 1)) && is_hex_digit(
                    text.get_char(i + 2),
                ));
                proof {
                    assert(escapes == spec_escape_at(text@, i as int));
                }
                if escapes {
                    let v = c as u32;
                    proof {
                        assert((v >> 4) & 0xF < 16 && v & 0xF < 16) by (bit_vector);
                    }
                    push_char(&mut url, '%');
                    push_char(&mut url, hex_upper(((v >> 4) & 0xF) as u8));
                    push_char(&mut url, hex_upper((v & 0xF) as u8));
                    proof {
                        assert(url@ =~= prefix + spec_percent_body(text@, i as int + 1));
                    }
                } else {
                    push_char(&mut url, c);
                    proof {
                        assert(url@ =~= prefix + spec_percent_body(text@, i as int + 1));
                    }
                }
                i += 1;
            }
            Some(url)
        },
    }
}

/// Encode a byte buffer as the shorter of a base64-encoded and a
/// percent-escaped data URL, comparing encoded byte lengths.
pub fn encode_as_shortest_dataurl(mime: &str, buf: &[u8]) -> (r: String)
    ensures
        r@ == spec_shortest_dataurl(mime@, buf@),
{
    let base64 = to_standard_base64(buf);
    let mut base64_url = String::new();
    base64_url.append("data:");
    base64_url.append(mime);
    base64_url.append(";base64,");
    base64_url.append(base64.as_str());
    proof {
        assert(base64_url@ =~= spec_base64_dataurl(mime@, buf@));
    }
    match encode_as_percent_escaped_dataurl(mime, buf) {
        Some(percent_url) => {
            if percent_url.as_str().len() < base64_url.as_str().len() {
                percent_url
            } else {
                base64_url
            }
        },
        None => base64_url,
    }
}

} // verus!
