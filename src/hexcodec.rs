//! Lower-case hexadecimal text, as used for selectors, call data and results.

use vstd::prelude::*;
use std::str::FromStr;

verus! {

/// The lower-case hex digit of a nibble.
pub open spec fn hex_char(n: u8) -> char {
    if n < 10 {
        ((n + 48) as u8) as char
    } else {
        ((n + 87) as u8) as char
    }
}

/// Two lower-case hex digits per byte, high nibble first.
pub open spec fn hex_of(b: Seq<u8>) -> Seq<char> {
    Seq::new(
        2 * b.len(),
        |i: int|
            if i % 2 == 0 {
                hex_char(b[i / 2] / 16)
            } else {
                hex_char(b[i / 2] % 16)
            },
    )
}

pub open spec fn is_hex_digit(c: char) -> bool {
    ('0' <= c && c <= '9') || ('a' <= c && c <= 'f') || ('A' <= c && c <= 'F')
}

/// Hex digits alone, with no prefix.
pub open spec fn all_hex_digits(s: Seq<char>) -> bool {
    forall|i: int| 0 <= i < s.len() ==> is_hex_digit(#[trigger] s[i])
}

/// Whether a character is a hex digit, either case.
pub fn is_hex_char(c: char) -> (r: bool)
    ensures
        r == is_hex_digit(c),
{
    ('0' <= c && c <= '9') || ('a' <= c && c <= 'f') || ('A' <= c && c <= 'F')
}

/// The value of a hex digit, either case.
pub open spec fn hex_value(c: char) -> int {
    if '0' <= c && c <= '9' {
        c as int - 48
    } else if 'a' <= c && c <= 'f' {
        c as int - 87
    } else {
        c as int - 55
    }
}

/// The text with one leading `0x` or `0X` removed, if it has one.
pub open spec fn without_0x(s: Seq<char>) -> Seq<char> {
    if s.len() >= 2 && s[0] == '0' && (s[1] == 'x' || s[1] == 'X') {
        s.skip(2)
    } else {
        s
    }
}

/// Hex text that decodes: even length, and hex digits alone after an
/// optional `0x`.
pub open spec fn hex_decodable(s: Seq<char>) -> bool {
    &&& s.len() % 2 == 0
    &&& forall|i: int| 0 <= i < without_0x(s).len() ==> is_hex_digit(#[trigger] without_0x(s)[i])
}

/// The bytes that decodable hex text stands for.
pub open spec fn hex_decoded(s: Seq<char>) -> Seq<u8> {
    let t = without_0x(s);
    Seq::new(
        (t.len() / 2) as nat,
        |i: int| (16 * hex_value(t[2 * i]) + hex_value(t[2 * i + 1])) as u8,
    )
}

/// Relies on ethers_core::utils::hex::encode (const-hex): two lower-case
/// digits for each byte, high nibble first.
#[verifier::external_body]
pub(crate) fn encode_hex(b: &[u8]) -> (r: String)
    ensures
        r@ == hex_of(b@),
{
    ethers_core::utils::hex::encode(b)
}

/// Relies on ethers_core::types::Bytes::from_str (const-hex decode): odd
/// length fails; one leading `0x`/`0X` is dropped; then each pair of hex
/// digits, either case, gives one byte, and any other character fails.
#[verifier::external_body]
pub(crate) fn decode_hex(s: &str) -> (r: Option<Vec<u8>>)
    ensures
        r.is_some() == hex_decodable(s@),
        r matches Some(v) ==> v@ == hex_decoded(s@),
{
    ethers_core::types::Bytes::from_str(s).ok().map(|b| b.to_vec())
}

/// Decoding lower-case hex text gives back the bytes it was made from.
pub proof fn lemma_hex_round_trip(b: Seq<u8>)
    ensures
        hex_decodable(hex_of(b)),
        hex_decoded(hex_of(b)) == b,
{
    let h = hex_of(b);
    assert(without_0x(h) == h) by {
        if h.len() >= 2 && h[0] == '0' {
            assert(b[0] / 16 == 0);
            assert(h[1] == hex_char(b[0] % 16));
        }
    }
    assert forall|i: int| 0 <= i < h.len() implies is_hex_digit(#[trigger] h[i]) by {
        let n: u8 = if i % 2 == 0 { b[i / 2] / 16 } else { b[i / 2] % 16 };
        assert(h[i] == hex_char(n));
    }
    let d = hex_decoded(h);
    assert forall|i: int| 0 <= i < b.len() implies #[trigger] d[i] == b[i] by {
        assert(h[2 * i] == hex_char(b[i] / 16));
        assert(h[2 * i + 1] == hex_char(b[i] % 16));
        assert((2 * i) / 2 == i);
        assert((2 * i + 1) / 2 == i);
        assert(hex_value(hex_char(b[i] / 16)) == b[i] / 16);
        assert(hex_value(hex_char(b[i] % 16)) == b[i] % 16);
    }
    assert(d =~= b);
}

} // verus!
