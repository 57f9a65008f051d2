//! Hex encoding of byte strings, as used for token signatures.
//!
//! The encoding is specified exactly: two lowercase hex digits per byte,
//! high nibble first. Decoding accepts upper- and lowercase digits.

use vstd::prelude::*;

verus! {

/// The lowercase hex digit for a nibble value.
pub open spec fn hex_digit_char(v: int) -> char {
    if v == 0 {
        '0'
    } else if v == 1 {
        '1'
    } else if v == 2 {
        '2'
    } else if v == 3 {
        '3'
    } else if v == 4 {
        '4'
    } else if v == 5 {
        '5'
    } else if v == 6 {
        '6'
    } else if v == 7 {
        '7'
    } else if v == 8 {
        '8'
    } else if v == 9 {
        '9'
    } else if v == 10 {
        'a'
    } else if v == 11 {
        'b'
    } else if v == 12 {
        'c'
    } else if v == 13 {
        'd'
    } else if v == 14 {
        'e'
    } else if v == 15 {
        'f'
    } else {
        '?'
    }
}

/// Whether a character is a hex digit (either case).
pub open spec fn is_hex_digit(c: char) -> bool {
    (48 <= c as u32 && c as u32 <= 57)  // '0'..='9'
    || (97 <= c as u32 && c as u32 <= 102)  // 'a'..='f'
    || (65 <= c as u32 && c as u32 <= 70)  // 'A'..='F'
}

/// The value of a hex digit (either case); 0 for non-digits.
pub open spec fn hex_digit_value(c: char) -> int {
    if 48 <= c as u32 && c as u32 <= 57 {
        c as u32 - 48
    } else if 97 <= c as u32 && c as u32 <= 102 {
        c as u32 - 87
    } else if 65 <= c as u32 && c as u32 <= 70 {
        c as u32 - 55
    } else {
        0
    }
}

/// The lowercase hex encoding of a byte string.
pub open spec fn hex_of(bytes: Seq<u8>) -> Seq<char> {
    Seq::new(
        bytes.len() * 2,
        |i: int|
            if i % 2 == 0 {
                hex_digit_char(bytes[i / 2] as int / 16)
            } else {
                hex_digit_char(bytes[i / 2] as int % 16)
            },
    )
}

/// Whether a character string is a well-formed hex encoding.
pub open spec fn valid_hex(s: Seq<char>) -> bool {
    s.len() % 2 == 0 && (forall|i: int| 0 <= i < s.len() ==> is_hex_digit(#[trigger] s[i]))
}

/// The byte string denoted by a well-formed hex encoding.
pub open spec fn hex_bytes_of(s: Seq<char>) -> Seq<u8> {
    Seq::new(
        s.len() / 2,
        |i: int| (hex_digit_value(s[2 * i]) * 16 + hex_digit_value(s[2 * i + 1])) as u8,
    )
}

/// Relies on `hex::encode`: encodes each byte as two lowercase hex digits,
/// high nibble first.
#[verifier::external_body]
pub(crate) fn hex_encode(data: &[u8]) -> (r: String)
    ensures
        r@ == hex_of(data@),
{
    hex::encode(data)
}

/// Relies on `hex::decode`: succeeds exactly on even-length strings of hex
/// digits (either case), and maps each digit pair to one byte, high nibble
/// first.
#[verifier::external_body]
pub(crate) fn hex_decode(s: &str) -> (r: Option<Vec<u8>>)
    ensures
        r is Some <==> valid_hex(s@),
        r matches Some(v) ==> v@ == hex_bytes_of(s@),
{
    hex::decode(s).ok()
}

/// Every nibble encodes to a hex digit whose value is that nibble.
proof fn lemma_hex_digit_roundtrip(v: int)
    requires
        0 <= v < 16,
    ensures
        is_hex_digit(hex_digit_char(v)),
        hex_digit_value(hex_digit_char(v)) == v,
{
}

/// Hex encoding is well-formed and decoding inverts it.
pub proof fn lemma_hex_roundtrip(bytes: Seq<u8>)
    ensures
        valid_hex(hex_of(bytes)),
        hex_bytes_of(hex_of(bytes)) == bytes,
{
    let s = hex_of(bytes);
    assert forall|i: int| 0 <= i < s.len() implies is_hex_digit(#[trigger] s[i]) by {
        let b = bytes[i / 2] as int;
        if i % 2 == 0 {
            lemma_hex_digit_roundtrip(b / 16);
        } else {
            lemma_hex_digit_roundtrip(b % 16);
        }
    }
    assert forall|j: int| 0 <= j < bytes.len() implies hex_bytes_of(s)[j] == bytes[j] by {
        let b = bytes[j] as int;
        lemma_hex_digit_roundtrip(b / 16);
        lemma_hex_digit_roundtrip(b % 16);
        assert(s[2 * j] == hex_digit_char(b / 16));
        assert(s[2 * j + 1] == hex_digit_char(b % 16));
        assert(b / 16 * 16 + b % 16 == b) by {
            vstd::arithmetic::div_mod::lemma_fundamental_div_mod(b, 16);
        }
    }
    assert(hex_bytes_of(s) =~= bytes);
}

} // verus!
