//! Hexadecimal text as the `hex` crate reads and writes it.
use vstd::prelude::*;
use vstd::utf8::is_ascii_chars;

verus! {

/// `hex::FromHexError`, carried as an opaque value.
#[verifier::external_type_specification]
#[verifier::external_body]
pub struct ExFromHexError(hex::FromHexError);

/// An ASCII hex digit, in upper or lower case.
pub open spec fn is_hex_digit(c: u8) -> bool {
    (48 <= c && c <= 57) || (65 <= c && c <= 70) || (97 <= c && c <= 102)
}

/// The value of a hex digit.
pub open spec fn digit_value(c: u8) -> int {
    if 48 <= c && c <= 57 {
        c - 48
    } else if 65 <= c && c <= 70 {
        c - 55
    } else {
        c - 87
    }
}

/// The lower-case digit for a value below 16.
pub open spec fn lower_digit(n: int) -> u8 {
    if n < 10 {
        (48 + n) as u8
    } else {
        (87 + n) as u8
    }
}

/// Text that decodes: an even number of hex digits.
pub open spec fn is_hex_text(t: Seq<u8>) -> bool {
    &&& t.len() % 2 == 0
    &&& forall|i: int| 0 <= i < t.len() ==> is_hex_digit(#[trigger] t[i])
}

/// The bytes that hex text stands for, two digits each, high nibble first.
pub open spec fn hex_decoded(t: Seq<u8>) -> Seq<u8> {
    Seq::new(
        (t.len() / 2) as nat,
        |i: int| (digit_value(t[2 * i]) * 16 + digit_value(t[2 * i + 1])) as u8,
    )
}

/// The lower-case hex text of bytes, high nibble first.
pub open spec fn hex_encoded(b: Seq<u8>) -> Seq<u8> {
    Seq::new(
        2 * b.len(),
        |i: int|
            if i % 2 == 0 {
                lower_digit((b[i / 2] / 16) as int)
            } else {
                lower_digit((b[i / 2] % 16) as int)
            },
    )
}

/// The bytes of a text made of ASCII characters.
pub open spec fn ascii_bytes(s: Seq<char>) -> Seq<u8> {
    Seq::new(s.len(), |i: int| s[i] as u8)
}

/// Relies on `hex::decode`: it fails on an odd length or on a byte that is no
/// hex digit, and otherwise turns each pair of digits into one byte.
#[verifier::external_body]
pub(crate) fn decode_hex(t: &[u8]) -> (r: Result<Vec<u8>, hex::FromHexError>)
    ensures
        r is Ok <==> is_hex_text(t@),
        r is Ok ==> r->Ok_0@ == hex_decoded(t@),
{
    hex::decode(t)
}

/// Relies on `hex::encode`: two lower-case digits for each byte.
#[verifier::external_body]
pub(crate) fn encode_hex(b: &[u8]) -> (r: String)
    ensures
        is_ascii_chars(r@),
        ascii_bytes(r@) == hex_encoded(b@),
{
    hex::encode(b)
}

/// Decoding the text that encoding writes gives the bytes back.
pub proof fn lemma_hex_round_trip(b: Seq<u8>)
    ensures
        is_hex_text(hex_encoded(b)),
        hex_decoded(hex_encoded(b)) == b,
{
    let t = hex_encoded(b);
    assert forall|i: int| 0 <= i < t.len() implies is_hex_digit(#[trigger] t[i]) by {
        let n = if i % 2 == 0 { b[i / 2] / 16 } else { b[i / 2] % 16 };
        assert(0 <= n < 16);
    }
    assert forall|i: int| 0 <= i < b.len() implies #[trigger] hex_decoded(t)[i] == b[i] by {
        assert((2 * i) / 2 == i && (2 * i + 1) / 2 == i && (2 * i) % 2 == 0 && (2 * i + 1) % 2 == 1);
        let hi = b[i] / 16;
        let lo = b[i] % 16;
        assert(digit_value(t[2 * i]) == hi);
        assert(digit_value(t[2 * i + 1]) == lo);
        assert(hi * 16 + lo == b[i]);
    }
    assert(hex_decoded(t) =~= b);
}

} // verus!
