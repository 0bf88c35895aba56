//! Lowercase hexadecimal encoding of byte sequences, as signatures are
//! rendered into query strings.

use vstd::prelude::*;

verus! {

/// The lowercase hexadecimal digit of a nibble.
pub open spec fn hex_digit_char(v: u8) -> char
    recommends
        v < 16,
{
    if v < 10 {
        (v + 0x30) as char
    } else {
        (v + 0x57) as char
    }
}

/// The lowercase hexadecimal rendering of a byte sequence: for each byte,
/// the digit of its high nibble, then the digit of its low nibble.
pub open spec fn hex_of(bytes: Seq<u8>) -> Seq<char> {
    Seq::new(
        bytes.len() * 2,
        |i: int|
            if i % 2 == 0 {
                hex_digit_char(bytes[i / 2] / 16)
            } else {
                hex_digit_char(bytes[i / 2] % 16)
            },
    )
}

/// True of the sixteen characters a lowercase hexadecimal rendering is
/// made of.
pub open spec fn is_lower_hex_char(c: char) -> bool {
    ('0' <= c && c <= '9') || ('a' <= c && c <= 'f')
}

/// A hexadecimal rendering is twice as long as the bytes it renders, and
/// holds lowercase hexadecimal digits alone.
pub proof fn lemma_hex_of_charset(bytes: Seq<u8>)
    ensures
        hex_of(bytes).len() == bytes.len() * 2,
        forall|i: int|
            0 <= i < hex_of(bytes).len() ==> is_lower_hex_char(#[trigger] hex_of(bytes)[i]),
{
    assert forall|i: int| 0 <= i < hex_of(bytes).len() implies is_lower_hex_char(
        #[trigger] hex_of(bytes)[i],
    ) by {
        let b = bytes[i / 2];
        if i % 2 == 0 {
            assert(b / 16 < 16);
        } else {
            assert(b % 16 < 16);
        }
    }
}

/// Relies on hex::encode: per byte, the digit of its high nibble then the
/// digit of its low nibble, from the lowercase hexadecimal alphabet.
#[verifier::external_body]
pub(crate) fn hex_encode_lower(bytes: &[u8]) -> (r: String)
    ensures
        r@ == hex_of(bytes@),
{
    hex::encode(bytes)
}

} // verus!
