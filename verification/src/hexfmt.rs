//! Lowercase hexadecimal rendering of digest bytes.

use vstd::prelude::*;

verus! {

/// The lowercase hexadecimal character for a nibble value below sixteen.
pub open spec fn hex_digit(n: u8) -> char
    recommends
        n < 16,
{
    if n < 10 {
        ((n + 48) as u8) as char
    } else {
        ((n + 87) as u8) as char
    }
}

/// Lowercase hexadecimal encoding of a byte sequence: two characters per
/// byte, most significant nibble first.
pub open spec fn hex_of(s: Seq<u8>) -> Seq<char>
    decreases s.len(),
{
    if s.len() == 0 {
        Seq::empty()
    } else {
        seq![hex_digit((s[0] / 16) as u8), hex_digit((s[0] % 16) as u8)] + hex_of(s.drop_first())
    }
}

/// A hex encoding is twice as long as the bytes it renders.
pub proof fn lemma_hex_of_len(s: Seq<u8>)
    ensures
        hex_of(s).len() == 2 * s.len(),
    decreases s.len(),
{
    if s.len() > 0 {
        lemma_hex_of_len(s.drop_first());
    }
}

/// Relies on hex::encode: returns the lowercase hexadecimal encoding of the
/// input, two digits per byte, most significant nibble first.
#[verifier::external_body]
pub(crate) fn hex_encode(data: &[u8]) -> (r: String)
    ensures
        r@ == hex_of(data@),
{
    hex::encode(data)
}

} // verus!
