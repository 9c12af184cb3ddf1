//! Lower-case hexadecimal text of a byte string.

use vstd::prelude::*;

verus! {

/// The sixteen lower-case hexadecimal digits, in order of their value.
pub open spec fn hex_digits() -> Seq<char> {
    seq!['0', '1', '2', '3', '4', '5', '6', '7', '8', '9', 'a', 'b', 'c', 'd', 'e', 'f']
}

/// Whether `c` is a decimal digit or one of the lower-case letters `a` to `f`.
pub open spec fn is_lower_hex(c: char) -> bool {
    ('0' <= c && c <= '9') || ('a' <= c && c <= 'f')
}

/// The hexadecimal text of `bytes`: two digits for each byte, the high half
/// of the byte first.
pub open spec fn hex_lower(bytes: Seq<u8>) -> Seq<char> {
    Seq::new(
        2 * bytes.len(),
        |i: int|
            if i % 2 == 0 {
                hex_digits()[bytes[i / 2] as int / 16]
            } else {
                hex_digits()[bytes[i / 2] as int % 16]
            },
    )
}

/// Hexadecimal text is twice as long as the bytes it renders, and holds
/// nothing but lower-case hexadecimal digits.
pub proof fn lemma_hex_lower_shape(bytes: Seq<u8>)
    ensures
        hex_lower(bytes).len() == 2 * bytes.len(),
        forall|i: int| 0 <= i < hex_lower(bytes).len() ==> is_lower_hex(#[trigger] hex_lower(bytes)[i]),
{
    assert forall|i: int| 0 <= i < hex_lower(bytes).len() implies is_lower_hex(
        #[trigger] hex_lower(bytes)[i],
    ) by {
        let byte = bytes[i / 2] as int;
        let value = if i % 2 == 0 {
            byte / 16
        } else {
            byte % 16
        };
        assert(hex_lower(bytes)[i] == hex_digits()[value]);
        lemma_hex_digit_is_lower_hex(value);
    }
}

/// Each of the sixteen digits is a lower-case hexadecimal digit.
proof fn lemma_hex_digit_is_lower_hex(value: int)
    requires
        0 <= value < 16,
    ensures
        is_lower_hex(hex_digits()[value]),
{
}

/// Calls `hex::encode`. The crate documents that each byte becomes two
/// lower-case hexadecimal digits; its source takes them from the table
/// `0123456789abcdef`, first by the byte's high four bits, then by its low
/// four bits.
#[verifier::external_body]
pub(crate) fn hex_encode(bytes: &[u8]) -> (text: String)
    ensures
        text@ == hex_lower(bytes@),
{
    hex::encode(bytes)
}

} // verus!
