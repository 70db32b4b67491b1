//! Lower-case hexadecimal text of a byte string.

use vstd::prelude::*;

verus! {

/// The sixteen lower-case hexadecimal digits, in order of value.
pub open spec fn hex_digits() -> Seq<char> {
    seq!['0', '1', '2', '3', '4', '5', '6', '7', '8', '9', 'a', 'b', 'c', 'd', 'e', 'f']
}

/// The hexadecimal text of `bytes`: two lower-case digits for each byte, the
/// high half first, with no prefix and no separator.
pub open spec fn hex_text(bytes: Seq<u8>) -> Seq<char> {
    Seq::new(
        2 * bytes.len(),
        |i: int|
            if i % 2 == 0 {
                hex_digits()[bytes[i / 2] as int / 16]
            } else {
                hex_digits()[bytes[i / 2] as int % 16]
            },
    )
}

/// Calls `deep_space::utils::bytes_to_hex_str`, which formats every byte as two
/// lower-case hexadecimal digits, padded with `0`, and joins them in order.
#[verifier::external_body]
pub(crate) fn bytes_to_hex_str(bytes: &[u8]) -> (text: String)
    ensures
        text@ == hex_text(bytes@),
{
    deep_space::utils::bytes_to_hex_str(bytes)
}

} // verus!
