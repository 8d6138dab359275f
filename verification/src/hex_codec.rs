//! Hex decoding through the `hex` crate, with its behaviour stated.

use vstd::prelude::*;
use vstd::utf8::encode_utf8;

verus! {

#[verifier::external_type_specification]
#[verifier::external_body]
pub struct ExFromHexError(hex::FromHexError);

/// `b` is an ASCII hex digit (`0-9`, `A-F`, `a-f`).
pub open spec fn is_hex_digit(b: u8) -> bool {
    (48 <= b <= 57) || (65 <= b <= 70) || (97 <= b <= 102)
}

/// Value of a hex digit.
pub open spec fn hex_value(b: u8) -> int {
    if 48 <= b <= 57 {
        b - 48
    } else if 65 <= b <= 70 {
        b - 55
    } else {
        b - 87
    }
}

/// The bytes form a complete hex string: even length, digits only.
pub open spec fn hex_decodable(bytes: Seq<u8>) -> bool {
    &&& bytes.len() % 2 == 0
    &&& forall|i: int| 0 <= i < bytes.len() ==> is_hex_digit(#[trigger] bytes[i])
}

/// The bytes a hex string stands for, two digits per byte, high nibble first.
pub open spec fn hex_decoded(bytes: Seq<u8>) -> Seq<u8> {
    Seq::new(
        bytes.len() / 2,
        |i: int| (hex_value(bytes[2 * i]) * 16 + hex_value(bytes[2 * i + 1])) as u8,
    )
}

/// `hex::decode` on the UTF-8 bytes of `s`: it fails on an odd length or on
/// any byte that is not a hex digit, and otherwise returns the decoded bytes.
#[verifier::external_body]
pub(crate) fn hex_decode(s: &str) -> (r: Result<Vec<u8>, hex::FromHexError>)
    ensures
        r is Ok <==> hex_decodable(encode_utf8(s@)),
        r matches Ok(v) ==> v@ == hex_decoded(encode_utf8(s@)),
{
    hex::decode(s)
}

} // verus!
