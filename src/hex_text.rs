use vstd::prelude::*;

verus! {

#[verifier::external_type_specification]
#[verifier::external_body]
pub struct ExFromHexError(hex::FromHexError);

/// ASCII `0-9`, `A-F` and `a-f`.
pub open spec fn is_hex_digit(c: u8) -> bool {
    ||| 0x30 <= c <= 0x39
    ||| 0x41 <= c <= 0x46
    ||| 0x61 <= c <= 0x66
}

/// Value of a hex digit.
pub open spec fn hex_digit_value(c: u8) -> int {
    if c <= 0x39 {
        c - 0x30
    } else if c <= 0x46 {
        c - 0x41 + 10
    } else {
        c - 0x61 + 10
    }
}

/// The bytes that hex text stands for: two digits per byte, high digit first.
/// `None` where the text has an odd length or a character that is no hex digit.
pub open spec fn hex_decoded(t: Seq<u8>) -> Option<Seq<u8>> {
    if t.len() % 2 == 0 && forall|i: int| 0 <= i < t.len() ==> is_hex_digit(#[trigger] t[i]) {
        Some(
            Seq::new(
                t.len() / 2,
                |k: int| (16 * hex_digit_value(t[2 * k]) + hex_digit_value(t[2 * k + 1])) as u8,
            ),
        )
    } else {
        None
    }
}

/// Whether text starts with `0x`.
pub open spec fn has_hex_prefix(t: Seq<u8>) -> bool {
    t.len() >= 2 && t[0] == 0x30 && t[1] == 0x78
}

/// Text without a leading `0x`.
pub open spec fn strip_hex_prefix(t: Seq<u8>) -> Seq<u8> {
    if has_hex_prefix(t) {
        t.subrange(2, t.len() as int)
    } else {
        t
    }
}

/// Relies on hex::decode: on an even number of hex digits (either case) it
/// returns one byte per pair, high digit first; on any other input an error.
#[verifier::external_body]
pub(crate) fn decode_hex_digits(t: &[u8]) -> (r: Result<Vec<u8>, hex::FromHexError>)
    ensures
        match r {
            Ok(v) => hex_decoded(t@) == Some(v@),
            Err(_) => hex_decoded(t@) is None,
        },
{
    hex::decode(t)
}

/// Removes a leading `0x` (bytes 0x30, 0x78), if there is one.
pub fn strip_prefix(t: &[u8]) -> (r: &[u8])
    ensures
        r@ == strip_hex_prefix(t@),
{
    if t.len() >= 2 && t[0] == 0x30 && t[1] == 0x78 {
        let (_, rest) = t.split_at(2);
        rest
    } else {
        t
    }
}

} // verus!
