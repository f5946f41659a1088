//! Lowercase hexadecimal formatting of canonical key bytes, and the
//! "0x"-prefixed form used by manifest records.

use vstd::prelude::*;
use vstd::string::StringExecFns;

verus! {

/// The lowercase hexadecimal digit character of a value below sixteen.
pub open spec fn hex_digit_char(n: nat) -> char {
    if n == 0 {
        '0'
    } else if n == 1 {
        '1'
    } else if n == 2 {
        '2'
    } else if n == 3 {
        '3'
    } else if n == 4 {
        '4'
    } else if n == 5 {
        '5'
    } else if n == 6 {
        '6'
    } else if n == 7 {
        '7'
    } else if n == 8 {
        '8'
    } else if n == 9 {
        '9'
    } else if n == 10 {
        'a'
    } else if n == 11 {
        'b'
    } else if n == 12 {
        'c'
    } else if n == 13 {
        'd'
    } else if n == 14 {
        'e'
    } else {
        'f'
    }
}

/// Lowercase hexadecimal encoding of a byte sequence: exactly two digits per
/// byte, most significant nibble first.
pub open spec fn hex_of(b: Seq<u8>) -> Seq<char> {
    Seq::new(
        2 * b.len(),
        |i: int|
            if i % 2 == 0 {
                hex_digit_char((b[i / 2] / 16) as nat)
            } else {
                hex_digit_char((b[i / 2] % 16) as nat)
            },
    )
}

/// Relies on `hex::encode` (hex 0.4.3): it returns the lowercase
/// hexadecimal encoding of its input, two digits per byte, most significant
/// nibble first.
#[verifier::external_body]
pub(crate) fn encode_lower_hex(bytes: &[u8]) -> (r: String)
    ensures
        r@ == hex_of(bytes@),
{
    hex::encode(bytes)
}

/// The "0x"-prefixed lowercase hexadecimal form of a canonical public-key
/// encoding, as it appears in manifest records.
pub open spec fn pubkey_hex_spec(b: Seq<u8>) -> Seq<char> {
    seq!['0', 'x'] + hex_of(b)
}

/// Formats canonical public-key bytes as the manifest's `pubkey_hex` field.
pub fn pubkey_hex(pk_bytes: &[u8]) -> (r: String)
    ensures
        r@ == pubkey_hex_spec(pk_bytes@),
{
    let mut s = String::from_str("0x");
    let h = encode_lower_hex(pk_bytes);
    s.append(h.as_str());
    proof {
        reveal_strlit("0x");
        assert(s@ =~= pubkey_hex_spec(pk_bytes@));
    }
    s
}

} // verus!
