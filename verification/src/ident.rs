//! Identifiers of todos: 128-bit values, written in the hyphenated lower-case
//! form of a UUID.
use vstd::prelude::*;

verus! {

/// The lower-case hexadecimal digit for a value in `0..16`.
pub open spec fn hex_digit(n: int) -> char {
    if n < 10 {
        (48 + n) as char
    } else {
        (87 + n) as char
    }
}

/// The `k`-th hexadecimal digit of `id`, counting from the most significant one.
pub open spec fn nibble(id: u128, k: int) -> int {
    ((id >> ((124 - 4 * k) as u128)) & 0xf) as int
}

/// Which digit of the 32-digit form stands at position `j` of the hyphenated form.
pub open spec fn digit_at(j: int) -> int {
    if j < 8 {
        j
    } else if j < 13 {
        j - 1
    } else if j < 18 {
        j - 2
    } else if j < 23 {
        j - 3
    } else {
        j - 4
    }
}

/// The hyphenated form `xxxxxxxx-xxxx-xxxx-xxxx-xxxxxxxxxxxx` of `id`:
/// its 32 hexadecimal digits, most significant first, in lower case, with
/// hyphens after the 8th, 12th, 16th and 20th digit.
pub open spec fn uuid_text(id: u128) -> Seq<char> {
    Seq::new(
        36,
        |j: int|
            if j == 8 || j == 13 || j == 18 || j == 23 {
                '-'
            } else {
                hex_digit(nibble(id, digit_at(j)))
            },
    )
}

/// `uuid::Uuid::from_u128(id).to_string()`. `from_u128` takes the value's bytes
/// in big-endian order, and `Display` for `Uuid` writes the hyphenated
/// lower-case form of those bytes.
#[verifier::external_body]
pub(crate) fn uuid_string(id: u128) -> (r: String)
    ensures
        r@ == uuid_text(id),
{
    uuid::Uuid::from_u128(id).to_string()
}

} // verus!
