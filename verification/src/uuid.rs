use vstd::prelude::*;

verus! {

/// The version field of a UUID read as a big-endian `u128`: the four bits that
/// start at bit 76.
pub open spec fn uuid_version(id: u128) -> u128 {
    (id / 0x1000_0000_0000_0000_0000) % 16
}

/// `uuid::Uuid::now_v7`, read as a big-endian `u128` (`Uuid::as_u128`).
///
/// The value depends on the clock and on a random source, so the contract says
/// only what holds of every outcome: the crate documents the result as a
/// version 7 UUID, i.e. its version field is 7.
#[verifier::external_body]
pub(crate) fn new_v7_id() -> (r: u128)
    ensures
        uuid_version(r) == 7,
{
    uuid::Uuid::now_v7().as_u128()
}

/// The lowercase hexadecimal digit for a value in `0..16`.
pub open spec fn hex_digit(d: nat) -> char {
    if d < 10 {
        (d + 48) as char
    } else {
        (d + 87) as char
    }
}

/// The last `n` hexadecimal digits of `v`, most significant first, with leading
/// zeros.
pub open spec fn hex_digits(v: nat, n: nat) -> Seq<char>
    decreases n,
{
    if n == 0 {
        Seq::empty()
    } else {
        hex_digits(v / 16, (n - 1) as nat).push(hex_digit(v % 16))
    }
}

/// The hyphenated text of a UUID given as a big-endian `u128`: its 32 lowercase
/// hexadecimal digits in groups of 8, 4, 4, 4 and 12, joined by hyphens.
pub open spec fn uuid_hyphenated(id: u128) -> Seq<char> {
    let h = hex_digits(id as nat, 32);
    h.subrange(0, 8) + seq!['-'] + h.subrange(8, 12) + seq!['-'] + h.subrange(12, 16)
        + seq!['-'] + h.subrange(16, 20) + seq!['-'] + h.subrange(20, 32)
}

/// `uuid::Uuid::from_u128(id)` written out by its `Display` impl.
///
/// `from_u128` takes the bytes of `id` in big-endian order, and `Display` writes
/// the hyphenated form: each byte as two lowercase hexadecimal digits, high
/// nibble first, with a hyphen after the 4th, 6th, 8th and 10th byte.
#[verifier::external_body]
pub(crate) fn uuid_text(id: u128) -> (r: String)
    ensures
        r@ == uuid_hyphenated(id),
{
    uuid::Uuid::from_u128(id).to_string()
}

} // verus!
