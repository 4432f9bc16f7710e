use vstd::prelude::*;

verus! {

/// The lower-case hexadecimal digit of a value below 16.
pub open spec fn hex_digit(n: int) -> char {
    if n < 10 {
        (48 + n) as char
    } else {
        (87 + n) as char
    }
}

/// The `k`-th of the 32 hexadecimal digits of `id`, most significant first.
pub open spec fn id_nibble(id: u128, k: int) -> int {
    ((id >> ((124 - 4 * k) as u128)) & 0xf) as int
}

/// The hyphenated text of a UUID: its 32 lower-case hexadecimal digits, most
/// significant first, in groups of 8, 4, 4, 4 and 12 joined by `-`.
pub open spec fn uuid_text(id: u128) -> Seq<char> {
    Seq::new(
        36,
        |p: int|
            if p == 8 || p == 13 || p == 18 || p == 23 {
                '-'
            } else {
                let k = if p < 8 {
                    p
                } else if p < 13 {
                    p - 1
                } else if p < 18 {
                    p - 2
                } else if p < 23 {
                    p - 3
                } else {
                    p - 4
                };
                hex_digit(id_nibble(id, k))
            },
    )
}

/// Formats an id with `uuid::Uuid::from_u128` and its `Display` impl, which
/// writes the hyphenated lower-case form. Trusted to give `uuid_text(id)`.
#[verifier::external_body]
pub(crate) fn user_id_text(id: u128) -> (r: String)
    ensures
        r@ == uuid_text(id),
{
    uuid::Uuid::from_u128(id).to_string()
}

/// Whether an id is a version-4 (random) UUID: its version nibble is 4.
pub open spec fn is_v4_id(id: u128) -> bool {
    (id >> 76u128) & 0xfu128 == 4
}

/// A version-4 id is never the nil id.
pub proof fn lemma_v4_id_not_nil(id: u128)
    requires
        is_v4_id(id),
    ensures
        id != 0,
{
    assert((id >> 76u128) & 0xfu128 == 4 ==> id != 0) by (bit_vector);
}

/// A fresh random id from `uuid::Uuid::new_v4`. Trusted for what holds of
/// every outcome: the version nibble is 4.
#[verifier::external_body]
pub(crate) fn new_user_id() -> (r: u128)
    ensures
        (r >> 76u128) & 0xfu128 == 4,
{
    uuid::Uuid::new_v4().as_u128()
}

} // verus!
