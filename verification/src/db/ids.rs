//! Identifiers of rows: random 128-bit numbers in the layout of a UUID.

use vstd::prelude::*;

verus! {

/// The bits that every randomly generated identifier has in common: the
/// version nibble and the two variant bits.
pub const RANDOM_ID_MASK: u128 = 0x0000_0000_0000_f000_c000_0000_0000_0000;

/// The value of those bits: version four, variant one.
pub const RANDOM_ID_BITS: u128 = 0x0000_0000_0000_4000_8000_0000_0000_0000;

/// True when `id` has the version and variant bits of a randomly generated
/// identifier.
pub open spec fn is_random_id(id: u128) -> bool {
    id & RANDOM_ID_MASK == RANDOM_ID_BITS
}

/// Draws a new random identifier with `uuid::Uuid::new_v4` and hands it out
/// as its 128-bit number (`Uuid::as_u128`). Of the value only the fixed bits
/// are claimed: `new_v4` sets the version nibble to four and the two variant
/// bits to one and zero, whatever the random source gave. That two draws
/// differ is not promised.
#[verifier::external_body]
pub(crate) fn fresh_id() -> (id: u128)
    ensures
        is_random_id(id),
{
    uuid::Uuid::new_v4().as_u128()
}

/// The text of the identifier `id` as `uuid` prints it: the hyphenated form in
/// lower-case hexadecimal digits.
pub uninterp spec fn uuid_text(id: u128) -> Seq<char>;

/// Prints the identifier `id` with the `Display` of `uuid::Uuid`, by
/// `Uuid::from_u128(id).to_string()`. The text depends on the number alone;
/// what it is, is left to `uuid`.
#[verifier::external_body]
pub(crate) fn id_text(id: u128) -> (text: String)
    ensures
        text@ == uuid_text(id),
{
    uuid::Uuid::from_u128(id).to_string()
}

} // verus!
