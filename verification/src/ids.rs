//! Identifiers: random module ids and their textual form.

use vstd::prelude::*;

verus! {

/// Bit layout of a version-4 UUID held as a 128-bit integer: the version
/// nibble reads 4 and the two variant bits read `0b10`.
pub open spec fn is_v4_layout(id: u128) -> bool {
    &&& (id >> 76u128) & 0xfu128 == 4u128
    &&& (id >> 62u128) & 0x3u128 == 2u128
}

/// The lower-case, hyphenated text of the UUID whose 128 bits are `id`.
pub uninterp spec fn hyphenated_uuid(id: u128) -> Seq<char>;

/// Draws a fresh random id with `uuid::Uuid::new_v4` and returns its 128 bits.
/// The uuid crate masks the random bits so that the version nibble is 4 and
/// the variant bits are `0b10`; nothing else is known of the value.
#[verifier::external_body]
pub(crate) fn new_module_id() -> (id: u128)
    ensures
        is_v4_layout(id),
{
    uuid::Uuid::new_v4().as_u128()
}

/// Formats `id` with `uuid::Uuid::from_u128(id).to_string()`: the 36-character,
/// lower-case, hyphenated form, which depends on `id` alone.
#[verifier::external_body]
fn uuid_text(id: u128) -> (s: String)
    ensures
        s@ == hyphenated_uuid(id),
        s@.len() == 36,
{
    uuid::Uuid::from_u128(id).to_string()
}

/// The request id that the UUID with the bits `id` gives: its hyphenated text.
pub fn request_id_for(id: u128) -> (s: String)
    ensures
        s@ == hyphenated_uuid(id),
        s@.len() == 36,
{
    uuid_text(id)
}

/// A fresh request id: the hyphenated text of a fresh random id.
pub fn new_request_id() -> (s: String)
    ensures
        exists|id: u128| is_v4_layout(id) && s@ == #[trigger] hyphenated_uuid(id),
        s@.len() == 36,
{
    let id = new_module_id();
    request_id_for(id)
}

} // verus!
