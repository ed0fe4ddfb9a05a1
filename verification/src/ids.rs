//! Identifier generation and rendering.
//!
//! The engine stores identifiers as plain `u128` values, with `0` reserved
//! as the nil identifier that no live record may carry.  Generation and
//! textual rendering are delegated to the `uuid` crate.

use vstd::prelude::*;

verus! {

/// The canonical lowercase hyphenated text of the identifier `id`, as the
/// `uuid` crate renders it.  A function of `id` alone.
pub uninterp spec fn uuid_text_of(id: u128) -> Seq<char>;

/// Relies on `uuid::Uuid::new_v4`: the generated value always carries the
/// version-4 and variant bits, so it is never zero.
#[verifier::external_body]
pub fn fresh_id() -> (r: u128)
    ensures
        r != 0,
{
    uuid::Uuid::new_v4().as_u128()
}

/// Relies on `uuid::Uuid`'s `Display`: the lowercase hyphenated rendering,
/// 36 characters long, determined by the identifier's bytes alone.
#[verifier::external_body]
pub fn id_text(id: u128) -> (r: String)
    ensures
        r@ == uuid_text_of(id),
        r@.len() == 36,
{
    uuid::Uuid::from_u128(id).to_string()
}

} // verus!
