//! Identifiers: fresh random identifiers and their text.
use vstd::prelude::*;
use crate::text::uuid_text;

verus! {

/// A fresh random (version 4) identifier, from `uuid::Uuid::new_v4`, as its 128-bit
/// value (`Uuid::as_u128`). Nothing is stated of the value: it is random.
#[verifier::external_body]
pub(crate) fn new_id() -> (r: u128) {
    uuid::Uuid::new_v4().as_u128()
}

/// The text of an identifier as `uuid::Uuid` displays it: the value's 32 lowercase
/// hexadecimal digits, most significant first, in groups of 8-4-4-4-12 joined by `-`
/// (`Uuid::from_u128` followed by `to_string`).
#[verifier::external_body]
pub(crate) fn id_text(id: u128) -> (r: String)
    ensures
        r@ == uuid_text(id),
{
    uuid::Uuid::from_u128(id).to_string()
}

} // verus!
