//! The 128-bit identifiers under which devices and actions are addressed.

use uuid::Uuid;
use vstd::prelude::*;

verus! {

/// `uuid::Uuid`, carried through as an opaque value: nothing here looks
/// inside an identifier.
#[verifier::external_type_specification]
#[verifier::external_body]
pub struct ExUuid(uuid::Uuid);

/// The identifier that `Uuid::from_u128` makes of a number. Which bytes it
/// holds is not spelled out.
pub uninterp spec fn uuid_of(number: u128) -> Uuid;

/// `Uuid::from_u128`: the identifier it returns depends on the number alone,
/// so the same number always gives the same identifier.
pub assume_specification[ Uuid::from_u128 ](v: u128) -> (id: Uuid)
    ensures
        id == uuid_of(v),
;

/// `Uuid`'s `clone`: an identifier is a plain value, and its clone is equal
/// to it.
pub assume_specification[ <Uuid as Clone>::clone ](id: &Uuid) -> (copy: Uuid)
    ensures
        copy == *id,
;

} // verus!
