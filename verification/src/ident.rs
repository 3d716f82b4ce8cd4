//! Exemplar of a third-party unique-identifier type: its maximum
//! representable value, the identifier with every bit set.
//!
//! The type is opaque to the verifier, so it is modelled by its 128-bit
//! value as the type's own observer reports it.

use vstd::prelude::*;
use crate::Exemplars;

verus! {

#[verifier::external_type_specification]
#[verifier::external_body]
pub struct ExUuid(uuid::Uuid);

/// The 128-bit value of `u` in big-endian byte order, as
/// `uuid::Uuid::as_u128` reads it: a function of the value alone.
pub uninterp spec fn uuid_bits(u: uuid::Uuid) -> u128;

/// Relies on `uuid::Uuid::max`: the identifier built from sixteen 0xFF
/// bytes, whose 128-bit value is therefore all ones.
#[verifier::external_body]
fn uuid_max() -> (r: uuid::Uuid)
    ensures
        uuid_bits(r) == u128::MAX,
{
    uuid::Uuid::max()
}

impl Exemplars for uuid::Uuid {
    type Model = u128;

    open spec fn model_of(&self) -> u128 {
        uuid_bits(*self)
    }

    open spec fn exemplar_seq() -> Seq<u128> {
        seq![u128::MAX]
    }

    proof fn exemplar_seq_nonempty() {
    }

    fn exemplar_nth(i: u128) -> (r: Option<uuid::Uuid>) {
        if i == 0 {
            Some(uuid_max())
        } else {
            None
        }
    }
}

} // verus!
