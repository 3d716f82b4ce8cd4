//! Exemplars of two third-party decimal number types: an arbitrary-precision
//! decimal and a 96-bit fixed-point decimal. Each offers a single exemplar,
//! the type's multiplicative identity.
//!
//! The types are opaque to the verifier, so each is modelled by what its own
//! observers report of a value: the arbitrary-precision decimal by its plain
//! decimal rendering, the fixed-point decimal by its mantissa and scale.

use vstd::prelude::*;
use crate::Exemplars;

verus! {

#[verifier::external_type_specification]
#[verifier::external_body]
pub struct ExBigDecimal(bigdecimal::BigDecimal);

/// The plain (non-scientific) decimal rendering of `d`, as
/// `bigdecimal::BigDecimal::to_plain_string` produces it: a function of the
/// value alone.
pub uninterp spec fn big_decimal_plain(d: bigdecimal::BigDecimal) -> Seq<char>;

/// Relies on `bigdecimal::One::one` for `BigDecimal`: the multiplicative
/// identity, built from the big integer 1 at scale 0, whose plain decimal
/// rendering is therefore "1".
#[verifier::external_body]
fn big_decimal_one() -> (r: bigdecimal::BigDecimal)
    ensures
        big_decimal_plain(r) == "1"@,
{
    <bigdecimal::BigDecimal as bigdecimal::One>::one()
}

impl Exemplars for bigdecimal::BigDecimal {
    type Model = Seq<char>;

    open spec fn model_of(&self) -> Seq<char> {
        big_decimal_plain(*self)
    }

    open spec fn exemplar_seq() -> Seq<Seq<char>> {
        seq!["1"@]
    }

    proof fn exemplar_seq_nonempty() {
    }

    fn exemplar_nth(i: u128) -> (r: Option<bigdecimal::BigDecimal>) {
        if i == 0 {
            Some(big_decimal_one())
        } else {
            None
        }
    }
}

#[verifier::external_type_specification]
#[verifier::external_body]
pub struct ExDecimal(rust_decimal::Decimal);

/// The signed mantissa of `d`, as `rust_decimal::Decimal::mantissa` reports
/// it: a function of the value alone.
pub uninterp spec fn decimal_mantissa(d: rust_decimal::Decimal) -> i128;

/// The scale of `d` (the power of ten its mantissa is divided by), as
/// `rust_decimal::Decimal::scale` reports it: a function of the value alone.
pub uninterp spec fn decimal_scale(d: rust_decimal::Decimal) -> u32;

/// Relies on `rust_decimal::Decimal::ONE`: the constant 1, stored as
/// mantissa 1 at scale 0 with a positive sign.
#[verifier::external_body]
fn decimal_one() -> (r: rust_decimal::Decimal)
    ensures
        decimal_mantissa(r) == 1,
        decimal_scale(r) == 0,
{
    rust_decimal::Decimal::ONE
}

impl Exemplars for rust_decimal::Decimal {
    type Model = (i128, u32);

    open spec fn model_of(&self) -> (i128, u32) {
        (decimal_mantissa(*self), decimal_scale(*self))
    }

    open spec fn exemplar_seq() -> Seq<(i128, u32)> {
        seq![(1i128, 0u32)]
    }

    proof fn exemplar_seq_nonempty() {
    }

    fn exemplar_nth(i: u128) -> (r: Option<rust_decimal::Decimal>) {
        if i == 0 {
            Some(decimal_one())
        } else {
            None
        }
    }
}

} // verus!
