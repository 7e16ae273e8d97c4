//! Price values.
//!
//! All published prices, NAVs and volumes are carried as `rust_decimal`
//! decimals. The library never computes with them — it classifies, caches and
//! rearranges them — so the type is declared opaque and only the integer
//! conversion used for volumes is named.

use vstd::prelude::*;

verus! {

#[verifier::external_type_specification]
#[verifier::external_body]
pub struct ExDecimal(rust_decimal::Decimal);

/// Relies on `Decimal`'s derived `Clone` over its derived `Copy`: the clone
/// is the value itself.
pub assume_specification[ <rust_decimal::Decimal as Clone>::clone ](
    d: &rust_decimal::Decimal,
) -> (r: rust_decimal::Decimal)
    ensures
        r == *d,
;

/// The decimal that `Decimal::from` yields for the integer `v`.
pub uninterp spec fn dec_of_u64(v: u64) -> rust_decimal::Decimal;

/// Relies on `<Decimal as From<u64>>::from`: exact conversion of an unsigned
/// integer, a function of its argument alone.
#[verifier::external_body]
pub(crate) fn dec_from_u64(v: u64) -> (r: rust_decimal::Decimal)
    ensures
        r == dec_of_u64(v),
{
    rust_decimal::Decimal::from(v)
}

} // verus!
