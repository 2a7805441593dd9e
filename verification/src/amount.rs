//! Monetary amounts as exact fixed-point values.
//!
//! An amount is a `u64` counting ten-thousandths of the currency unit, so
//! every value carries exactly four fractional digits and all arithmetic on
//! amounts is exact integer arithmetic: no binary floating-point rounding can
//! occur anywhere in the ledger.

use vstd::prelude::*;

verus! {

/// Raw units in one whole currency unit: four fractional digits.
pub const UNITS_PER_WHOLE: u64 = 10_000;

/// Builds a raw amount from a whole part and a count of ten-thousandths.
///
/// The representation is exact: the result is `whole * 10_000 +
/// ten_thousandths`, with no rounding.
pub fn from_units(whole: u64, ten_thousandths: u64) -> (r: u64)
    requires
        ten_thousandths < 10_000,
        whole * 10_000 + ten_thousandths <= u64::MAX,
    ensures
        r == whole * 10_000 + ten_thousandths,
{
    whole * UNITS_PER_WHOLE + ten_thousandths
}

/// The whole-currency-unit part of a raw amount.
pub fn whole_part(raw: u64) -> (r: u64)
    ensures
        r == raw / 10_000,
{
    raw / UNITS_PER_WHOLE
}

/// The fractional part of a raw amount, as a count of ten-thousandths.
pub fn frac_part(raw: u64) -> (r: u64)
    ensures
        r == raw % 10_000,
        r < 10_000,
{
    raw % UNITS_PER_WHOLE
}

} // verus!
