//! Rescaling of integers by a fraction, and conversion of microsecond counts
//! into `Duration`s.
//!
//! The arithmetic itself is done by the `muldiv` crate; the functions here
//! only state what its results are.

use muldiv::MulDiv;
use std::time::Duration;
use vstd::prelude::*;

verus! {

/// `val * num / denom`, rounded to the nearest integer, halves going up.
pub open spec fn mul_div_round(val: int, num: int, denom: int) -> int {
    (val * num + denom / 2) / denom
}

/// `val * num / denom`, rounded up.
pub open spec fn mul_div_ceil(val: int, num: int, denom: int) -> int {
    (val * num + (denom - 1)) / denom
}

/// The whole number of microseconds that a `Duration` spans.
pub uninterp spec fn duration_micros(d: Duration) -> nat;

/// `muldiv::MulDiv::mul_div_round` for `u32`: the rounded quotient is computed
/// without intermediate overflow and is returned unless it does not fit in a
/// `u32`. The crate asserts that `denom` is not zero.
#[verifier::external_body]
pub(crate) fn mul_div_round_u32(val: u32, num: u32, denom: u32) -> (r: Option<u32>)
    requires
        denom != 0,
    ensures
        mul_div_round(val as int, num as int, denom as int) <= u32::MAX ==> r == Some(
            mul_div_round(val as int, num as int, denom as int) as u32,
        ),
        mul_div_round(val as int, num as int, denom as int) > u32::MAX ==> r.is_none(),
{
    val.mul_div_round(num, denom)
}

/// `muldiv::MulDiv::mul_div_ceil` for `u64`: the quotient rounded up is
/// computed in 128 bits and is returned unless it does not fit in a `u64`.
/// The crate asserts that `denom` is not zero.
#[verifier::external_body]
pub(crate) fn mul_div_ceil_u64(val: u64, num: u64, denom: u64) -> (r: Option<u64>)
    requires
        denom != 0,
    ensures
        mul_div_ceil(val as int, num as int, denom as int) <= u64::MAX ==> r == Some(
            mul_div_ceil(val as int, num as int, denom as int) as u64,
        ),
        mul_div_ceil(val as int, num as int, denom as int) > u64::MAX ==> r.is_none(),
{
    val.mul_div_ceil(num, denom)
}

/// `Duration::from_micros`: the duration made of exactly `micros` microseconds.
#[verifier::external_body]
pub(crate) fn duration_from_micros(micros: u64) -> (d: Duration)
    ensures
        duration_micros(d) == micros,
{
    Duration::from_micros(micros)
}

} // verus!
