use vstd::prelude::*;

use crate::error::EstimateError;

verus! {

/// Tag byte that selects the set-compute-unit-limit request among the
/// resource-budget program's instructions.
pub const SET_LIMIT_TAG: u8 = 2;

/// Fixed safety margin, in units, of the fixed-margin entry point.
pub const FIXED_MARGIN: u32 = 150;

/// The payload of a "set resource limit" instruction: the tag byte followed
/// by the limit as four little-endian bytes.
pub open spec fn set_limit_data(limit: u32) -> Seq<u8> {
    seq![
        SET_LIMIT_TAG,
        (limit % 256) as u8,
        (limit / 256 % 256) as u8,
        (limit / 65536 % 256) as u8,
        (limit / 16777216) as u8,
    ]
}

/// Encodes the payload of a "set resource limit" instruction.
pub fn encode_set_limit(limit: u32) -> (r: Vec<u8>)
    ensures
        r@ == set_limit_data(limit),
{
    let mut v: Vec<u8> = Vec::new();
    v.push(SET_LIMIT_TAG);
    v.push((limit % 256) as u8);
    v.push((limit / 256 % 256) as u8);
    v.push((limit / 65536 % 256) as u8);
    v.push((limit / 16777216) as u8);
    proof {
        assert(v@ =~= set_limit_data(limit));
    }
    v
}

/// The percentage margin: one fifth of each full hundred units of the
/// estimate.
pub open spec fn percent_margin(estimate: u32) -> int {
    (estimate as int / 100) * 20
}

/// The estimate padded by the percentage margin, as an unbounded integer.
pub open spec fn percent_padded(estimate: u32) -> int {
    estimate as int + percent_margin(estimate)
}

/// The estimate padded by the fixed margin, as an unbounded integer.
pub open spec fn fixed_padded(estimate: u32) -> int {
    estimate as int + FIXED_MARGIN as int
}

/// Percentage margin policy: pads the estimate by a fifth of each full
/// hundred units. Saturation is never applied: a padded value beyond the
/// 32-bit range is rejected as `Overflow`, never wrapped or clamped.
pub fn pad_limit_percent(estimate: u32) -> (r: Result<u32, EstimateError>)
    ensures
        percent_padded(estimate) <= u32::MAX ==> r == Ok::<u32, EstimateError>(
            percent_padded(estimate) as u32,
        ),
        percent_padded(estimate) > u32::MAX ==> r == Err::<u32, EstimateError>(
            EstimateError::Overflow,
        ),
{
    let margin: u64 = (estimate as u64 / 100) * 20;
    let padded: u64 = estimate as u64 + margin;
    if padded > u32::MAX as u64 {
        Err(EstimateError::Overflow)
    } else {
        Ok(padded as u32)
    }
}

/// Fixed margin policy: pads the estimate by `FIXED_MARGIN` units. A padded
/// value beyond the 32-bit range is rejected as `Overflow`, never wrapped.
pub fn pad_limit_fixed(estimate: u32) -> (r: Result<u32, EstimateError>)
    ensures
        fixed_padded(estimate) <= u32::MAX ==> r == Ok::<u32, EstimateError>(
            fixed_padded(estimate) as u32,
        ),
        fixed_padded(estimate) > u32::MAX ==> r == Err::<u32, EstimateError>(
            EstimateError::Overflow,
        ),
{
    let padded: u64 = estimate as u64 + FIXED_MARGIN as u64;
    if padded > u32::MAX as u64 {
        Err(EstimateError::Overflow)
    } else {
        Ok(padded as u32)
    }
}

/// Narrows a raw 64-bit unit count to the 32-bit range of a limit request;
/// a count beyond that range is rejected as `Overflow`.
pub fn limit_from_units(units: u64) -> (r: Result<u32, EstimateError>)
    ensures
        units <= u32::MAX ==> r == Ok::<u32, EstimateError>(units as u32),
        units > u32::MAX ==> r == Err::<u32, EstimateError>(EstimateError::Overflow),
{
    if units > u32::MAX as u64 {
        Err(EstimateError::Overflow)
    } else {
        Ok(units as u32)
    }
}

} // verus!
