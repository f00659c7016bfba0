//! Small saturating/clamping helpers used throughout the simulation core.

use vstd::prelude::*;

verus! {

/// Clamp `value` into `[min, max]`.
pub fn clamp(value: i64, min: i64, max: i64) -> (r: i64)
    requires
        min <= max,
    ensures
        r == spec_clamp(value as int, min as int, max as int),
{
    if value < min {
        min
    } else if value > max {
        max
    } else {
        value
    }
}

/// What [`clamp`] returns.
pub open spec fn spec_clamp(value: int, min: int, max: int) -> int {
    if value < min {
        min
    } else if value > max {
        max
    } else {
        value
    }
}

/// Saturating addition on the one-byte lifetime counter: the sum never wraps
/// past `u8::MAX`.
pub fn sat_add_u8(a: u8, b: u8) -> (r: u8)
    ensures
        r == spec_sat_add_u8(a as int, b as int),
{
    let sum: u16 = a as u16 + b as u16;
    if sum > 255 {
        255
    } else {
        sum as u8
    }
}

/// What [`sat_add_u8`] returns.
pub open spec fn spec_sat_add_u8(a: int, b: int) -> int {
    if a + b > 255 {
        255
    } else {
        a + b
    }
}

} // verus!
