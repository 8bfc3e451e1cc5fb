//! Clamping of a coordinate into a closed range.

use vstd::prelude::*;

verus! {

/// `value` snapped to the nearest of `low` and `high` when it lies outside
/// `[low, high]`. The low bound is tested first, so with `low > high` a value
/// under `low` becomes `low` and any other value becomes `high`.
pub open spec fn clamped(value: int, low: int, high: int) -> int {
    if value < low {
        low
    } else if value > high {
        high
    } else {
        value
    }
}

/// Clamps `value` into `[low, high]` in place.
pub fn clamp(value: &mut i128, low: i128, high: i128)
    ensures
        *final(value) == clamped(*old(value) as int, low as int, high as int),
{
    if *value < low {
        *value = low;
    } else if *value > high {
        *value = high;
    }
}

/// A value within the bounds is left unchanged by the clamp, however often
/// the clamp is applied.
pub proof fn clamp_keeps_value_in_range(value: int, low: int, high: int)
    requires
        low <= value <= high,
    ensures
        clamped(value, low, high) == value,
        clamped(clamped(value, low, high), low, high) == value,
{
}

/// With bounds in order the clamp lands within them, and a second clamp
/// changes nothing.
pub proof fn clamp_is_idempotent(value: int, low: int, high: int)
    requires
        low <= high,
    ensures
        low <= clamped(value, low, high) <= high,
        clamped(clamped(value, low, high), low, high) == clamped(value, low, high),
{
}

} // verus!
