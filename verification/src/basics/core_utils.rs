use vstd::prelude::*;
use vstd::std_specs::cmp::PartialOrdIs;
use vstd::std_specs::cmp::PartialOrdSpec;

verus! {

/// What `clamp` returns for a type whose comparison has a specification:
/// `min` when `value` compares below it, else `max` when `value` compares
/// above that, else `value` itself.
pub open spec fn clamp_result<T: PartialOrd>(value: T, min: T, max: T) -> T {
    if value.is_lt(&min) {
        min
    } else if value.is_gt(&max) {
        max
    } else {
        value
    }
}

/// Restricts `value` to the range from `min` to `max`: `min` when `value`
/// compares below it, else `max` when `value` compares above that, else
/// `value` itself.
pub fn clamp<T: PartialOrd>(value: T, min: T, max: T) -> (r: T)
    ensures
        T::obeys_partial_cmp_spec() ==> r == clamp_result(value, min, max),
        r == value || r == min || r == max,
{
    if value < min {
        min
    } else if value > max {
        max
    } else {
        value
    }
}

/// On signed integers, clamping an already clamped value changes nothing,
/// and the result lies in the range.
pub proof fn clamp_is_idempotent_i64(value: i64, min: i64, max: i64)
    requires
        min <= max,
    ensures
        min <= clamp_result(value, min, max) <= max,
        clamp_result(clamp_result(value, min, max), min, max) == clamp_result(value, min, max),
{
}

/// On signed integers, clamping keeps order: a smaller value never clamps
/// to a larger result.
pub proof fn clamp_is_monotonic_i64(v1: i64, v2: i64, min: i64, max: i64)
    requires
        min <= max,
        v1 <= v2,
    ensures
        clamp_result(v1, min, max) <= clamp_result(v2, min, max),
{
}

/// On unsigned integers, clamping an already clamped value changes nothing,
/// and the result lies in the range.
pub proof fn clamp_is_idempotent_u64(value: u64, min: u64, max: u64)
    requires
        min <= max,
    ensures
        min <= clamp_result(value, min, max) <= max,
        clamp_result(clamp_result(value, min, max), min, max) == clamp_result(value, min, max),
{
}

/// On unsigned integers, clamping keeps order: a smaller value never clamps
/// to a larger result.
pub proof fn clamp_is_monotonic_u64(v1: u64, v2: u64, min: u64, max: u64)
    requires
        min <= max,
        v1 <= v2,
    ensures
        clamp_result(v1, min, max) <= clamp_result(v2, min, max),
{
}

} // verus!
