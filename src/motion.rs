//! Integer helpers for motion: distance covered in a frame, and saturation
//! to the symmetric range of `i64`.
use vstd::prelude::*;
use crate::geometry::clamp;
use crate::MICROS_PER_SECOND;

verus! {

/// The symmetric range of `i64`: every value in it can be negated.
pub open spec fn in_range(v: int) -> bool {
    -i64::MAX <= v <= i64::MAX
}

pub open spec fn saturate(v: int) -> int {
    clamp(v, -i64::MAX as int, i64::MAX as int)
}

/// Distance covered at speed `v` (sub-units per second) during `dt`
/// microseconds, rounded toward zero.
pub open spec fn travel(v: int, dt: int) -> int {
    if v >= 0 {
        (v * dt) / (MICROS_PER_SECOND as int)
    } else {
        -((-v * dt) / (MICROS_PER_SECOND as int))
    }
}

pub fn saturate_i128(v: i128) -> (r: i64)
    ensures
        r == saturate(v as int),
        in_range(r as int),
{
    if v < -(i64::MAX as i128) {
        -i64::MAX
    } else if v > i64::MAX as i128 {
        i64::MAX
    } else {
        v as i64
    }
}

pub fn travel_i128(v: i64, dt: u32) -> (r: i128)
    requires
        in_range(v as int),
    ensures
        r == travel(v as int, dt as int),
        -0x1_0000_0000_0000_0000_0000_0000 < r < 0x1_0000_0000_0000_0000_0000_0000,
{
    let a: i128 = if v >= 0 { v as i128 } else { -(v as i128) };
    proof {
        assert(0 <= a * (dt as int) <= 0x8000_0000_0000_0000 * 0x1_0000_0000) by (nonlinear_arith)
            requires
                0 <= a <= 0x8000_0000_0000_0000,
                0 <= dt <= 0xffff_ffff,
        ;
    }
    let d = (a * dt as i128) / (MICROS_PER_SECOND as i128);
    if v >= 0 {
        d
    } else {
        -d
    }
}

} // verus!
