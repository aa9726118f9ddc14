use vstd::prelude::*;

verus! {

/// Sub-pixel units per pixel: velocities are in milli-pixels per second and time
/// in milliseconds, so their product is in micro-pixels.
pub const MICRO: i64 = 1_000_000;

/// The largest speed of any body, in milli-pixels per second (10,000 pixels per second).
pub const MAX_SPEED: i64 = 10_000_000;

/// `a / b` rounded toward zero.
pub open spec fn div_toward_zero(a: int, b: int) -> int {
    if a >= 0 {
        a / b
    } else {
        -((-a) / b)
    }
}

/// Whole pixels to move when `v` milli-pixels per second act for `dt`
/// milliseconds on top of a carried fraction `rem` (in micro-pixels).
pub open spec fn step_of(rem: int, v: int, dt: int) -> int {
    div_toward_zero(rem + v * dt, MICRO as int)
}

/// The fraction carried to the next frame.
pub open spec fn rem_of(rem: int, v: int, dt: int) -> int {
    rem + v * dt - step_of(rem, v, dt) * MICRO
}

pub open spec fn rem_ok(rem: int) -> bool {
    -MICRO < rem < MICRO
}

pub open spec fn speed_ok(v: int) -> bool {
    -MAX_SPEED <= v <= MAX_SPEED
}

/// Integrates velocity `v` over `dt` milliseconds: returns the whole pixels to
/// move and keeps the remaining fraction in `rem`.
pub fn integrate(rem: &mut i64, v: i64, dt: u32) -> (step: i64)
    requires
        rem_ok(*old(rem) as int),
        speed_ok(v as int),
    ensures
        step == step_of(*old(rem) as int, v as int, dt as int),
        *final(rem) == rem_of(*old(rem) as int, v as int, dt as int),
        rem_ok(*final(rem) as int),
        step * MICRO + *final(rem) == *old(rem) + v * dt,
        -43_000_000_000 <= step <= 43_000_000_000,
{
    assert(-42_949_672_950_000_000 <= (v as int) * (dt as int) <= 42_949_672_950_000_000)
        by (nonlinear_arith)
        requires
            speed_ok(v as int),
            0 <= dt <= 4_294_967_295,
    ;
    let total: i64 = *rem + v * (dt as i64);
    let step: i64;
    if total >= 0 {
        let q = (total as u64) / (MICRO as u64);
        assert((total as u64) / (MICRO as u64) <= (total as u64)) by (nonlinear_arith);
        step = q as i64;
        *rem = total - step * MICRO;
    } else {
        let q = ((-total) as u64) / (MICRO as u64);
        step = -(q as i64);
        *rem = total - step * MICRO;
    }
    step
}

} // verus!
