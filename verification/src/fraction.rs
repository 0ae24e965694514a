//! Fixed-point fractions.
//!
//! A reveal amount, a gesture's progress or a snap threshold is a fraction of
//! the panel's full travel. It is held as an integer count of parts per
//! million: `0` is fully hidden, [`FULL`] is fully shown. Drag offsets are
//! held in millionths of a pixel, so that a drag over `size` pixels moves the
//! reveal by exactly `FULL`.

use vstd::prelude::*;

verus! {

/// One whole, in parts per million.
pub const FULL: i64 = 1_000_000;

/// Distance to the target below which an animation that is about to start counts as done.
pub const SETTLED: i64 = 1_000;

/// Distance to the target below which a running animation snaps onto it.
pub const SNAP_DISTANCE: i64 = 5_000;

/// `x` held to the range `[0, FULL]`.
pub open spec fn clamp_unit(x: int) -> int {
    if x < 0 {
        0
    } else if x > FULL {
        FULL as int
    } else {
        x
    }
}

/// Absolute value.
pub open spec fn abs(x: int) -> int {
    if x < 0 {
        -x
    } else {
        x
    }
}

/// Integer division rounding toward zero, as the machine divides.
pub open spec fn div_toward_zero(a: int, b: int) -> int {
    if (a >= 0) == (b >= 0) {
        abs(a) / abs(b)
    } else {
        -(abs(a) / abs(b))
    }
}

/// `x` clamped to `[0, FULL]`.
pub fn clamp_fraction(x: i64) -> (r: i64)
    ensures
        r == clamp_unit(x as int),
{
    if x < 0 {
        0
    } else if x > FULL {
        FULL
    } else {
        x
    }
}

/// The magnitude of a signed progress value, clamped to `[0, FULL]`.
pub fn magnitude_fraction(x: i64) -> (r: i64)
    ensures
        r == clamp_unit(abs(x as int)),
{
    if x >= 0 {
        clamp_fraction(x)
    } else if x < -FULL {
        FULL
    } else {
        -x
    }
}

/// The percentage a readout shows for fraction `f`: `f * 100 / FULL`
/// rounded to the nearest integer, ties to the even one.
pub open spec fn percent_of(f: int) -> int {
    let q = (f * 100) / (FULL as int);
    let r = (f * 100) % (FULL as int);
    if 2 * r > FULL {
        q + 1
    } else if 2 * r < FULL {
        q
    } else if q % 2 == 0 {
        q
    } else {
        q + 1
    }
}

/// The whole percentage shown for a fraction in `[0, FULL]`.
pub fn readout_percent(f: i64) -> (r: i64)
    requires
        0 <= f <= FULL,
    ensures
        r == percent_of(f as int),
        0 <= r <= 100,
{
    let p = f * 100;
    let q = p / FULL;
    let rem = p % FULL;
    assert(0 <= q <= 100) by (nonlinear_arith)
        requires
            0 <= f <= FULL,
            p == f * 100,
            q == p / FULL,
            FULL == 1_000_000,
    ;
    if 2 * rem > FULL {
        assert(q < 100) by (nonlinear_arith)
            requires
                0 <= f <= FULL,
                p == f * 100,
                q == p / FULL,
                rem == p % FULL,
                2 * rem > FULL,
                FULL == 1_000_000,
        ;
        q + 1
    } else if 2 * rem < FULL {
        q
    } else if q % 2 == 0 {
        q
    } else {
        assert(q < 100) by (nonlinear_arith)
            requires
                0 <= f <= FULL,
                p == f * 100,
                q == p / FULL,
                rem == p % FULL,
                2 * rem == FULL,
                FULL == 1_000_000,
        ;
        q + 1
    }
}

/// How far (in pixels, rounded down) a panel of `size` pixels sits off-screen
/// when revealed by `reveal`: `(FULL - reveal) * |size| / FULL`.
pub open spec fn hidden_extent(reveal: int, size: int) -> int {
    ((FULL - reveal) * abs(size)) / (FULL as int)
}

/// The layer-shell margin on a panel's own edge that shows it revealed by
/// `reveal` out of `FULL`: `-(1 - reveal) * size`, truncated toward zero and
/// held to the `i32` range.
pub open spec fn margin_for(reveal: int, size: int) -> int {
    if size >= 0 {
        -hidden_extent(reveal, size)
    } else if hidden_extent(reveal, size) > i32::MAX {
        i32::MAX as int
    } else {
        hidden_extent(reveal, size)
    }
}

/// The margin on a panel's own edge for a reveal fraction (see [`margin_for`]).
pub fn reveal_margin(reveal: i64, size: i32) -> (r: i32)
    requires
        0 <= reveal <= FULL,
    ensures
        r == margin_for(reveal as int, size as int),
{
    let hidden: i64 = FULL - reveal;
    let mag: i64 = if size >= 0 {
        size as i64
    } else {
        -(size as i64)
    };
    assert(0 <= hidden * mag <= FULL * 2147483648) by (nonlinear_arith)
        requires
            0 <= hidden <= FULL,
            0 <= mag <= 2147483648,
    ;
    let ext: i64 = (hidden * mag) / FULL;
    assert(0 <= ext <= mag) by (nonlinear_arith)
        requires
            0 <= hidden <= FULL,
            0 <= mag,
            ext == (hidden * mag) / (FULL as int),
            FULL > 0,
    ;
    if size >= 0 {
        -(ext as i32)
    } else if ext > i32::MAX as i64 {
        i32::MAX
    } else {
        ext as i32
    }
}

/// One easing step of an animation: the distance `diff` to the target
/// times `2/15` (the animation speed of 8 per second over 60 frames),
/// truncated toward zero.
pub open spec fn ease_step(diff: int) -> int {
    div_toward_zero(diff * 2, 15)
}

/// One easing step (see [`ease_step`]).
pub fn easing_step(diff: i64) -> (r: i64)
    requires
        -FULL <= diff <= FULL,
    ensures
        r == ease_step(diff as int),
        abs(r as int) <= abs(diff as int),
        (r >= 0) == (diff >= 0) || r == 0,
{
    if diff >= 0 {
        (diff * 2) / 15
    } else {
        -((-diff * 2) / 15)
    }
}

} // verus!
