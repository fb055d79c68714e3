//! The angle model: clamping a gun's elevation into its legal range and
//! decomposing an angle and magnitude into a 2D vector.
//!
//! Angles are milliradians. The trigonometric functions are fixed-point
//! Taylor polynomials on the first quadrant, clamped into [0, 1000]; their
//! exact values are pinned down by the spec functions below, so every caller
//! computes with one agreed cosine and sine.
use vstd::prelude::*;

use crate::HALF_PI_MILLIRAD;

verus! {

/// Fourth-order Taylor polynomial of 1000·cos(x/1000), on milliradians.
pub open spec fn cos_taylor_milli(x: int) -> int {
    1000 - (x * x) / 2000 + ((x * x) * (x * x)) / 24000000000
}

/// Fifth-order Taylor polynomial of 1000·sin(x/1000), on milliradians.
pub open spec fn sin_taylor_milli(x: int) -> int {
    x - ((x * x) * x) / 6000000 + (((x * x) * (x * x)) * x) / 120000000000000
}

/// A milli-scaled trig value pinned into [0, 1000]: on the first quadrant
/// both cosine and sine lie in [0, 1].
pub open spec fn clamp_unit_milli(v: int) -> int {
    if v < 0 {
        0
    } else if v > 1000 {
        1000
    } else {
        v
    }
}

/// 1000·cos(x/1000) as this library computes it, for x in [0, π/2].
pub open spec fn spec_cos_milli(x: int) -> int {
    clamp_unit_milli(cos_taylor_milli(x))
}

/// 1000·sin(x/1000) as this library computes it, for x in [0, π/2].
pub open spec fn spec_sin_milli(x: int) -> int {
    clamp_unit_milli(sin_taylor_milli(x))
}

/// A gun elevation restricted into [0, π/2] milliradians.
pub open spec fn spec_clamp_angle(a: int) -> int {
    if a < 0 {
        0
    } else if a > HALF_PI_MILLIRAD as int {
        HALF_PI_MILLIRAD as int
    } else {
        a
    }
}

/// The x-component of `decompose`: `magnitude · cos(angle)`, in milli-units.
pub open spec fn spec_decompose_x(angle: int, magnitude: int) -> int {
    magnitude * spec_cos_milli(angle) / 1000
}

/// The y-component of `decompose`: `magnitude · sin(angle)`, in milli-units.
pub open spec fn spec_decompose_y(angle: int, magnitude: int) -> int {
    magnitude * spec_sin_milli(angle) / 1000
}

/// Restricts a gun elevation into [0, π/2] milliradians. Pure and total.
pub fn clamp_angle(a: i64) -> (r: i64)
    ensures
        r as int == spec_clamp_angle(a as int),
        0 <= r <= HALF_PI_MILLIRAD,
{
    if a < 0 {
        0
    } else if a > HALF_PI_MILLIRAD {
        HALF_PI_MILLIRAD
    } else {
        a
    }
}

/// Clamping an already clamped angle changes nothing.
pub proof fn lemma_clamp_angle_idempotent(a: int)
    ensures
        spec_clamp_angle(spec_clamp_angle(a)) == spec_clamp_angle(a),
        0 <= a <= HALF_PI_MILLIRAD as int ==> spec_clamp_angle(a) == a,
{
}

/// The gun angle left by a sequence of raw angle deltas, each added and then
/// clamped, starting from `a0`.
pub open spec fn apply_angle_deltas(a0: int, deltas: Seq<int>) -> int
    decreases deltas.len(),
{
    if deltas.len() == 0 {
        a0
    } else {
        apply_angle_deltas(
            spec_clamp_angle(a0 + deltas[0]),
            deltas.subrange(1, deltas.len() as int),
        )
    }
}

/// Whatever sequence of angle deltas arrives, a gun angle that starts in
/// [0, π/2] always stays in [0, π/2].
pub proof fn lemma_angle_deltas_stay_in_range(a0: int, deltas: Seq<int>)
    requires
        0 <= a0 <= HALF_PI_MILLIRAD as int,
    ensures
        0 <= apply_angle_deltas(a0, deltas) <= HALF_PI_MILLIRAD as int,
    decreases deltas.len(),
{
    if deltas.len() > 0 {
        lemma_angle_deltas_stay_in_range(
            spec_clamp_angle(a0 + deltas[0]),
            deltas.subrange(1, deltas.len() as int),
        );
    }
}

/// 1000·cos of a first-quadrant angle in milliradians, in [0, 1000].
pub fn cos_milli(angle: i64) -> (r: i64)
    requires
        0 <= angle <= HALF_PI_MILLIRAD,
    ensures
        r as int == spec_cos_milli(angle as int),
        0 <= r <= 1000,
{
    let x: u64 = angle as u64;
    proof {
        assert(x * x <= 2468041) by (nonlinear_arith)
            requires
                x <= 1571,
        ;
    }
    let x2: u64 = x * x;
    proof {
        assert(x2 * x2 <= 2468041 * 2468041) by (nonlinear_arith)
            requires
                x2 <= 2468041,
        ;
    }
    let x4: u64 = x2 * x2;
    let t2: u64 = x2 / 2000;
    let t4: u64 = x4 / 24000000000;
    let pos: u64 = 1000 + t4;
    if t2 >= pos {
        0
    } else {
        let v: u64 = pos - t2;
        if v > 1000 {
            1000
        } else {
            v as i64
        }
    }
}

/// 1000·sin of a first-quadrant angle in milliradians, in [0, 1000].
pub fn sin_milli(angle: i64) -> (r: i64)
    requires
        0 <= angle <= HALF_PI_MILLIRAD,
    ensures
        r as int == spec_sin_milli(angle as int),
        0 <= r <= 1000,
{
    let x: u64 = angle as u64;
    proof {
        assert(x * x <= 2468041) by (nonlinear_arith)
            requires
                x <= 1571,
        ;
    }
    let x2: u64 = x * x;
    proof {
        assert(x2 * x <= 2468041 * 1571 && x2 * x2 <= 2468041 * 2468041) by (nonlinear_arith)
            requires
                x2 <= 2468041 && x <= 1571,
        ;
    }
    let x3: u64 = x2 * x;
    let x4: u64 = x2 * x2;
    proof {
        assert(x4 * x <= 6091226377681 * 1571) by (nonlinear_arith)
            requires
                x4 <= 6091226377681 && x <= 1571,
        ;
    }
    let x5: u64 = x4 * x;
    let t3: u64 = x3 / 6000000;
    let t5: u64 = x5 / 120000000000000;
    let pos: u64 = x + t5;
    if t3 >= pos {
        0
    } else {
        let v: u64 = pos - t3;
        if v > 1000 {
            1000
        } else {
            v as i64
        }
    }
}

/// Decomposes an angle and magnitude into the 2D vector
/// `(magnitude·cos(angle), magnitude·sin(angle))`, in milli-units.
pub fn decompose(angle: i64, magnitude: i64) -> (v: (i64, i64))
    requires
        0 <= angle <= HALF_PI_MILLIRAD,
        0 <= magnitude <= 1000000000,
    ensures
        v.0 as int == spec_decompose_x(angle as int, magnitude as int),
        v.1 as int == spec_decompose_y(angle as int, magnitude as int),
        0 <= v.0 <= magnitude,
        0 <= v.1 <= magnitude,
{
    let c: i64 = cos_milli(angle);
    let s: i64 = sin_milli(angle);
    proof {
        assert((magnitude as int) * (c as int) <= 1000000000000
            && (magnitude as int) * (c as int) >= 0
            && (magnitude as int) * (c as int) / 1000 <= magnitude as int) by (nonlinear_arith)
            requires
                0 <= magnitude <= 1000000000,
                0 <= c <= 1000,
        ;
        assert((magnitude as int) * (s as int) <= 1000000000000
            && (magnitude as int) * (s as int) >= 0
            && (magnitude as int) * (s as int) / 1000 <= magnitude as int) by (nonlinear_arith)
            requires
                0 <= magnitude <= 1000000000,
                0 <= s <= 1000,
        ;
    }
    let dx: u64 = ((magnitude as u64) * (c as u64)) / 1000;
    let dy: u64 = ((magnitude as u64) * (s as u64)) / 1000;
    (dx as i64, dy as i64)
}

} // verus!
