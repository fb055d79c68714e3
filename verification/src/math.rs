//! Saturating fixed-point arithmetic on milli-unit scalars.
//!
//! Every physical quantity in this crate is an `i64` counting thousandths.
//! Multiplying two such quantities therefore needs a division by 1000, done
//! here with truncation toward zero, and results outside the `i64` range
//! saturate at the nearest bound.
use vstd::prelude::*;

verus! {

/// The nearest value to `v` that fits in an `i64`.
pub open spec fn sat_i64(v: int) -> int {
    if v > i64::MAX as int {
        i64::MAX as int
    } else if v < i64::MIN as int {
        i64::MIN as int
    } else {
        v
    }
}

/// Division by 1000 truncating toward zero, as machine division does.
pub open spec fn div1000_trunc(v: int) -> int {
    if v >= 0 {
        v / 1000
    } else {
        -((-v) / 1000)
    }
}

/// The product of `a` and a milli-scaled factor `b`: `a * b / 1000`,
/// truncated toward zero and saturated into the `i64` range.
pub open spec fn scale_milli_spec(a: int, b: int) -> int {
    sat_i64(div1000_trunc(a * b))
}

/// The absolute value of `v`.
pub open spec fn abs_int(v: int) -> int {
    if v >= 0 {
        v
    } else {
        -v
    }
}

/// Saturating addition: exact where the sum fits, pinned at the bound where
/// it does not.
pub fn sat_add(a: i64, b: i64) -> (r: i64)
    ensures
        r as int == sat_i64(a + b),
{
    if b >= 0 {
        if a > i64::MAX - b {
            i64::MAX
        } else {
            a + b
        }
    } else {
        if a < i64::MIN - b {
            i64::MIN
        } else {
            a + b
        }
    }
}

/// The absolute value of `x`, widened so that `i64::MIN` poses no problem.
fn abs_u64(x: i64) -> (r: u64)
    ensures
        r as int == abs_int(x as int),
{
    if x >= 0 {
        x as u64
    } else {
        (-(x as i128)) as u64
    }
}

/// Multiplies `a` by the milli-scaled factor `b`, dividing the product by
/// 1000 with truncation toward zero and saturating into the `i64` range.
pub fn scale_milli(a: i64, b: i64) -> (r: i64)
    ensures
        r as int == scale_milli_spec(a as int, b as int),
{
    let ma: u64 = abs_u64(a);
    let mb: u64 = abs_u64(b);
    proof {
        assert((ma as int) * (mb as int) <= u128::MAX as int) by (nonlinear_arith);
    }
    let p: u128 = (ma as u128) * (mb as u128);
    let q: u128 = p / 1000;
    proof {
        assert((ma as int) * (mb as int) == abs_int((a as int) * (b as int))
            && ((a < 0) == (b < 0) ==> (a as int) * (b as int) >= 0)
            && ((a < 0) != (b < 0) ==> (a as int) * (b as int) <= 0)) by (nonlinear_arith)
            requires
                ma as int == abs_int(a as int),
                mb as int == abs_int(b as int),
        ;
        assert(q as int == abs_int((a as int) * (b as int)) / 1000);
    }
    if (a < 0) == (b < 0) {
        if q > i64::MAX as u128 {
            i64::MAX
        } else {
            q as i64
        }
    } else {
        if q >= 9223372036854775808u128 {
            i64::MIN
        } else {
            -(q as i64)
        }
    }
}

} // verus!
