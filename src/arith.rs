//! Integer helpers shared by the simulation: saturation into the coordinate
//! range and division that truncates toward zero.
use vstd::prelude::*;

use crate::constants::PERMILLE;

verus! {

/// `v` saturated into the range of `i32`.
pub open spec fn fit(v: int) -> int {
    if v < i32::MIN {
        i32::MIN as int
    } else if v > i32::MAX {
        i32::MAX as int
    } else {
        v
    }
}

/// `a / b` rounded toward zero, for a positive `b`.
pub open spec fn trunc_div(a: int, b: int) -> int {
    if a >= 0 {
        a / b
    } else {
        -((-a) / b)
    }
}

/// `v` scaled by `permille` thousandths, rounded toward zero.
pub open spec fn scale_by(v: int, permille: int) -> int {
    trunc_div(v * permille, PERMILLE as int)
}

/// `v` clamped into `[-m, m]`.
pub open spec fn clamp_abs(v: int, m: int) -> int {
    if v < -m {
        -m
    } else if v > m {
        m
    } else {
        v
    }
}

/// Saturates a wide integer into `i32`.
pub fn fit_i32(v: i128) -> (r: i32)
    ensures
        r as int == fit(v as int),
{
    if v < i32::MIN as i128 {
        i32::MIN
    } else if v > i32::MAX as i128 {
        i32::MAX
    } else {
        v as i32
    }
}

/// Division rounded toward zero.
pub fn trunc_div_i128(a: i128, b: i128) -> (r: i128)
    requires
        b > 0,
        a > i128::MIN,
    ensures
        r as int == trunc_div(a as int, b as int),
        a >= 0 ==> 0 <= r <= a,
        a < 0 ==> a <= r <= 0,
{
    if a >= 0 {
        proof {
            assert(a / b <= a) by (nonlinear_arith)
                requires
                    a >= 0,
                    b > 0,
            ;
        }
        a / b
    } else {
        let na: i128 = -a;
        proof {
            assert(na / b <= na) by (nonlinear_arith)
                requires
                    na >= 0,
                    b > 0,
            ;
        }
        -(na / b)
    }
}

/// Scales `v` by `permille` thousandths, rounded toward zero.
pub fn scale_i128(v: i128, permille: i32) -> (r: i128)
    requires
        -0x1_0000_0000_0000_0000_0000 <= v <= 0x1_0000_0000_0000_0000_0000,
        permille >= 0,
    ensures
        r as int == scale_by(v as int, permille as int),
        -0x8000_0000_0000_0000_0000_0000_0000 <= r <= 0x8000_0000_0000_0000_0000_0000_0000,
{
    let p: i128 = permille as i128;
    proof {
        assert(-0x1_0000_0000_0000_0000_0000 * 0x8000_0000 <= v * p <= 0x1_0000_0000_0000_0000_0000
            * 0x8000_0000) by (nonlinear_arith)
            requires
                -0x1_0000_0000_0000_0000_0000 <= v <= 0x1_0000_0000_0000_0000_0000,
                0 <= p <= 0x8000_0000,
        ;
    }
    trunc_div_i128(v * p, PERMILLE)
}

/// Clamps `v` into `[-m, m]`.
pub fn clamp_abs_i32(v: i32, m: i32) -> (r: i32)
    requires
        m >= 0,
    ensures
        r as int == clamp_abs(v as int, m as int),
        -m <= r <= m,
{
    if v < -m {
        -m
    } else if v > m {
        m
    } else {
        v
    }
}

} // verus!
