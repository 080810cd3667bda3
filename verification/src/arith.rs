//! Integer semantics of constant folding: two's-complement wrap-around for
//! add/sub/mul and truncation toward zero for division and remainder, the
//! semantics of the target's native arithmetic instructions.
use vstd::math::abs;
use vstd::prelude::*;

verus! {

/// Quotient of `a` and `b` rounded toward zero, on mathematical integers.
pub open spec fn trunc_div(a: int, b: int) -> int
    recommends
        b != 0,
{
    if (a >= 0) == (b >= 0) {
        (abs(a) / abs(b)) as int
    } else {
        -((abs(a) / abs(b)) as int)
    }
}

/// Remainder left by `trunc_div`; it takes the sign of the dividend.
pub open spec fn trunc_rem(a: int, b: int) -> int
    recommends
        b != 0,
{
    a - b * trunc_div(a, b)
}

/// Truncating `i32` division; the one overflowing case, `i32::MIN / -1`,
/// wraps to `i32::MIN` as the target's divide instruction does.
pub open spec fn div_wrap(a: i32, b: i32) -> i32
    recommends
        b != 0,
{
    if a == i32::MIN && b == -1 {
        i32::MIN
    } else {
        trunc_div(a as int, b as int) as i32
    }
}

/// Truncating `i32` remainder; `i32::MIN % -1` is 0, so it never overflows.
pub open spec fn rem_wrap(a: i32, b: i32) -> i32
    recommends
        b != 0,
{
    trunc_rem(a as int, b as int) as i32
}

/// Magnitude of an `i32`, exact even for `i32::MIN`.
fn magnitude(x: i32) -> (r: u32)
    ensures
        r as int == abs(x as int),
{
    if x >= 0 {
        x as u32
    } else {
        (-(x as i64)) as u32
    }
}

/// The euclidean quotient and remainder of the magnitudes, from which the
/// truncating operations are assembled: `abs(a) == abs(b) * q0 + r0`.
proof fn lemma_magnitude_division(a: int, b: int)
    requires
        b != 0,
    ensures
        abs(a) == abs(b) * (abs(a) / abs(b)) + abs(a) % abs(b),
        0 <= abs(a) % abs(b) < abs(b),
        0 <= abs(a) / abs(b) <= abs(a),
        trunc_div(a, b) == if (a >= 0) == (b >= 0) {
            (abs(a) / abs(b)) as int
        } else {
            -((abs(a) / abs(b)) as int)
        },
        trunc_rem(a, b) == if a >= 0 {
            (abs(a) % abs(b)) as int
        } else {
            -((abs(a) % abs(b)) as int)
        },
{
    let u = abs(a) as int;
    let v = abs(b) as int;
    let q0 = u / v;
    let r0 = u % v;
    vstd::arithmetic::div_mod::lemma_fundamental_div_mod(u, v);
    vstd::arithmetic::div_mod::lemma_mod_division_less_than_divisor(u, v);
    vstd::arithmetic::div_mod::lemma_div_pos_is_pos(u, v);
    vstd::arithmetic::div_mod::lemma_div_nonincreasing(u, v);
    assert(u == v * q0 + r0);
    // Whatever the divisor's sign, the product of divisor and truncating
    // quotient carries the dividend's sign.
    if a >= 0 {
        assert(b * trunc_div(a, b) == v * q0) by (nonlinear_arith)
            requires
                (b == v && trunc_div(a, b) == q0) || (b == -v && trunc_div(a, b) == -q0),
        ;
        assert(trunc_rem(a, b) == u - v * q0 == r0);
    } else {
        assert(b * trunc_div(a, b) == -(v * q0)) by (nonlinear_arith)
            requires
                (b == v && trunc_div(a, b) == -q0) || (b == -v && trunc_div(a, b) == q0),
        ;
        assert(a == -u);
        assert(trunc_rem(a, b) == -u + v * q0 == -r0);
    }
}

/// The truncating quotient of admissible `i32` inputs fits in `i32`.
proof fn lemma_trunc_div_in_range(a: int, b: int)
    requires
        b != 0,
        i32::MIN <= a <= i32::MAX,
        i32::MIN <= b <= i32::MAX,
        !(a == i32::MIN && b == -1),
    ensures
        i32::MIN <= trunc_div(a, b) <= i32::MAX,
        abs(trunc_rem(a, b)) < abs(b),
{
    let u = abs(a) as int;
    let v = abs(b) as int;
    lemma_magnitude_division(a, b);
    if u < 0x8000_0000 {
        // |quotient| <= |a| <= i32::MAX.
    } else {
        // a == i32::MIN; b == -1 is excluded, so either b > 0 (the quotient
        // is negative and -2^31 is still representable) or |b| >= 2.
        if b < 0 {
            vstd::arithmetic::div_mod::lemma_div_is_ordered_by_denominator(u, 2, v);
            assert(u / v <= u / 2);
        }
    }
}

/// Constant-folds `a / b`: quotient rounded toward zero, with the target's
/// wrap-around on the single overflowing input pair.
pub fn eval_div(a: i32, b: i32) -> (r: i32)
    requires
        b != 0,
    ensures
        r == div_wrap(a, b),
{
    if a == i32::MIN && b == -1 {
        return i32::MIN;
    }
    let u: u32 = magnitude(a);
    let v: u32 = magnitude(b);
    let q0: u32 = u / v;
    proof {
        lemma_magnitude_division(a as int, b as int);
        lemma_trunc_div_in_range(a as int, b as int);
    }
    if (a >= 0) == (b >= 0) {
        q0 as i32
    } else {
        if q0 == 0x8000_0000u32 {
            i32::MIN
        } else {
            -(q0 as i32)
        }
    }
}

/// Constant-folds `a % b`: the remainder left by the truncating quotient; it
/// takes the sign of the dividend and never overflows.
pub fn eval_rem(a: i32, b: i32) -> (r: i32)
    requires
        b != 0,
    ensures
        r == rem_wrap(a, b),
{
    let u: u32 = magnitude(a);
    let v: u32 = magnitude(b);
    let r0: u32 = u % v;
    proof {
        lemma_magnitude_division(a as int, b as int);
    }
    if a >= 0 {
        r0 as i32
    } else {
        -(r0 as i32)
    }
}

/// Truncating-division law: for admissible inputs the folded quotient rounds
/// toward zero (its magnitude is `abs(a) / abs(b)`, floored), the remainder
/// takes the sign of the dividend and stays below the divisor in magnitude,
/// and quotient and remainder reconstruct the dividend exactly.
pub proof fn lemma_truncating_division(a: i32, b: i32)
    requires
        b != 0,
        !(a == i32::MIN && b == -1),
    ensures
        div_wrap(a, b) as int == trunc_div(a as int, b as int),
        rem_wrap(a, b) as int == trunc_rem(a as int, b as int),
        trunc_div(a as int, b as int) * (b as int) + trunc_rem(a as int, b as int) == a as int,
        abs(trunc_div(a as int, b as int)) == abs(a as int) / abs(b as int),
        trunc_rem(a as int, b as int) == 0 || ((trunc_rem(a as int, b as int) < 0) <==> (a < 0)),
        abs(trunc_rem(a as int, b as int)) < abs(b as int),
{
    lemma_magnitude_division(a as int, b as int);
    lemma_trunc_div_in_range(a as int, b as int);
    assert(trunc_div(a as int, b as int) * (b as int) == (b as int) * trunc_div(
        a as int,
        b as int,
    )) by (nonlinear_arith);
}

} // verus!
