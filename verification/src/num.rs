//! Small helpers on whole numbers.

use vstd::prelude::*;

verus! {

/// The smaller of the two.
pub open spec fn min_int(a: int, b: int) -> int {
    if a <= b {
        a
    } else {
        b
    }
}

/// The larger of the two.
pub open spec fn max_int(a: int, b: int) -> int {
    if a >= b {
        a
    } else {
        b
    }
}

/// The smaller of the two.
pub open spec fn min_nat(a: nat, b: nat) -> nat {
    if a <= b {
        a
    } else {
        b
    }
}

/// The quotient of `n` by a positive `d`, rounded towards zero.
pub open spec fn quotient(n: int, d: int) -> int
    recommends
        d > 0,
{
    if n >= 0 {
        n / d
    } else {
        -((-n) / d)
    }
}

/// The value held to the range of `i32`.
pub open spec fn held_i32(value: int) -> int {
    if value < i32::MIN {
        i32::MIN as int
    } else if value > i32::MAX {
        i32::MAX as int
    } else {
        value
    }
}

/// The quotient of `n` by a positive `d`, rounded towards zero.
pub fn divide(n: i64, d: i64) -> (q: i64)
    requires
        d > 0,
    ensures
        q == quotient(n as int, d as int),
        n >= 0 ==> 0 <= q <= n,
        n < 0 ==> n <= q <= 0,
{
    proof {
        if n >= 0 {
            assert(0 <= (n as int) / (d as int) <= n) by (nonlinear_arith)
                requires
                    d >= 1,
                    n >= 0,
            ;
        } else {
            assert(0 <= (-(n as int)) / (d as int) <= -(n as int)) by (nonlinear_arith)
                requires
                    d >= 1,
                    n < 0,
            ;
        }
    }
    n / d
}

/// The value held to the range of `i32`.
pub fn clamp_i32(value: i64) -> (r: i32)
    ensures
        r == held_i32(value as int),
{
    if value < -2147483648 {
        -2147483648
    } else if value > 2147483647 {
        2147483647
    } else {
        value as i32
    }
}

} // verus!
