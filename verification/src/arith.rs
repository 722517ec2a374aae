//! Integer arithmetic with Rust's rounding, stated over mathematical integers.
use vstd::prelude::*;

verus! {

/// Rust's integer division, which rounds toward zero.
pub open spec fn trunc_div(a: int, b: int) -> int {
    if a >= 0 {
        if b > 0 { a / b } else { -(a / (-b)) }
    } else {
        if b > 0 { -((-a) / b) } else { (-a) / (-b) }
    }
}

/// The smaller of two integers.
pub open spec fn min_int(a: int, b: int) -> int {
    if a <= b { a } else { b }
}

/// The larger of two integers.
pub open spec fn max_int(a: int, b: int) -> int {
    if a >= b { a } else { b }
}

/// `a / b` on `i64`, rounding toward zero as Rust does.
pub fn div_toward_zero(a: i64, b: i64) -> (r: i64)
    requires
        b != 0,
        !(a == i64::MIN && b == -1),
    ensures
        r == trunc_div(a as int, b as int),
{
    let ua: u128 = if a < 0 { (0i128 - a as i128) as u128 } else { a as u128 };
    let ub: u128 = if b < 0 { (0i128 - b as i128) as u128 } else { b as u128 };
    let uq: u128 = ua / ub;
    assert(uq <= ua && (ub >= 2 ==> uq <= ua / 2)) by (nonlinear_arith)
        requires
            uq == ua / ub,
            ub >= 1,
    ;
    if (a < 0) != (b < 0) {
        (0i128 - uq as i128) as i64
    } else {
        uq as i64
    }
}

} // verus!
