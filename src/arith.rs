//! Integer division that reports each failure instead of panicking.

use vstd::prelude::*;

verus! {

/// Why a division produced no quotient.
#[derive(Debug, Clone, Copy, PartialEq, Eq, Structural)]
pub enum DivisionError {
    /// The divisor was zero.
    ByZero,
    /// The quotient does not fit in an `i32` (only `i32::MIN / -1`).
    Overflow,
}

/// The mathematical quotient of `a` by `b`, rounded toward zero.
pub open spec fn trunc_quotient(a: int, b: int) -> int
    recommends
        b != 0,
{
    let q = abs(a) / abs(b);
    if (a < 0) == (b < 0) {
        q
    } else {
        -q
    }
}

/// The magnitude of `x`.
pub open spec fn abs(x: int) -> int {
    if x < 0 {
        -x
    } else {
        x
    }
}

/// Whether `a / b` overflows `i32`: the one case is `i32::MIN / -1`.
pub open spec fn division_overflows(a: i32, b: i32) -> bool {
    a == i32::MIN && b == -1
}

/// `trunc_quotient` is division rounded toward zero: the remainder it leaves
/// is smaller than the divisor in magnitude and is zero or has the sign of the
/// dividend.
pub proof fn lemma_trunc_quotient_remainder(a: int, b: int)
    requires
        b != 0,
    ensures
        abs(a - trunc_quotient(a, b) * b) < abs(b),
        a - trunc_quotient(a, b) * b == 0 || (a - trunc_quotient(a, b) * b < 0) == (a < 0),
{
    let x = abs(a);
    let d = abs(b);
    let q = x / d;
    let m = x % d;
    assert(x == q * d + m && 0 <= m < d) by (nonlinear_arith)
        requires
            x >= 0,
            d > 0,
            q == x / d,
            m == x % d,
    ;
    let t = trunc_quotient(a, b);
    assert(a - t * b == if a < 0 { -m } else { m }) by (nonlinear_arith)
        requires
            x == q * d + m,
            x == abs(a),
            d == abs(b),
            t == (if (a < 0) == (b < 0) { q } else { -q }),
            abs(a) == (if a < 0 { -a } else { a }),
            abs(b) == (if b < 0 { -b } else { b }),
    ;
}

/// The truncated quotient lies between zero and the dividend, so it fits in
/// `i32` unless the division is `i32::MIN / -1`.
proof fn lemma_trunc_quotient_bounds(a: i32, b: i32)
    requires
        b != 0,
    ensures
        abs(trunc_quotient(a as int, b as int)) <= abs(a as int),
        !division_overflows(a, b) ==> i32::MIN <= trunc_quotient(a as int, b as int) <= i32::MAX,
{
    let x = abs(a as int);
    let d = abs(b as int);
    assert(x / d <= x) by (nonlinear_arith)
        requires
            x >= 0,
            d >= 1,
    ;
    assert(x / d >= 0) by (nonlinear_arith)
        requires
            x >= 0,
            d >= 1,
    ;
    if d == 1 {
        assert(x / 1 == x);
    }
    if d >= 2 {
        assert(x / d <= x / 2) by (nonlinear_arith)
            requires
                x >= 0,
                d >= 2,
        ;
    }
}

/// Divides `a` by `b`, rounding toward zero. A zero divisor and the one
/// quotient that overflows are reported as errors.
pub fn divide(a: i32, b: i32) -> (r: Result<i32, DivisionError>)
    ensures
        b == 0 ==> r == Err::<i32, DivisionError>(DivisionError::ByZero),
        b != 0 && division_overflows(a, b) ==> r == Err::<i32, DivisionError>(
            DivisionError::Overflow,
        ),
        b != 0 && !division_overflows(a, b) ==> {
            &&& i32::MIN <= trunc_quotient(a as int, b as int) <= i32::MAX
            &&& r == Ok::<i32, DivisionError>(trunc_quotient(a as int, b as int) as i32)
        },
{
    if b == 0 {
        return Err(DivisionError::ByZero);
    }
    if a == i32::MIN && b == -1 {
        return Err(DivisionError::Overflow);
    }
    proof {
        lemma_trunc_quotient_bounds(a, b);
    }
    match a.checked_div(b) {
        Some(q) => Ok(q),
        None => Err(DivisionError::Overflow),
    }
}

} // verus!
