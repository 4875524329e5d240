//! Safe multiply-divide primitives.
//!
//! Both entry points compute `floor(a * b / c)` for unsigned 64-bit
//! operands. When the operands are small enough that `a * b` fits in
//! 64 bits they stay in native 64-bit arithmetic; otherwise they widen
//! to 128 bits, divide there, and narrow the quotient back with an
//! explicit range check. Division by zero, an overflowing product and
//! a quotient too large for 64 bits all yield `None`, never a panic.

use vstd::arithmetic::div_mod::lemma_div_nonincreasing;
use vstd::prelude::*;

verus! {

/// Largest operand value for which `mul_div` stays in 64-bit arithmetic:
/// when both operands are at or below `2^32`, the product is at most `2^64`.
pub const MAX: u64 = 0x1_0000_0000;

/// Bound on the large operand of `mul_div_imbalanced` (`2^48`).
pub const MAX_BIG: u64 = 0x1_0000_0000_0000;

/// Bound on the small operand of `mul_div_imbalanced` (`2^16`).
pub const MAX_SMALL: u64 = 0x1_0000;

/// The exact mathematical value `floor(a * b / c)`; meaningful only for `c != 0`.
pub open spec fn mul_div_exact(a: u64, b: u64, c: u64) -> int {
    (a as int) * (b as int) / (c as int)
}

/// The value `mul_div(a, b, c)` returns.
///
/// With `c == 0` the result is absent. On the narrow path (both
/// operands at or below `MAX`) the product is computed in 64 bits, so a
/// product above `u64::MAX` — possible only for `a == b == MAX` — is
/// also absent. Otherwise the result is `floor(a * b / c)` whenever
/// that quotient fits in 64 bits, and absent when it does not.
pub open spec fn mul_div_spec(a: u64, b: u64, c: u64) -> Option<u64> {
    if c == 0 {
        None
    } else if a <= MAX && b <= MAX && (a as int) * (b as int) > u64::MAX {
        None
    } else if mul_div_exact(a, b, c) > u64::MAX {
        None
    } else {
        Some(mul_div_exact(a, b, c) as u64)
    }
}

/// The value `mul_div_imbalanced(a, b, c)` returns.
///
/// Same shape as `mul_div_spec`, with the narrow path taken when
/// `a <= MAX_BIG && b <= MAX_SMALL`; there the product overflows 64 bits
/// only for `a == MAX_BIG && b == MAX_SMALL`.
pub open spec fn mul_div_imbalanced_spec(a: u64, b: u64, c: u64) -> Option<u64> {
    if c == 0 {
        None
    } else if a <= MAX_BIG && b <= MAX_SMALL && (a as int) * (b as int) > u64::MAX {
        None
    } else if mul_div_exact(a, b, c) > u64::MAX {
        None
    } else {
        Some(mul_div_exact(a, b, c) as u64)
    }
}

/// Multiplies two u64s then divides by the third number.
/// This function attempts to use 64 bit math if possible.
pub fn mul_div(a: u64, b: u64, c: u64) -> (r: Option<u64>)
    ensures
        r == mul_div_spec(a, b, c),
        c == 0 ==> r is None,
        r is Some ==> r.unwrap() == mul_div_exact(a, b, c),
        c != 0 && mul_div_exact(a, b, c) <= u64::MAX && !(a <= MAX && b <= MAX
            && (a as int) * (b as int) > u64::MAX) ==> r == Some(mul_div_exact(a, b, c) as u64),
{
    if a > MAX || b > MAX {
        wide_mul_div(a, b, c)
    } else {
        match a.checked_mul(b) {
            Some(p) => {
                proof {
                    if c != 0 {
                        lemma_div_nonincreasing(p as int, c as int);
                    }
                }
                p.checked_div(c)
            },
            None => None,
        }
    }
}

/// Multiplies two u64s then divides by the third number.
/// This assumes that a > b.
pub fn mul_div_imbalanced(a: u64, b: u64, c: u64) -> (r: Option<u64>)
    ensures
        r == mul_div_imbalanced_spec(a, b, c),
        c == 0 ==> r is None,
        r is Some ==> r.unwrap() == mul_div_exact(a, b, c),
        c != 0 && mul_div_exact(a, b, c) <= u64::MAX && !(a <= MAX_BIG && b <= MAX_SMALL
            && (a as int) * (b as int) > u64::MAX) ==> r == Some(mul_div_exact(a, b, c) as u64),
{
    if a > MAX_BIG || b > MAX_SMALL {
        wide_mul_div(a, b, c)
    } else {
        match a.checked_mul(b) {
            Some(p) => {
                proof {
                    if c != 0 {
                        lemma_div_nonincreasing(p as int, c as int);
                    }
                }
                p.checked_div(c)
            },
            None => None,
        }
    }
}

/// Away from their narrow-path overflow points (`a == b == MAX` for
/// `mul_div`, `a == MAX_BIG && b == MAX_SMALL` for `mul_div_imbalanced`)
/// the two primitives have identical output contracts: both return
/// exactly `floor(a * b / c)` when `c != 0` and the quotient fits in 64
/// bits, and `None` otherwise.
pub proof fn lemma_primitives_agree(a: u64, b: u64, c: u64)
    requires
        !(a <= MAX && b <= MAX && (a as int) * (b as int) > u64::MAX),
        !(a <= MAX_BIG && b <= MAX_SMALL && (a as int) * (b as int) > u64::MAX),
    ensures
        mul_div_spec(a, b, c) == mul_div_imbalanced_spec(a, b, c),
{
}

/// The primitives are deterministic: any two results that the contract
/// of `mul_div` admits for the same operands are the same value, so
/// calling it twice with identical inputs yields identical outputs.
pub proof fn lemma_mul_div_deterministic(
    a: u64,
    b: u64,
    c: u64,
    first: Option<u64>,
    second: Option<u64>,
)
    requires
        first == mul_div_spec(a, b, c),
        second == mul_div_spec(a, b, c),
    ensures
        first == second,
{
}

/// The widened path shared by both primitives: multiply in 128 bits,
/// divide there, and narrow the quotient back to 64 bits if it fits.
fn wide_mul_div(a: u64, b: u64, c: u64) -> (r: Option<u64>)
    ensures
        r == (if c == 0 {
            None
        } else if mul_div_exact(a, b, c) > u64::MAX {
            None::<u64>
        } else {
            Some(mul_div_exact(a, b, c) as u64)
        }),
{
    proof {
        assert((a as int) * (b as int) <= (u64::MAX as int) * (u64::MAX as int))
            by (nonlinear_arith)
            requires
                a <= u64::MAX,
                b <= u64::MAX,
        ;
    }
    let p: u128 = (a as u128) * (b as u128);
    if c == 0 {
        None
    } else {
        let q: u128 = p / (c as u128);
        if q <= u64::MAX as u128 {
            Some(q as u64)
        } else {
            None
        }
    }
}

} // verus!
