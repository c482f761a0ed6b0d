//! Integer ceiling division, as used by the crafting formulas.

use vstd::prelude::*;
use vstd::arithmetic::div_mod::{lemma_fundamental_div_mod, lemma_fundamental_div_mod_converse};

verus! {

/// The ceiling of `a / b` for a positive divisor.
pub open spec fn ceil_div(a: int, b: int) -> int
    recommends
        b > 0,
{
    (a + b - 1) / b
}

/// `ceil_div(a, b)` is the least integer `k` with `k * b >= a`.
pub proof fn lemma_ceil_div_is_least(a: int, b: int)
    requires
        b > 0,
    ensures
        ceil_div(a, b) * b >= a,
        (ceil_div(a, b) - 1) * b < a,
{
    let q = (a + b - 1) / b;
    let r = (a + b - 1) % b;
    lemma_fundamental_div_mod(a + b - 1, b);
    assert(0 <= r < b);
    assert(a + b - 1 == b * q + r);
    assert(q * b == b * q) by (nonlinear_arith);
    assert((q - 1) * b == q * b - b) by (nonlinear_arith);
}

proof fn lemma_ceil_div_negative(p: int, b: int)
    requires
        p > 0,
        b > 0,
    ensures
        ceil_div(-p, b) == -(p / b),
{
    let q = p / b;
    let r = p % b;
    lemma_fundamental_div_mod(p, b);
    assert(p == b * q + r);
    assert(0 <= r < b);
    assert(-p + b - 1 == (-q) * b + (b - 1 - r)) by (nonlinear_arith)
        requires
            p == b * q + r,
    ;
    lemma_fundamental_div_mod_converse(-p + b - 1, b, -q, b - 1 - r);
}

/// Ceiling division on wide integers.
pub fn ceil_div_i128(a: i128, b: i128) -> (r: i128)
    requires
        b > 0,
        i128::MIN < a <= i128::MAX - b,
    ensures
        r == ceil_div(a as int, b as int),
{
    if a >= 0 {
        (a + b - 1) / b
    } else {
        let p: i128 = -a;
        proof {
            lemma_ceil_div_negative(p as int, b as int);
        }
        -(p / b)
    }
}

/// Products of two `i64` values fit in `i128`.
pub(crate) proof fn lemma_wide_product(a: int, b: int)
    requires
        i64::MIN <= a <= i64::MAX,
        i64::MIN <= b <= i64::MAX,
    ensures
        i128::MIN <= a * b <= i128::MAX,
{
    assert(-0x8000_0000_0000_0000 * 0x8000_0000_0000_0000 <= a * b <= 0x8000_0000_0000_0000
        * 0x8000_0000_0000_0000) by (nonlinear_arith)
        requires
            -0x8000_0000_0000_0000 <= a <= 0x8000_0000_0000_0000,
            -0x8000_0000_0000_0000 <= b <= 0x8000_0000_0000_0000,
    ;
}

} // verus!
