//! Fixed-point arithmetic: values carry six decimal places, i.e. one whole
//! unit is `SCALE` fixed-point steps. Multiplication of two fixed-point
//! values therefore divides by `SCALE` once, truncating toward zero, exactly
//! as `spec_scale_mul` states.

use vstd::prelude::*;

verus! {

use vstd::arithmetic::div_mod::lemma_div_is_ordered;

/// Number of fixed-point steps in one whole unit.
pub const SCALE: i64 = 1_000_000;

/// Bound accepted for each operand of `scale_mul`, chosen so that the
/// product of two operands fits in 64 bits.
pub const OPERAND_LIMIT: i64 = 2_000_000_000;

/// Bound on the result of `scale_mul` over operands within `OPERAND_LIMIT`.
pub const RESULT_LIMIT: i64 = 4_000_000_000_000;

/// The fixed-point product of `a` and `b`: the exact integer product,
/// rescaled by `SCALE` with truncation toward zero.
pub open spec fn spec_scale_mul(a: int, b: int) -> int {
    if a * b >= 0 {
        (a * b) / (SCALE as int)
    } else {
        -((-(a * b)) / (SCALE as int))
    }
}

/// Fixed-point multiplication, truncating toward zero.
pub fn scale_mul(a: i64, b: i64) -> (r: i64)
    requires
        -OPERAND_LIMIT <= a <= OPERAND_LIMIT,
        -OPERAND_LIMIT <= b <= OPERAND_LIMIT,
    ensures
        r == spec_scale_mul(a as int, b as int),
        -RESULT_LIMIT <= r <= RESULT_LIMIT,
{
    let negative: bool = (a < 0) != (b < 0);
    let abs_a: u64 = if a < 0 {
        (-a) as u64
    } else {
        a as u64
    };
    let abs_b: u64 = if b < 0 {
        (-b) as u64
    } else {
        b as u64
    };
    proof {
        assert(abs_a * abs_b <= 4_000_000_000_000_000_000) by (nonlinear_arith)
            requires
                abs_a <= 2_000_000_000,
                abs_b <= 2_000_000_000,
        ;
    }
    let product: u64 = abs_a * abs_b;
    let quotient: u64 = product / 1_000_000;
    proof {
        lemma_div_is_ordered(product as int, 4_000_000_000_000_000_000, 1_000_000);
        lemma_scale_mul_from_abs(a as int, b as int, abs_a as int, abs_b as int);
    }
    if negative {
        -(quotient as i64)
    } else {
        quotient as i64
    }
}

/// The truncating rescale of `a * b` can be computed from the absolute
/// values of the operands, restoring the sign afterwards.
proof fn lemma_scale_mul_from_abs(a: int, b: int, abs_a: int, abs_b: int)
    requires
        abs_a == if a < 0 { -a } else { a },
        abs_b == if b < 0 { -b } else { b },
    ensures
        a * b >= 0 ==> abs_a * abs_b == a * b,
        a * b < 0 ==> abs_a * abs_b == -(a * b),
        ((a < 0) != (b < 0)) ==> a * b <= 0,
        !((a < 0) != (b < 0)) ==> a * b >= 0,
{
    assert(a * b >= 0 ==> abs_a * abs_b == a * b) by (nonlinear_arith)
        requires
            abs_a == if a < 0 { -a } else { a },
            abs_b == if b < 0 { -b } else { b },
    ;
    assert(a * b < 0 ==> abs_a * abs_b == -(a * b)) by (nonlinear_arith)
        requires
            abs_a == if a < 0 { -a } else { a },
            abs_b == if b < 0 { -b } else { b },
    ;
    assert(((a < 0) != (b < 0)) ==> a * b <= 0) by (nonlinear_arith);
    assert(!((a < 0) != (b < 0)) ==> a * b >= 0) by (nonlinear_arith);
}

/// `r` is the integer square root of `n`.
pub open spec fn is_sqrt(n: int, r: int) -> bool {
    &&& 0 <= r
    &&& r * r <= n
    &&& n < (r + 1) * (r + 1)
}

/// A number has at most one integer square root.
pub proof fn lemma_sqrt_unique(n: int, r1: int, r2: int)
    requires
        is_sqrt(n, r1),
        is_sqrt(n, r2),
    ensures
        r1 == r2,
{
    assert(r1 == r2) by (nonlinear_arith)
        requires
            0 <= r1,
            0 <= r2,
            r1 * r1 <= n,
            n < (r1 + 1) * (r1 + 1),
            r2 * r2 <= n,
            n < (r2 + 1) * (r2 + 1),
    ;
}

/// Integer square root by bisection.
pub fn isqrt(n: u64) -> (r: u64)
    ensures
        is_sqrt(n as int, r as int),
{
    let mut lo: u64 = 0;
    let mut hi: u64 = 4_294_967_296;
    proof {
        assert((n as int) < 4_294_967_296int * 4_294_967_296int) by (nonlinear_arith)
            requires
                n <= 0xffff_ffff_ffff_ffffu64,
        ;
    }
    while lo + 1 < hi
        invariant
            0 <= lo < hi <= 4_294_967_296,
            (lo as int) * (lo as int) <= n as int,
            (n as int) < (hi as int) * (hi as int),
        decreases hi - lo,
    {
        let mid: u64 = lo + (hi - lo) / 2;
        proof {
            assert(mid * mid <= 0xffff_ffff_ffff_ffffu64) by (nonlinear_arith)
                requires
                    mid <= 4_294_967_295u64,
            ;
        }
        if mid * mid <= n {
            lo = mid;
        } else {
            hi = mid;
        }
    }
    lo
}

} // verus!
