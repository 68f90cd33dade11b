use vstd::prelude::*;

verus! {

/// Two's-complement wrap-around sum of two `i64` values, the addition used
/// for additive mixing: it is total, and exchanging two summands never
/// changes the result, which makes mixing order-independent.
pub open spec fn wadd(a: i64, b: i64) -> i64 {
    if a + b > i64::MAX {
        (a + b - 0x1_0000_0000_0000_0000) as i64
    } else if a + b < i64::MIN {
        (a + b + 0x1_0000_0000_0000_0000) as i64
    } else {
        (a + b) as i64
    }
}

/// Executable wrap-around sum, the mixing primitive.
pub fn mix_add(a: i64, b: i64) -> (r: i64)
    ensures
        r == wadd(a, b),
{
    a.wrapping_add(b)
}

/// Exchanging the order of two summands added onto a running total leaves
/// the total unchanged: the heart of order-independent additive mixing.
pub proof fn lemma_wadd_exchange(x: i64, a: i64, b: i64)
    ensures
        wadd(wadd(x, a), b) == wadd(wadd(x, b), a),
{
}

/// Wrap-around addition is commutative.
pub proof fn lemma_wadd_comm(a: i64, b: i64)
    ensures
        wadd(a, b) == wadd(b, a),
{
}

/// Fixed-point product with truncation toward zero: `a` and `b` are values
/// scaled by `SCALE`, and so is the result.
pub open spec fn spec_fixed_mul(a: i64, b: i64) -> int {
    if a * b >= 0 {
        (a * b) / 1_000_000
    } else {
        -((-(a * b)) / 1_000_000)
    }
}

/// Magnitude bound of the fixed-point product: scaling one factor of at
/// most one unit keeps the result within the other factor's magnitude.
pub proof fn lemma_fixed_mul_bound(a: i64, b: i64, m: int)
    requires
        -m <= a <= m,
        0 <= b <= 1_000_000,
    ensures
        -m <= spec_fixed_mul(a, b) <= m,
{
    assert(a * b <= m * 1_000_000 && -(m * 1_000_000) <= a * b) by (nonlinear_arith)
        requires
            -m <= a <= m,
            0 <= b <= 1_000_000,
    ;
    if a * b >= 0 {
        assert((a * b) / 1_000_000 <= m) by (nonlinear_arith)
            requires
                0 <= a * b <= m * 1_000_000,
        ;
    } else {
        assert((-(a * b)) / 1_000_000 <= m) by (nonlinear_arith)
            requires
                0 < -(a * b) <= m * 1_000_000,
        ;
    }
}

/// Fixed-point multiply on values whose magnitudes keep the intermediate
/// product inside `i64`.
pub fn fixed_mul(a: i64, b: i64) -> (r: i64)
    requires
        -2_000_000_000 <= a <= 2_000_000_000,
        -2_000_000_000 <= b <= 2_000_000_000,
    ensures
        r == spec_fixed_mul(a, b),
{
    let neg: bool = (a < 0) != (b < 0);
    let am: i64 = if a < 0 { -a } else { a };
    let bm: i64 = if b < 0 { -b } else { b };
    assert(am * bm <= 2_000_000_000 * 2_000_000_000) by (nonlinear_arith)
        requires
            0 <= am <= 2_000_000_000,
            0 <= bm <= 2_000_000_000,
    ;
    let prod: i64 = am * bm;
    let q: i64 = prod / 1_000_000;
    proof {
        assert(am * bm == if a * b >= 0 { a * b } else { -(a * b) }) by (nonlinear_arith)
            requires
                am == if a < 0 { -(a as int) } else { a as int },
                bm == if b < 0 { -(b as int) } else { b as int },
        ;
        assert(if neg { a * b <= 0 } else { a * b >= 0 }) by (nonlinear_arith)
            requires
                neg == ((a < 0) != (b < 0)),
        ;
    }
    if neg && q != 0 {
        -q
    } else if neg {
        0
    } else {
        q
    }
}

} // verus!
