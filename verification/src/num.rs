//! Scalar helpers for the fixed-point geometry: truncating division with an
//! exact specification, magnitude lemmas, and an integer square root.

use vstd::prelude::*;

verus! {

/// Truncating (round-toward-zero) division, the rounding used throughout the
/// geometry. Only meaningful for a positive divisor; callers normalize signs
/// first.
pub open spec fn div_t(a: int, b: int) -> int
    recommends
        b > 0,
{
    if a >= 0 {
        a / b
    } else {
        -((-a) / b)
    }
}

/// For a nonnegative dividend and positive divisor, the quotient lies between
/// 0 and the dividend.
proof fn lemma_div_nat_range(a: int, b: int)
    requires
        a >= 0,
        b >= 1,
    ensures
        0 <= a / b <= a,
{
    vstd::arithmetic::div_mod::lemma_div_pos_is_pos(a, b);
    vstd::arithmetic::div_mod::lemma_div_nonincreasing(a, b);
}

/// Two truncating divisions by positive divisors compose into one by their
/// product.
pub proof fn lemma_div_t_denominator(a: int, m: int, n: int)
    requires
        m > 0,
        n > 0,
    ensures
        div_t(div_t(a, m), n) == div_t(a, m * n),
{
    vstd::arithmetic::mul::lemma_mul_strictly_positive(m, n);
    if a >= 0 {
        vstd::arithmetic::div_mod::lemma_div_pos_is_pos(a, m);
        vstd::arithmetic::div_mod::lemma_div_denominator(a, m, n);
    } else {
        vstd::arithmetic::div_mod::lemma_div_pos_is_pos(-a, m);
        assert(div_t(a, m) == -((-a) / m));
        if (-a) / m == 0 {
            vstd::arithmetic::div_mod::lemma_div_denominator(-a, m, n);
            assert(div_t(div_t(a, m), n) == 0int / n);
            vstd::arithmetic::div_mod::lemma_div_of0(n);
            vstd::arithmetic::div_mod::lemma_div_of0(m * n);
        } else {
            vstd::arithmetic::div_mod::lemma_div_denominator(-a, m, n);
        }
    }
}

/// Truncating division never increases magnitude: if `|a| <= bound` then
/// `|div_t(a, b)| <= bound` for any positive divisor.
pub proof fn lemma_div_t_bound(a: int, b: int, bound: int)
    requires
        b > 0,
        -bound <= a <= bound,
    ensures
        -bound <= div_t(a, b) <= bound,
{
    if a >= 0 {
        lemma_div_nat_range(a, b);
    } else {
        lemma_div_nat_range(-a, b);
    }
}

pub open spec fn s_abs(a: int) -> int {
    if a >= 0 {
        a
    } else {
        -a
    }
}

pub proof fn lemma_div_t_one(a: int)
    ensures
        div_t(a, 1) == a,
{
    if a >= 0 {
        vstd::arithmetic::div_mod::lemma_div_basics(a);
    } else {
        vstd::arithmetic::div_mod::lemma_div_basics(-a);
    }
}

/// Truncating division by at least 2 strictly shrinks a nonzero magnitude.
pub proof fn lemma_div_t_shrinks(a: int, b: int)
    requires
        b >= 2,
        a != 0,
    ensures
        s_abs(div_t(a, b)) < s_abs(a),
{
    if a > 0 {
        vstd::arithmetic::div_mod::lemma_div_is_strictly_smaller(a, b);
        vstd::arithmetic::div_mod::lemma_div_pos_is_pos(a, b);
    } else {
        vstd::arithmetic::div_mod::lemma_div_is_strictly_smaller(-a, b);
        vstd::arithmetic::div_mod::lemma_div_pos_is_pos(-a, b);
    }
}

/// Powers of two, for stating repeated halving.
pub open spec fn pow2(k: nat) -> int
    decreases k,
{
    if k == 0 {
        1
    } else {
        2 * pow2((k - 1) as nat)
    }
}

pub proof fn lemma_pow2_pos(k: nat)
    ensures
        pow2(k) >= 1,
    decreases k,
{
    if k > 0 {
        lemma_pow2_pos((k - 1) as nat);
    }
}

/// A nonnegative value whose square is at most `bound * bound` is at most
/// `bound`.
pub proof fn lemma_sqrt_le(m: int, x: int, bound: int)
    requires
        m >= 0,
        m * m <= x,
        x <= bound * bound,
        bound >= 0,
    ensures
        m <= bound,
{
    assert(m <= bound) by (nonlinear_arith)
        requires
            m >= 0,
            m * m <= x,
            x <= bound * bound,
            bound >= 0,
    ;
}

/// The product of two values bounded in magnitude is bounded by the product
/// of the bounds.
pub proof fn lemma_mul_bound(a: int, b: int, aa: int, bb: int)
    requires
        -aa <= a <= aa,
        -bb <= b <= bb,
    ensures
        -(aa * bb) <= a * b <= aa * bb,
{
    assert(-(aa * bb) <= a * b <= aa * bb) by (nonlinear_arith)
        requires
            -aa <= a <= aa,
            -bb <= b <= bb,
    ;
}

/// Truncating division on machine integers, for a positive divisor.
pub fn div_trunc(a: i128, b: i128) -> (r: i128)
    requires
        b > 0,
    ensures
        r == div_t(a as int, b as int),
{
    proof {
        if a >= 0 {
            lemma_div_nat_range(a as int, b as int);
        } else {
            lemma_div_nat_range(-(a as int), b as int);
        }
    }
    a / b
}

/// Floor of the square root, as a specification value.
pub open spec fn sqrt_floor(x: int) -> int
    recommends
        x >= 0,
{
    choose|r: int| r >= 0 && #[trigger] (r * r) <= x < (r + 1) * (r + 1)
}

/// The floor square root is characterized uniquely by its bracketing
/// property, so an executable square root that satisfies it computes
/// `sqrt_floor`.
pub proof fn lemma_sqrt_floor_unique(r: int, x: int)
    requires
        r >= 0,
        r * r <= x,
        x < (r + 1) * (r + 1),
    ensures
        r == sqrt_floor(x),
{
    let w = choose|w: int| w >= 0 && #[trigger] (w * w) <= x < (w + 1) * (w + 1);
    assert(r >= 0 && r * r <= x < (r + 1) * (r + 1));
    if w < r {
        assert((w + 1) * (w + 1) <= r * r) by (nonlinear_arith)
            requires
                0 <= w,
                w < r,
        ;
    } else if w > r {
        assert((r + 1) * (r + 1) <= w * w) by (nonlinear_arith)
            requires
                0 <= r,
                r < w,
        ;
    }
}

/// Floor of the square root: `r * r <= x < (r + 1) * (r + 1)`.
pub fn isqrt_u128(x: u128) -> (r: u128)
    requires
        x < 0x1000000000000000000000000000000,
    ensures
        r * r <= x,
        x < (r + 1) * (r + 1),
        r == sqrt_floor(x as int),
{
    let mut lo: u128 = 0;
    let mut hi: u128 = 0x1000000000000000;
    proof {
        lemma_mul_bound(hi as int, hi as int, 0x1000000000000000, 0x1000000000000000);
        assert(x < hi * hi);
    }
    while hi - lo > 1
        invariant
            lo < hi,
            hi <= 0x1000000000000000,
            lo * lo <= x,
            x < hi * hi,
        decreases hi - lo,
    {
        let mid: u128 = lo + (hi - lo) / 2;
        proof {
            lemma_mul_bound(mid as int, mid as int, 0x1000000000000000, 0x1000000000000000);
        }
        let sq: u128 = mid * mid;
        if sq <= x {
            lo = mid;
        } else {
            hi = mid;
        }
    }
    proof {
        lemma_sqrt_floor_unique(lo as int, x as int);
    }
    lo
}

} // verus!
