//! Integer square and fifth roots, and the fixed-point power chain that
//! evaluates the Du Bois body-surface-area formula
//! `0.007 * height^0.725 * weight^0.425` in exact 128-bit decimal
//! arithmetic, at seven fractional digits.
//!
//! The fractional exponents decompose into halvings and fifths:
//! `0.725 = 1/2 + 1/5 + 1/40` and `0.425 = 1/4 + 1/8 + 1/20`, so the
//! whole chain needs only floor square roots and floor fifth roots of
//! scaled integers.

use vstd::prelude::*;

verus! {

/// Root arguments stay below `10^38` so that the binary search bounds
/// can be squared (or raised to the fifth power) in 128 bits.
pub const ROOT_LIMIT: u128 = 100_000_000_000_000_000_000_000_000_000_000_000_000;

/// `x^5`.
pub open spec fn pow5(x: int) -> int {
    x * x * x * x * x
}

/// `r` is the floor of the square root of `n`.
pub open spec fn is_floor_sqrt(n: int, r: int) -> bool {
    r >= 0 && r * r <= n && n < (r + 1) * (r + 1)
}

/// `r` is the floor of the fifth root of `n`.
pub open spec fn is_floor_root5(n: int, r: int) -> bool {
    r >= 0 && pow5(r) <= n && n < pow5(r + 1)
}

/// The floor of the square root of `n` (for `n >= 0`).
pub open spec fn floor_sqrt(n: int) -> int {
    choose|r: int| is_floor_sqrt(n, r)
}

/// The floor of the fifth root of `n` (for `n >= 0`).
pub open spec fn floor_root5(n: int) -> int {
    choose|r: int| is_floor_root5(n, r)
}

pub proof fn lemma_floor_sqrt_unique(n: int, r: int)
    requires
        is_floor_sqrt(n, r),
    ensures
        floor_sqrt(n) == r,
{
    assert(exists|x: int| is_floor_sqrt(n, x));
    let s = floor_sqrt(n);
    assert(is_floor_sqrt(n, s));
    assert(s == r) by (nonlinear_arith)
        requires
            r >= 0,
            s >= 0,
            r * r <= n,
            n < (r + 1) * (r + 1),
            s * s <= n,
            n < (s + 1) * (s + 1),
    ;
}

pub proof fn lemma_floor_root5_unique(n: int, r: int)
    requires
        is_floor_root5(n, r),
    ensures
        floor_root5(n) == r,
{
    assert(exists|x: int| is_floor_root5(n, x));
    let s = floor_root5(n);
    assert(is_floor_root5(n, s));
    assert(s == r) by (nonlinear_arith)
        requires
            r >= 0,
            s >= 0,
            pow5(r) <= n,
            n < pow5(r + 1),
            pow5(s) <= n,
            n < pow5(s + 1),
    ;
}

/// A floor root is below any value whose square exceeds `n`.
proof fn lemma_sqrt_bound(n: int, r: int, c: int)
    by (nonlinear_arith)
    requires
        r >= 0,
        c >= 0,
        r * r <= n,
        n < c * c,
    ensures
        r < c,
{
}

proof fn lemma_root5_bound(n: int, r: int, c: int)
    by (nonlinear_arith)
    requires
        r >= 0,
        c >= 0,
        pow5(r) <= n,
        n < pow5(c),
    ensures
        r < c,
{
}

/// The floor of the square root of `n`, by binary search.
pub fn isqrt(n: u128) -> (r: u128)
    requires
        n < ROOT_LIMIT,
    ensures
        is_floor_sqrt(n as int, r as int),
        r as int == floor_sqrt(n as int),
{
    let mut lo: u128 = 0;
    let mut hi: u128 = 10_000_000_000_000_000_000;
    proof {
        assert(hi * hi == ROOT_LIMIT);
    }
    while lo + 1 < hi
        invariant
            lo < hi <= 10_000_000_000_000_000_000,
            lo * lo <= n,
            n < hi * hi,
        decreases hi - lo,
    {
        let mid: u128 = lo + (hi - lo) / 2;
        proof {
            assert(lo < mid < hi);
            assert(mid * mid < ROOT_LIMIT) by (nonlinear_arith)
                requires
                    mid <= 9_999_999_999_999_999_999u128,
            ;
        }
        if mid * mid <= n {
            lo = mid;
        } else {
            hi = mid;
        }
    }
    proof {
        lemma_floor_sqrt_unique(n as int, lo as int);
    }
    lo
}

/// The floor of the fifth root of `n`, by binary search.
pub fn iroot5(n: u128) -> (r: u128)
    requires
        n < ROOT_LIMIT,
    ensures
        is_floor_root5(n as int, r as int),
        r as int == floor_root5(n as int),
{
    let mut lo: u128 = 0;
    let mut hi: u128 = 40_000_000;
    proof {
        assert(pow5(hi as int) > ROOT_LIMIT);
    }
    while lo + 1 < hi
        invariant
            lo < hi <= 40_000_000,
            pow5(lo as int) <= n,
            n < pow5(hi as int),
        decreases hi - lo,
    {
        let mid: u128 = lo + (hi - lo) / 2;
        proof {
            assert(lo < mid < hi);
            assert(mid * mid <= 1_600_000_000_000_000u128) by (nonlinear_arith)
                requires
                    mid <= 40_000_000,
            ;
        }
        let m2: u128 = mid * mid;
        proof {
            assert(m2 * m2 <= 2_560_000_000_000_000_000_000_000_000_000u128) by (nonlinear_arith)
                requires
                    m2 <= 1_600_000_000_000_000u128,
            ;
        }
        let m4: u128 = m2 * m2;
        proof {
            assert(m4 * mid <= 102_400_000_000_000_000_000_000_000_000_000_000_000u128)
                by (nonlinear_arith)
                requires
                    m4 <= 2_560_000_000_000_000_000_000_000_000_000u128,
                    mid <= 40_000_000,
            ;
        }
        let m5: u128 = m4 * mid;
        proof {
            assert(m5 == mid * mid * mid * mid * mid) by (nonlinear_arith)
                requires
                    m2 == mid * mid,
                    m4 == m2 * m2,
                    m5 == m4 * mid,
            ;
            assert(m5 == pow5(mid as int));
        }
        if m5 <= n {
            lo = mid;
        } else {
            hi = mid;
        }
    }
    proof {
        lemma_floor_root5_unique(n as int, lo as int);
    }
    lo
}

/// `height^0.725` at seven fractional digits, from the whole-unit height
/// mantissa: `sqrt(h) * h^(1/5) * h^(1/40)`, each factor a floor root of
/// the scaled argument and each product floored back to the scale.
pub open spec fn spec_pow_height(h: int) -> int {
    let a = floor_sqrt(h * 100_000_000_000_000);
    let b = floor_root5(h * 100_000_000_000_000_000_000_000_000_000_000_000);
    let c1 = floor_sqrt(b * 10_000_000);
    let c2 = floor_sqrt(c1 * 10_000_000);
    let c3 = floor_sqrt(c2 * 10_000_000);
    let p1 = a * b / 10_000_000;
    p1 * c3 / 10_000_000
}

/// `weight^0.425` at seven fractional digits, from the whole-unit weight
/// mantissa: `w^(1/4) * w^(1/8) * w^(1/20)`.
pub open spec fn spec_pow_weight(w: int) -> int {
    let d1 = floor_sqrt(w * 100_000_000_000_000);
    let d2 = floor_sqrt(d1 * 10_000_000);
    let d3 = floor_sqrt(d2 * 10_000_000);
    let e = floor_root5(w * 100_000_000_000_000_000_000_000_000_000_000_000);
    let e1 = floor_sqrt(e * 10_000_000);
    let e2 = floor_sqrt(e1 * 10_000_000);
    let q1 = d2 * d3 / 10_000_000;
    q1 * e2 / 10_000_000
}

/// The body surface area `0.007 * height^0.725 * weight^0.425` at seven
/// fractional digits.
pub open spec fn spec_bsa_scaled(h: int, w: int) -> int {
    spec_pow_height(h) * spec_pow_weight(w) / 10_000_000 * 7 / 1000
}

fn pow_height_exec(h: u64) -> (r: u128)
    requires
        h <= 999,
    ensures
        r as int == spec_pow_height(h as int),
        r < 100_000_000_000,
{
    let hu: u128 = h as u128;
    let a: u128 = isqrt(hu * 100_000_000_000_000);
    proof {
        lemma_sqrt_bound((hu * 100_000_000_000_000) as int, a as int, 1_000_000_000);
    }
    let b: u128 = iroot5(hu * 100_000_000_000_000_000_000_000_000_000_000_000);
    proof {
        lemma_root5_bound(
            (hu * 100_000_000_000_000_000_000_000_000_000_000_000) as int,
            b as int,
            100_000_000,
        );
    }
    let c1: u128 = isqrt(b * 10_000_000);
    proof {
        lemma_sqrt_bound((b * 10_000_000) as int, c1 as int, 100_000_000);
    }
    let c2: u128 = isqrt(c1 * 10_000_000);
    proof {
        lemma_sqrt_bound((c1 * 10_000_000) as int, c2 as int, 100_000_000);
    }
    let c3: u128 = isqrt(c2 * 10_000_000);
    proof {
        lemma_sqrt_bound((c2 * 10_000_000) as int, c3 as int, 100_000_000);
        assert(a * b < 100_000_000_000_000_000) by (nonlinear_arith)
            requires
                a < 1_000_000_000,
                b < 100_000_000,
        ;
    }
    let p1: u128 = a * b / 10_000_000;
    proof {
        assert(p1 * c3 < 1_000_000_000_000_000_000) by (nonlinear_arith)
            requires
                p1 < 10_000_000_000,
                c3 < 100_000_000,
        ;
    }
    let p2: u128 = p1 * c3 / 10_000_000;
    p2
}

fn pow_weight_exec(w: u64) -> (r: u128)
    requires
        w <= 999,
    ensures
        r as int == spec_pow_weight(w as int),
        r < 100_000_000_000,
{
    let wu: u128 = w as u128;
    let d1: u128 = isqrt(wu * 100_000_000_000_000);
    proof {
        lemma_sqrt_bound((wu * 100_000_000_000_000) as int, d1 as int, 1_000_000_000);
    }
    let d2: u128 = isqrt(d1 * 10_000_000);
    proof {
        lemma_sqrt_bound((d1 * 10_000_000) as int, d2 as int, 100_000_000);
    }
    let d3: u128 = isqrt(d2 * 10_000_000);
    proof {
        lemma_sqrt_bound((d2 * 10_000_000) as int, d3 as int, 100_000_000);
    }
    let e: u128 = iroot5(wu * 100_000_000_000_000_000_000_000_000_000_000_000);
    proof {
        lemma_root5_bound(
            (wu * 100_000_000_000_000_000_000_000_000_000_000_000) as int,
            e as int,
            100_000_000,
        );
    }
    let e1: u128 = isqrt(e * 10_000_000);
    proof {
        lemma_sqrt_bound((e * 10_000_000) as int, e1 as int, 100_000_000);
    }
    let e2: u128 = isqrt(e1 * 10_000_000);
    proof {
        lemma_sqrt_bound((e1 * 10_000_000) as int, e2 as int, 100_000_000);
        assert(d2 * d3 < 10_000_000_000_000_000) by (nonlinear_arith)
            requires
                d2 < 100_000_000,
                d3 < 100_000_000,
        ;
    }
    let q1: u128 = d2 * d3 / 10_000_000;
    proof {
        assert(q1 * e2 < 100_000_000_000_000_000) by (nonlinear_arith)
            requires
                q1 < 1_000_000_000,
                e2 < 100_000_000,
        ;
    }
    let q2: u128 = q1 * e2 / 10_000_000;
    q2
}

/// The body surface area `0.007 * h^0.725 * w^0.425` as a mantissa at
/// seven fractional digits, computed entirely in 128-bit integers.
pub fn bsa_scaled(h: u64, w: u64) -> (r: u128)
    requires
        h <= 999,
        w <= 999,
    ensures
        r as int == spec_bsa_scaled(h as int, w as int),
        r < 10_000_000_000_000_000,
{
    let ph: u128 = pow_height_exec(h);
    let pw: u128 = pow_weight_exec(w);
    proof {
        assert(ph * pw < 10_000_000_000_000_000_000_000) by (nonlinear_arith)
            requires
                ph < 100_000_000_000,
                pw < 100_000_000_000,
        ;
    }
    let t: u128 = ph * pw / 10_000_000;
    t * 7 / 1000
}

} // verus!
