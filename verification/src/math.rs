//! Integer square root: `floor(sqrt(n))` for `u128`, computed digit by digit
//! in base 4 so that no floating point and no overflow is involved.

use vstd::prelude::*;

use vstd::arithmetic::div_mod::lemma_div_by_multiple;
use vstd::arithmetic::power2::{
    lemma2_to64, lemma2_to64_rest, lemma_pow2_adds, lemma_pow2_pos, lemma_pow2_strictly_increases,
    pow2,
};
use vstd::bits::lemma_u128_shr_is_div;

verus! {

/// `r` is the integer square root of `n`.
pub open spec fn is_isqrt(n: int, r: int) -> bool {
    0 <= r && r * r <= n && n < (r + 1) * (r + 1)
}

/// The integer square root of `n`, as a mathematical function.
pub open spec fn isqrt(n: int) -> int
    recommends
        n >= 0,
{
    choose|r: int| is_isqrt(n, r)
}

/// Every nonnegative integer has an integer square root, and `isqrt` is it.
pub proof fn lemma_isqrt_exists(n: int)
    requires
        n >= 0,
    ensures
        is_isqrt(n, isqrt(n)),
    decreases n,
{
    if n == 0 {
        assert(is_isqrt(0, 0));
    } else {
        lemma_isqrt_exists(n - 1);
        let r0 = isqrt(n - 1);
        if n < (r0 + 1) * (r0 + 1) {
            assert(is_isqrt(n, r0));
        } else {
            assert(n == (r0 + 1) * (r0 + 1));
            assert((r0 + 1) * (r0 + 1) < (r0 + 2) * (r0 + 2)) by (nonlinear_arith)
                requires
                    r0 >= 0,
            ;
            assert(is_isqrt(n, r0 + 1));
        }
    }
}

/// The integer square root is unique: any `r` satisfying the bracketing
/// property equals `isqrt(n)`.
pub proof fn lemma_isqrt_unique(n: int, r: int)
    requires
        n >= 0,
        is_isqrt(n, r),
    ensures
        r == isqrt(n),
{
    lemma_isqrt_exists(n);
    let r2 = isqrt(n);
    if r < r2 {
        assert((r + 1) * (r + 1) <= r2 * r2) by (nonlinear_arith)
            requires
                0 <= r,
                0 <= r2,
                r < r2,
        ;
    }
    if r2 < r {
        assert((r2 + 1) * (r2 + 1) <= r * r) by (nonlinear_arith)
            requires
                0 <= r,
                0 <= r2,
                r2 < r,
        ;
    }
}

/// Any `r` whose square does not exceed `n` bounds `isqrt(n)` from below.
pub proof fn lemma_isqrt_lower(n: int, r: int)
    requires
        0 <= r,
        r * r <= n,
    ensures
        isqrt(n) >= r,
{
    lemma_isqrt_exists(n);
    let q = isqrt(n);
    if q < r {
        assert((q + 1) * (q + 1) <= r * r) by (nonlinear_arith)
            requires
                0 <= q,
                0 <= r,
                q < r,
        ;
    }
}

/// Any `b` with `n < (b + 1)^2` bounds `isqrt(n)` from above.
pub proof fn lemma_isqrt_upper(n: int, b: int)
    requires
        0 <= n,
        0 <= b,
        n < (b + 1) * (b + 1),
    ensures
        isqrt(n) <= b,
{
    lemma_isqrt_exists(n);
    let q = isqrt(n);
    if q > b {
        assert((b + 1) * (b + 1) <= q * q) by (nonlinear_arith)
            requires
                0 <= q,
                0 <= b,
                b < q,
        ;
    }
}

/// `floor(sqrt(radicand))`, by the base-4 digit-by-digit method: the largest
/// power of 4 not exceeding the radicand is found, then each candidate root
/// bit is tested against the working remainder from the highest down.
pub fn sqrt(radicand: u128) -> (r: u128)
    ensures
        is_isqrt(radicand as int, r as int),
        r as int == isqrt(radicand as int),
{
    if radicand == 0 {
        proof {
            lemma_isqrt_unique(0, 0);
        }
        return 0;
    }
    // 2^126, the largest power of 4 that fits in a u128.
    let mut bit: u128 = 0x4000_0000_0000_0000_0000_0000_0000_0000u128;
    let ghost mut k: int = 63;
    proof {
        lemma2_to64();
        lemma2_to64_rest();
        lemma_pow2_adds(63, 63);
        assert(bit == pow2(126));
    }
    while bit > radicand
        invariant
            1 <= radicand,
            0 <= k <= 63,
            bit == pow2((2 * k) as nat),
            radicand < 4 * bit,
        decreases k,
    {
        proof {
            lemma2_to64();
            if k == 0 {
                // pow2(0) == 1 would contradict bit > radicand >= 1.
                assert(false);
            }
            lemma_u128_shr_is_div(bit, 2);
            lemma_pow2_adds((2 * k - 2) as nat, 2);
            lemma_pow2_pos((2 * k - 2) as nat);
            lemma_div_by_multiple(pow2((2 * k - 2) as nat) as int, 4);
        }
        bit = bit >> 2;
        proof {
            k = k - 1;
        }
    }
    // Now bit = 4^k <= radicand < 4^(k+1).
    let mut n: u128 = radicand;
    let mut result: u128 = 0;
    let ghost mut p: int = 0;
    let ghost mut m: int = pow2(k as nat) as int;
    proof {
        lemma2_to64();
        lemma_pow2_adds(k as nat, k as nat);
        assert(bit == m * m);
        lemma_pow2_adds(k as nat, 1);
        assert(2 * m == pow2((k + 1) as nat));
        if k < 63 {
            lemma_pow2_strictly_increases((k + 1) as nat, 64);
        }
        assert(p + 2 * m <= pow2(64));
        assert(radicand < (p + 2 * m) * (p + 2 * m)) by (nonlinear_arith)
            requires
                radicand < 4 * bit,
                bit == m * m,
                p == 0,
        ;
    }
    while bit != 0
        invariant
            -1 <= k <= 63,
            bit == if k >= 0 {
                pow2((2 * k) as nat) as int
            } else {
                0
            },
            0 <= p,
            p * p <= radicand,
            n == radicand - p * p,
            k >= 0 ==> {
                &&& m == pow2(k as nat)
                &&& result == 2 * p * m
                &&& radicand < (p + 2 * m) * (p + 2 * m)
                &&& p + 2 * m <= pow2(64)
            },
            k < 0 ==> {
                &&& result == p
                &&& radicand < (p + 1) * (p + 1)
            },
        decreases k + 1,
    {
        proof {
            lemma2_to64();
            if k < 0 {
                assert(false);
            }
            lemma_pow2_pos(k as nat);
            lemma_pow2_adds(k as nat, k as nat);
            assert(bit == m * m);
            // result + bit fits in a u128: with C = 2^64 and p + 2m <= C,
            // 2pm + m^2 <= 2mC - 3m^2 <= C^2 / 3.
            assert(2 * p * m + m * m < 0x1_0000_0000_0000_0000_0000_0000_0000_0000int)
                by (nonlinear_arith)
                requires
                    0 <= p,
                    1 <= m,
                    p + 2 * m <= 0x1_0000_0000_0000_0000int,
            ;
        }
        let result_with_bit = result + bit;
        let half = result >> 1;
        proof {
            lemma2_to64();
            lemma_u128_shr_is_div(result, 1);
            lemma_div_by_multiple(p * m, 2);
            assert(result == (p * m) * 2) by (nonlinear_arith)
                requires
                    result == 2 * p * m,
            ;
            assert(half == p * m);
        }
        if n >= result_with_bit {
            n = n - result_with_bit;
            result = half + bit;
            proof {
                let p2 = p + m;
                assert(radicand - p2 * p2 == n && p2 * p2 <= radicand && result == p2 * m)
                    by (nonlinear_arith)
                    requires
                        p2 == p + m,
                        n == (radicand - p * p) - (2 * p * m + m * m),
                        radicand - p * p >= 2 * p * m + m * m,
                        result == p * m + m * m,
                ;
                assert(radicand < (p2 + m) * (p2 + m)) by (nonlinear_arith)
                    requires
                        p2 == p + m,
                        radicand < (p + 2 * m) * (p + 2 * m),
                ;
                p = p2;
            }
        } else {
            result = half;
            proof {
                assert(radicand < (p + m) * (p + m)) by (nonlinear_arith)
                    requires
                        radicand - p * p < 2 * p * m + m * m,
                        n == radicand - p * p,
                        n < 2 * p * m + m * m,
                ;
            }
        }
        proof {
            lemma2_to64();
            lemma_u128_shr_is_div(bit, 2);
        }
        bit = bit >> 2;
        proof {
            if k == 0 {
                assert(m == 1);
                assert(bit == 0);
                // With m == 1 both branches leave result == p, and the bound
                // established in the branch closes the exit case.
            } else {
                lemma_pow2_adds((2 * k - 2) as nat, 2);
                lemma_pow2_pos((2 * k - 2) as nat);
                lemma_div_by_multiple(pow2((2 * k - 2) as nat) as int, 4);
                assert(bit == pow2((2 * k - 2) as nat));
                lemma_pow2_adds((k - 1) as nat, 1);
                lemma_pow2_pos((k - 1) as nat);
                let m2 = pow2((k - 1) as nat) as int;
                assert(m == 2 * m2);
                assert(result == 2 * p * m2) by (nonlinear_arith)
                    requires
                        m == 2 * m2,
                        result == p * m,
                ;
                assert(radicand < (p + 2 * m2) * (p + 2 * m2));
                m = m2;
            }
            k = k - 1;
        }
    }
    proof {
        if k >= 0 {
            lemma_pow2_pos((2 * k) as nat);
        }
        lemma_isqrt_unique(radicand as int, result as int);
    }
    result
}

} // verus!
