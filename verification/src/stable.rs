//! The stable curve: a wide near-parity trading band around a 1:1 price,
//! parameterized by an amplification coefficient `A`.
//!
//! With reserves `x`, `y` and `S = x + y`, the curve's invariant `D` is the
//! positive root of
//!
//! ```text
//! P(v) = v^3 + 4xy(4A - 1)v - 16Axy·S
//! ```
//!
//! and the destination reserve after paying `dx` into the source side is the
//! positive root of the quadratic
//!
//! ```text
//! Q(v) = 16Ax'v^2 + (4x'D + 16Ax'^2 - 16Ax'D)v - D^3,    x' = x + dx
//! ```
//!
//! both obtained by clearing denominators from the usual form
//! `4A·S + D = 4A·D + D^3/(4xy)`.  The solver iterates Newton's method on
//! the rational fixed-point forms — seeding the destination solve above its
//! root with the integer square root of the quadratic's constant term — and
//! *checks* the candidate: a result is returned only when the integer
//! bracketing `P(d) <= 0 < P(d+1)` (resp. `Q(y') <= 0 < Q(y'+1)`) has been
//! verified on the spot.  Where the fast path misses, a bisection between
//! verified sign changes finds the bracket, so on reserves and amounts up to
//! `2^24` the solve provably succeeds; every arithmetic overflow fails the
//! computation instead of wrapping.

use vstd::prelude::*;

use vstd::arithmetic::div_mod::{
    lemma_fundamental_div_mod, lemma_mod_division_less_than_divisor,
};
use vstd::bytes::{spec_u64_from_le_bytes, spec_u64_to_le_bytes};

use crate::calculator::{SwapWithoutFeesResult, TradeDirection};
use crate::codec::{read_u64_le, write_u64_le, write_zeros, zero_bytes};
use crate::error::SwapError;
use crate::math::sqrt;

verus! {

/// Smallest accepted amplification coefficient.
pub const MIN_AMP: u64 = 1;

/// Largest accepted amplification coefficient.
pub const MAX_AMP: u64 = 1_000_000;

/// Largest reserve or trade amount on which the solver promises to succeed;
/// beyond it, a swap may fail on overflow of the 128-bit certificates.
pub const SOLVER_AMOUNT_BOUND: u128 = 0x100_0000;

/// The stable curve: its amplification coefficient.
#[derive(Clone, Copy, Debug, PartialEq, Eq, Structural)]
pub struct StableCurve {
    /// Amplification coefficient `A`.
    pub amp: u64,
}

/// The increasing side of the invariant polynomial: `P(v) + 16Axy·S`.
pub open spec fn spec_d_lhs(amp: int, x: int, y: int, v: int) -> int {
    v * v * v + x * y * 4 * (4 * amp - 1) * v
}

/// The constant side of the invariant polynomial: `16Axy·S`.
pub open spec fn spec_d_rhs(amp: int, x: int, y: int) -> int {
    x * y * 4 * amp * 4 * (x + y)
}

/// `d` is the integer invariant for reserves `x`, `y`: the real root of
/// `P` lies in `[d, d + 1)`.
pub open spec fn spec_stable_d_ok(amp: int, x: int, y: int, d: int) -> bool {
    &&& 0 <= d
    &&& spec_d_lhs(amp, x, y, d) <= spec_d_rhs(amp, x, y)
    &&& spec_d_rhs(amp, x, y) < spec_d_lhs(amp, x, y, d + 1)
}

/// The growing side of the destination polynomial `Q`.
pub open spec fn spec_y_lhs(amp: int, x: int, d: int, v: int) -> int {
    x * amp * 16 * v * v + x * d * 4 * v + x * amp * 16 * x * v
}

/// The shrinking side of the destination polynomial `Q`.
pub open spec fn spec_y_rhs(amp: int, x: int, d: int, v: int) -> int {
    x * amp * 16 * d * v + d * d * d
}

/// `yn` is the integer destination reserve for invariant `d` and source
/// reserve `x`: the positive real root of `Q` lies in `[yn, yn + 1)`.
pub open spec fn spec_stable_y_ok(amp: int, x: int, d: int, yn: int) -> bool {
    &&& 0 <= yn
    &&& spec_y_lhs(amp, x, d, yn) <= spec_y_rhs(amp, x, d, yn)
    &&& spec_y_rhs(amp, x, d, yn + 1) < spec_y_lhs(amp, x, d, yn + 1)
}

/// `P` starts below zero at 1 and is above zero at `x + y + 1`: the two
/// ends a bisection for the invariant starts from.
proof fn lemma_d_bracket_ends(a: int, x: int, y: int)
    requires
        1 <= a,
        1 <= x,
        1 <= y,
    ensures
        spec_d_lhs(a, x, y, 1) <= spec_d_rhs(a, x, y),
        spec_d_rhs(a, x, y) < spec_d_lhs(a, x, y, x + y + 1),
{
    let s = x + y;
    assert(spec_d_lhs(a, x, y, 1) <= spec_d_rhs(a, x, y)) by (nonlinear_arith)
        requires
            1 <= a,
            1 <= x,
            1 <= y,
            s == x + y,
    ;
    // P(S) = S(S^2 - 4xy) >= 0 by the arithmetic-geometric inequality, and
    // P is strictly larger at S + 1.
    assert((x + y) * (x + y) >= 4 * x * y) by (nonlinear_arith);
    assert(spec_d_rhs(a, x, y) < spec_d_lhs(a, x, y, s + 1)) by (nonlinear_arith)
        requires
            1 <= a,
            1 <= x,
            1 <= y,
            s == x + y,
            (x + y) * (x + y) >= 4 * x * y,
    ;
}

/// The increasing side of `P` is monotone in `v`.
proof fn lemma_d_lhs_mono(a: int, x: int, y: int, v1: int, v2: int)
    requires
        1 <= a,
        0 <= x,
        0 <= y,
        0 <= v1 <= v2,
    ensures
        spec_d_lhs(a, x, y, v1) <= spec_d_lhs(a, x, y, v2),
{
    assert(spec_d_lhs(a, x, y, v1) <= spec_d_lhs(a, x, y, v2)) by (nonlinear_arith)
        requires
            1 <= a,
            0 <= x,
            0 <= y,
            0 <= v1 <= v2,
    ;
}

/// Both sides of `Q` are monotone in `v`.
proof fn lemma_y_mono(a: int, x: int, d: int, v1: int, v2: int)
    requires
        1 <= a,
        0 <= x,
        0 <= d,
        0 <= v1 <= v2,
    ensures
        spec_y_lhs(a, x, d, v1) <= spec_y_lhs(a, x, d, v2),
        spec_y_rhs(a, x, d, v1) <= spec_y_rhs(a, x, d, v2),
{
    assert(spec_y_lhs(a, x, d, v1) <= spec_y_lhs(a, x, d, v2) && spec_y_rhs(a, x, d, v1)
        <= spec_y_rhs(a, x, d, v2)) by (nonlinear_arith)
        requires
            1 <= a,
            0 <= x,
            0 <= d,
            0 <= v1 <= v2,
    ;
}

/// `Q` is positive at `d + r + 1` whenever `16Ax(r + 1)^2` exceeds `d^3`:
/// the upper end a bisection for the destination reserve starts from.
proof fn lemma_y_upper_end(a: int, x: int, d: int, r: int)
    requires
        1 <= a,
        1 <= x,
        0 <= d,
        0 <= r,
        d * d * d < x * a * 16 * (r + 1) * (r + 1),
    ensures
        spec_y_rhs(a, x, d, d + r + 1) < spec_y_lhs(a, x, d, d + r + 1),
{
    let v = d + r + 1;
    assert(spec_y_rhs(a, x, d, v) < spec_y_lhs(a, x, d, v)) by (nonlinear_arith)
        requires
            1 <= a,
            1 <= x,
            0 <= d,
            0 <= r,
            v == d + r + 1,
            d * d * d < x * a * 16 * (r + 1) * (r + 1),
    ;
}

/// Whether `P(v) <= 0`, evaluated exactly in checked 128-bit arithmetic.
/// `None` only when an intermediate product overflows, which cannot happen
/// while both sides of `P` at `v` fit in a `u128`.
fn d_below(amp: u128, x: u128, y: u128, s: u128, v: u128) -> (r: Option<bool>)
    requires
        1 <= amp <= u64::MAX,
        s == x + y,
    ensures
        r matches Some(b) ==> (b <==> spec_d_lhs(amp as int, x as int, y as int, v as int)
            <= spec_d_rhs(amp as int, x as int, y as int)),
        (1 <= x && 1 <= y && 1 <= v && spec_d_lhs(amp as int, x as int, y as int, v as int)
            <= u128::MAX && spec_d_rhs(amp as int, x as int, y as int) <= u128::MAX) ==> r is Some,
{
    proof {
        let a = amp as int;
        let xi = x as int;
        let yi = y as int;
        let vi = v as int;
        // Every partial product in the evaluation below is bounded by the
        // side of `P` it contributes to, because each remaining factor is
        // at least one.
        assert((1 <= xi && 1 <= yi && 1 <= vi) ==> {
            &&& xi * yi <= spec_d_lhs(a, xi, yi, vi)
            &&& xi * yi * 4 <= spec_d_lhs(a, xi, yi, vi)
            &&& vi * vi <= spec_d_lhs(a, xi, yi, vi)
            &&& vi * vi * vi <= spec_d_lhs(a, xi, yi, vi)
            &&& xi * yi * 4 * (4 * a - 1) <= spec_d_lhs(a, xi, yi, vi)
            &&& xi * yi * 4 * (4 * a - 1) * vi <= spec_d_lhs(a, xi, yi, vi)
            &&& xi * yi * 4 * a <= spec_d_rhs(a, xi, yi)
            &&& xi * yi * 4 * a * 4 <= spec_d_rhs(a, xi, yi)
        }) by (nonlinear_arith)
            requires
                1 <= a,
        ;
    }
    let xy4 = x.checked_mul(y)?.checked_mul(4)?;
    let coef = 4 * amp - 1;
    let v3 = v.checked_mul(v)?.checked_mul(v)?;
    let t = xy4.checked_mul(coef)?.checked_mul(v)?;
    let lhs = v3.checked_add(t)?;
    let rhs = xy4.checked_mul(amp)?.checked_mul(4)?.checked_mul(s)?;
    Some(lhs <= rhs)
}

/// Whether `Q(v) <= 0`, evaluated exactly in checked 128-bit arithmetic.
/// `None` only when an intermediate product overflows, which cannot happen
/// while both sides of `Q` at `v` fit in a `u128`.
fn q_below(amp: u128, x: u128, d: u128, v: u128) -> (r: Option<bool>)
    requires
        1 <= amp <= u64::MAX,
    ensures
        r matches Some(b) ==> (b <==> spec_y_lhs(amp as int, x as int, d as int, v as int)
            <= spec_y_rhs(amp as int, x as int, d as int, v as int)),
        (1 <= x && 1 <= v && spec_y_lhs(amp as int, x as int, d as int, v as int) <= u128::MAX
            && spec_y_rhs(amp as int, x as int, d as int, v as int) <= u128::MAX) ==> r is Some,
{
    proof {
        let a = amp as int;
        let xi = x as int;
        let di = d as int;
        let vi = v as int;
        assert((1 <= xi && 1 <= vi) ==> {
            &&& xi * a <= spec_y_lhs(a, xi, di, vi)
            &&& xi * a * 16 <= spec_y_lhs(a, xi, di, vi)
            &&& xi * a * 16 * vi <= spec_y_lhs(a, xi, di, vi)
            &&& xi * a * 16 * vi * vi <= spec_y_lhs(a, xi, di, vi)
            &&& xi * di <= spec_y_lhs(a, xi, di, vi)
            &&& xi * di * 4 <= spec_y_lhs(a, xi, di, vi)
            &&& xi * di * 4 * vi <= spec_y_lhs(a, xi, di, vi)
            &&& xi * a * 16 * xi <= spec_y_lhs(a, xi, di, vi)
            &&& xi * a * 16 * xi * vi <= spec_y_lhs(a, xi, di, vi)
            &&& xi * a * 16 * di <= spec_y_rhs(a, xi, di, vi)
            &&& xi * a * 16 * di * vi <= spec_y_rhs(a, xi, di, vi)
            &&& di * di <= spec_y_rhs(a, xi, di, vi)
            &&& di * di * di <= spec_y_rhs(a, xi, di, vi)
        }) by (nonlinear_arith)
            requires
                1 <= a,
                0 <= di,
        ;
    }
    let a16 = x.checked_mul(amp)?.checked_mul(16)?;
    let l1 = a16.checked_mul(v)?.checked_mul(v)?;
    let l2 = x.checked_mul(d)?.checked_mul(4)?.checked_mul(v)?;
    let l3 = a16.checked_mul(x)?.checked_mul(v)?;
    let lhs = l1.checked_add(l2)?.checked_add(l3)?;
    let r1 = a16.checked_mul(d)?.checked_mul(v)?;
    let d3 = d.checked_mul(d)?.checked_mul(d)?;
    let rhs = r1.checked_add(d3)?;
    Some(lhs <= rhs)
}

/// The Newton fast path for the invariant: the usual update
/// `d' = (4A·S + 2·d_p)·d / ((4A - 1)·d + 3·d_p)` with `d_p = d^3 / (4xy)`,
/// run a fixed number of times from `S`.  Heuristic only: whatever comes
/// back is checked by the caller, and an overflowing or degenerate step
/// just stops the refinement.
fn newton_d(amp4: u128, s: u128, xy4: u128) -> (r: u128)
    requires
        4 <= amp4,
{
    let mut d = s;
    let mut i: u32 = 0;
    while i < 32
        invariant
            4 <= amp4,
        decreases 32 - i,
    {
        let d3 = match d.checked_mul(d) {
            Some(t) => match t.checked_mul(d) {
                Some(u) => u,
                None => {
                    return d;
                },
            },
            None => {
                return d;
            },
        };
        let d_p = match d3.checked_div(xy4) {
            Some(t) => t,
            None => {
                return d;
            },
        };
        let num = match amp4.checked_mul(s) {
            Some(t) => match d_p.checked_mul(2) {
                Some(u) => match t.checked_add(u) {
                    Some(w) => match w.checked_mul(d) {
                        Some(z) => z,
                        None => {
                            return d;
                        },
                    },
                    None => {
                        return d;
                    },
                },
                None => {
                    return d;
                },
            },
            None => {
                return d;
            },
        };
        let den = match (amp4 - 1).checked_mul(d) {
            Some(t) => match d_p.checked_mul(3) {
                Some(u) => match t.checked_add(u) {
                    Some(w) => w,
                    None => {
                        return d;
                    },
                },
                None => {
                    return d;
                },
            },
            None => {
                return d;
            },
        };
        if den == 0 {
            return d;
        }
        d = num / den;
        i = i + 1;
    }
    d
}

/// The Newton fast path for the destination reserve: the update
/// `y' = (y^2 + c) / (2y + b - d)`, run a fixed number of times from a seed
/// above the root.  Heuristic only, like `newton_d`.
fn newton_y(c: u128, b: u128, d: u128, seed: u128) -> (r: u128) {
    let mut yv = seed;
    let mut i: u32 = 0;
    while i < 64
        invariant
            true,
        decreases 64 - i,
    {
        let num = match yv.checked_mul(yv) {
            Some(t) => match t.checked_add(c) {
                Some(u) => u,
                None => {
                    return yv;
                },
            },
            None => {
                return yv;
            },
        };
        let den = match yv.checked_mul(2) {
            Some(t) => match t.checked_add(b) {
                Some(u) => match u.checked_sub(d) {
                    Some(w) => w,
                    None => {
                        return yv;
                    },
                },
                None => {
                    return yv;
                },
            },
            None => {
                return yv;
            },
        };
        if den == 0 {
            return yv;
        }
        yv = num / den;
        i = i + 1;
    }
    yv
}

/// Bisection for the invariant between the verified sign changes at `1` and
/// `s + 1`.  Succeeds whenever both sides of `P` at `s + 1` fit in a
/// `u128`.
fn bisect_d(amp: u128, x: u128, y: u128, s: u128) -> (r: Option<u128>)
    requires
        1 <= amp <= u64::MAX,
        1 <= x,
        1 <= y,
        s == x + y,
        s < u128::MAX,
    ensures
        r matches Some(d) ==> spec_stable_d_ok(amp as int, x as int, y as int, d as int),
        (spec_d_lhs(amp as int, x as int, y as int, s as int + 1) <= u128::MAX && spec_d_rhs(
            amp as int,
            x as int,
            y as int,
        ) <= u128::MAX) ==> r is Some,
{
    proof {
        lemma_d_bracket_ends(amp as int, x as int, y as int);
    }
    let mut lo: u128 = 1;
    let mut hi: u128 = s + 1;
    while lo + 1 < hi
        invariant
            1 <= amp <= u64::MAX,
            1 <= x,
            1 <= y,
            s == x + y,
            s < u128::MAX,
            1 <= lo < hi <= s + 1,
            spec_d_lhs(amp as int, x as int, y as int, lo as int) <= spec_d_rhs(
                amp as int,
                x as int,
                y as int,
            ),
            spec_d_rhs(amp as int, x as int, y as int) < spec_d_lhs(
                amp as int,
                x as int,
                y as int,
                hi as int,
            ),
        decreases hi - lo,
    {
        let mid = lo + (hi - lo) / 2;
        match d_below(amp, x, y, s, mid) {
            Some(true) => {
                lo = mid;
            },
            Some(false) => {
                hi = mid;
            },
            None => {
                proof {
                    lemma_d_lhs_mono(amp as int, x as int, y as int, mid as int, s as int + 1);
                }
                return None;
            },
        }
    }
    Some(lo)
}

/// Bisection for the destination reserve between the verified sign changes
/// at `0` and `hi0`.  Succeeds whenever both sides of `Q` at `hi0` fit in a
/// `u128`.
fn bisect_y(amp: u128, x: u128, d: u128, hi0: u128) -> (r: Option<u128>)
    requires
        1 <= amp <= u64::MAX,
        1 <= x,
        1 <= hi0,
        spec_y_rhs(amp as int, x as int, d as int, hi0 as int) < spec_y_lhs(
            amp as int,
            x as int,
            d as int,
            hi0 as int,
        ),
    ensures
        r matches Some(yn) ==> spec_stable_y_ok(amp as int, x as int, d as int, yn as int),
        (spec_y_lhs(amp as int, x as int, d as int, hi0 as int) <= u128::MAX && spec_y_rhs(
            amp as int,
            x as int,
            d as int,
            hi0 as int,
        ) <= u128::MAX) ==> r is Some,
{
    proof {
        // Q(0) <= 0: its growing side vanishes while d^3 is nonnegative.
        assert(spec_y_lhs(amp as int, x as int, d as int, 0) <= spec_y_rhs(
            amp as int,
            x as int,
            d as int,
            0,
        )) by (nonlinear_arith)
            requires
                0 <= d as int,
        ;
    }
    let mut lo: u128 = 0;
    let mut hi: u128 = hi0;
    while lo + 1 < hi
        invariant
            1 <= amp <= u64::MAX,
            1 <= x,
            lo < hi <= hi0,
            spec_y_lhs(amp as int, x as int, d as int, lo as int) <= spec_y_rhs(
                amp as int,
                x as int,
                d as int,
                lo as int,
            ),
            spec_y_rhs(amp as int, x as int, d as int, hi as int) < spec_y_lhs(
                amp as int,
                x as int,
                d as int,
                hi as int,
            ),
        decreases hi - lo,
    {
        let mid = lo + (hi - lo) / 2;
        match q_below(amp, x, d, mid) {
            Some(true) => {
                lo = mid;
            },
            Some(false) => {
                hi = mid;
            },
            None => {
                proof {
                    lemma_y_mono(amp as int, x as int, d as int, mid as int, hi0 as int);
                }
                return None;
            },
        }
    }
    Some(lo)
}

/// Solves `P(d) <= 0 < P(d + 1)` for the invariant: the Newton fast path,
/// a bracket check around its value, and bisection where the check misses.
/// Succeeds on every input whose certificate arithmetic fits in a `u128`.
fn compute_d(amp: u128, x: u128, y: u128) -> (r: Option<u128>)
    requires
        1 <= amp <= u64::MAX,
    ensures
        r matches Some(d) ==> spec_stable_d_ok(amp as int, x as int, y as int, d as int),
        (1 <= x && 1 <= y && spec_d_lhs(amp as int, x as int, y as int, x as int + y as int + 1)
            <= u128::MAX && spec_d_rhs(amp as int, x as int, y as int) <= u128::MAX) ==> r is Some,
{
    if x == 0 || y == 0 {
        return None;
    }
    proof {
        assert((x as int + y as int > u128::MAX || x as int + y as int == u128::MAX) ==> spec_d_rhs(
            amp as int,
            x as int,
            y as int,
        ) > u128::MAX) by (nonlinear_arith)
            requires
                1 <= amp as int,
                1 <= x as int,
                1 <= y as int,
        ;
    }
    let s = x.checked_add(y)?;
    if s == u128::MAX {
        return None;
    }
    let guess = match x.checked_mul(y) {
        Some(xy) => match xy.checked_mul(4) {
            Some(xy4) => newton_d(4 * amp, s, xy4),
            None => s,
        },
        None => s,
    };
    let mut cand = if guess >= 2 {
        guess - 2
    } else {
        0
    };
    let mut j: u32 = 0;
    while j < 5
        invariant
            1 <= amp <= u64::MAX,
            1 <= x,
            1 <= y,
            s == x + y,
            s < u128::MAX,
        decreases 5 - j,
    {
        if cand >= 1 && cand < u128::MAX {
            match d_below(amp, x, y, s, cand) {
                Some(true) => {
                    match d_below(amp, x, y, s, cand + 1) {
                        Some(false) => {
                            return Some(cand);
                        },
                        _ => {},
                    }
                },
                _ => {},
            }
        }
        cand = if cand < u128::MAX {
            cand + 1
        } else {
            cand
        };
        j = j + 1;
    }
    bisect_d(amp, x, y, s)
}

/// Solves `Q(yn) <= 0 < Q(yn + 1)` for the destination reserve, in the same
/// fast-path-then-bisection shape as `compute_d`; the Newton seed and the
/// bisection's upper end are `d + isqrt(c) + 1` with `c = d^3 / (16Ax)`,
/// which lies above the positive root.  Succeeds on every `x` and `d` up
/// to twice the solver bound.
fn compute_y(amp: u128, x: u128, d: u128) -> (r: Option<u128>)
    requires
        1 <= amp <= u64::MAX,
    ensures
        r matches Some(yn) ==> spec_stable_y_ok(amp as int, x as int, d as int, yn as int),
        (amp <= MAX_AMP as u128 && 1 <= x <= 2 * SOLVER_AMOUNT_BOUND && d <= 2
            * SOLVER_AMOUNT_BOUND) ==> r is Some,
{
    if x == 0 {
        return None;
    }
    proof {
        // Under the promised bounds every product leading to the bisection
        // ends fits comfortably in a u128.
        assert((amp as int <= 0x100000 && x as int <= 0x2_000_000 && d as int <= 0x2_000_000)
            ==> {
            &&& x as int * amp as int <= u128::MAX
            &&& x as int * amp as int * 16 <= u128::MAX
            &&& d as int * d as int <= u128::MAX
            &&& d as int * d as int * d as int <= u128::MAX
        }) by (nonlinear_arith);
    }
    let a16 = x.checked_mul(amp)?.checked_mul(16)?;
    proof {
        assert(a16 as int >= 16) by (nonlinear_arith)
            requires
                a16 as int == x as int * amp as int * 16,
                1 <= x as int,
                1 <= amp as int,
        ;
    }
    let d3 = d.checked_mul(d)?.checked_mul(d)?;
    let c = d3 / a16;
    let b = x.checked_add(d / (4 * amp))?;
    let root = sqrt(c);
    proof {
        vstd::arithmetic::div_mod::lemma_div_nonincreasing(d3 as int, a16 as int);
        assert(c <= d3);
        // root <= 2^38 under the promised bounds: c <= d^3 <= 2^75.
        if d <= 0x2_000_000 {
            assert(d as int * d as int <= 0x4_0000_0000_0000) by (nonlinear_arith)
                requires
                    0 <= d as int,
                    d as int <= 0x2_000_000,
            ;
            assert(d3 as int == d as int * d as int * d as int);
            assert(0 <= d as int * d as int) by (nonlinear_arith)
                requires
                    0 <= d as int,
            ;
            vstd::arithmetic::mul::lemma_mul_upper_bound(
                d as int * d as int,
                0x4_0000_0000_0000,
                d as int,
                0x2_000_000,
            );
            assert(d3 <= 0x8000_0000_0000_0000_0000u128);
            assert((0x40_0000_0000int + 1) * (0x40_0000_0000int + 1)
                == 0x1000_0000_0080_0000_0001int);
            crate::math::lemma_isqrt_upper(c as int, 0x40_0000_0000);
            assert(root <= 0x40_0000_0000u128);
        }
    }
    let hi0 = d.checked_add(root)?.checked_add(1)?;
    proof {
        // 16Ax(root + 1)^2 > d^3, from the square-root bracket and the
        // division remainder, so Q(hi0) > 0.
        lemma_fundamental_div_mod(d3 as int, a16 as int);
        lemma_mod_division_less_than_divisor(d3 as int, a16 as int);
        assert((d3 as int) < a16 as int * (c as int + 1)) by (nonlinear_arith)
            requires
                d3 as int == a16 as int * (c as int) + d3 as int % (a16 as int),
                (d3 as int % (a16 as int)) < a16 as int,
        ;
        assert(a16 as int * (c as int + 1) <= a16 as int * ((root as int + 1) * (root as int + 1)))
            by (nonlinear_arith)
            requires
                (c as int) < (root as int + 1) * (root as int + 1),
                a16 as int >= 1,
        ;
        assert(a16 as int == x as int * amp as int * 16);
        assert(x as int * amp as int * 16 * (root as int + 1) * (root as int + 1) == a16 as int * (
        (root as int + 1) * (root as int + 1)))
            by (nonlinear_arith)
            requires
                a16 as int == x as int * amp as int * 16,
        ;
        lemma_y_upper_end(amp as int, x as int, d as int, root as int);
    }
    let start = newton_y(c, b, d, hi0);
    let mut cand = if start >= 3 {
        start - 3
    } else {
        0
    };
    let mut j: u32 = 0;
    while j < 8
        invariant
            1 <= amp <= u64::MAX,
            1 <= x,
        decreases 8 - j,
    {
        if cand >= 1 && cand < u128::MAX {
            match q_below(amp, x, d, cand) {
                Some(true) => {
                    match q_below(amp, x, d, cand + 1) {
                        Some(false) => {
                            return Some(cand);
                        },
                        _ => {},
                    }
                },
                _ => {},
            }
        }
        cand = if cand < u128::MAX {
            cand + 1
        } else {
            cand
        };
        j = j + 1;
    }
    proof {
        // Under the promised bounds both sides of Q at hi0 fit in a u128:
        // a16 <= 2^49, hi0 < 2^39, d <= 2^25, x <= 2^25.
        assert((amp as int <= 0x100000 && x as int <= 0x2_000_000 && d as int <= 0x2_000_000
            && root as int <= 0x40_0000_0000 && hi0 as int == d as int + root as int + 1) ==> {
            &&& spec_y_lhs(amp as int, x as int, d as int, hi0 as int) <= u128::MAX
            &&& spec_y_rhs(amp as int, x as int, d as int, hi0 as int) <= u128::MAX
        }) by (nonlinear_arith);
    }
    bisect_y(amp, x, d, hi0)
}

/// The 32-byte wire form: the amplification coefficient, little-endian,
/// then padding.
pub open spec fn spec_stable_bytes(c: StableCurve) -> Seq<u8> {
    spec_u64_to_le_bytes(c.amp) + zero_bytes(24)
}

impl StableCurve {
    /// A fee-free swap along the stable curve.  On success the result moves
    /// the full source amount and pays out the destination reserve's excess
    /// over the re-solved reserve `yn + 1`; the bracketing certificates for
    /// the invariant and the re-solved reserve are part of the contract.
    /// Success is promised for every pool whose reserves and trade amount
    /// stay within `SOLVER_AMOUNT_BOUND`; beyond it the solve may fail on
    /// overflow of the certificate arithmetic, and the swap reports that
    /// instead of wrapping.
    pub fn swap_without_fees(
        &self,
        source_amount: u128,
        swap_source_amount: u128,
        swap_destination_amount: u128,
        _trade_direction: TradeDirection,
    ) -> (r: Option<SwapWithoutFeesResult>)
        ensures
            r matches Some(res) ==> {
                &&& res.source_amount_swapped == source_amount
                &&& swap_source_amount + source_amount <= u128::MAX
                &&& exists|d: int, yn: int|
                    {
                        &&& #[trigger] spec_stable_d_ok(
                            self.amp as int,
                            swap_source_amount as int,
                            swap_destination_amount as int,
                            d,
                        )
                        &&& #[trigger] spec_stable_y_ok(
                            self.amp as int,
                            swap_source_amount + source_amount,
                            d,
                            yn,
                        )
                        &&& res.destination_amount_swapped == if yn + 1
                            <= swap_destination_amount {
                            swap_destination_amount - (yn + 1)
                        } else {
                            0
                        }
                    }
            },
            (MIN_AMP <= self.amp <= MAX_AMP && 1 <= swap_source_amount <= SOLVER_AMOUNT_BOUND && 1
                <= swap_destination_amount <= SOLVER_AMOUNT_BOUND && source_amount
                <= SOLVER_AMOUNT_BOUND) ==> r is Some,
    {
        let amp = self.amp as u128;
        if amp == 0 {
            return None;
        }
        proof {
            // Under the promised bounds both sides of P at x + y + 1 fit.
            assert((amp as int <= 0x100000 && 1 <= swap_source_amount as int <= 0x100_0000 && 1
                <= swap_destination_amount as int <= 0x100_0000) ==> {
                &&& spec_d_lhs(
                    amp as int,
                    swap_source_amount as int,
                    swap_destination_amount as int,
                    swap_source_amount as int + swap_destination_amount as int + 1,
                ) <= u128::MAX
                &&& spec_d_rhs(
                    amp as int,
                    swap_source_amount as int,
                    swap_destination_amount as int,
                ) <= u128::MAX
            }) by (nonlinear_arith);
        }
        let d = compute_d(amp, swap_source_amount, swap_destination_amount)?;
        proof {
            // The bracket pins d at or below x + y.
            if swap_source_amount >= 1 && swap_destination_amount >= 1 {
                lemma_d_bracket_ends(
                    amp as int,
                    swap_source_amount as int,
                    swap_destination_amount as int,
                );
                if d as int > swap_source_amount as int + swap_destination_amount as int {
                    lemma_d_lhs_mono(
                        amp as int,
                        swap_source_amount as int,
                        swap_destination_amount as int,
                        swap_source_amount as int + swap_destination_amount as int + 1,
                        d as int,
                    );
                    assert(false);
                }
            }
        }
        let new_source = swap_source_amount.checked_add(source_amount)?;
        let yn = compute_y(amp, new_source, d)?;
        proof {
            // Under the promised bounds the bracket bounds yn away from the
            // top of the type, so the rounding step cannot overflow.
            assert((spec_y_lhs(amp as int, new_source as int, d as int, yn as int) <= spec_y_rhs(
                amp as int,
                new_source as int,
                d as int,
                yn as int,
            ) && 1 <= new_source as int && 1 <= amp as int) ==> yn as int <= d as int * d as int
                * d as int + d as int) by (nonlinear_arith);
            assert((d as int <= 0x2_000_000) ==> (d as int * d as int * d as int + d as int)
                < u128::MAX) by (nonlinear_arith);
        }
        let y_new = yn.checked_add(1)?;
        let destination_amount_swapped = if y_new > swap_destination_amount {
            0
        } else {
            swap_destination_amount - y_new
        };
        proof {
            assert(spec_stable_d_ok(
                self.amp as int,
                swap_source_amount as int,
                swap_destination_amount as int,
                d as int,
            ));
            assert(spec_stable_y_ok(
                self.amp as int,
                swap_source_amount + source_amount,
                d as int,
                yn as int,
            ));
        }
        Some(SwapWithoutFeesResult { source_amount_swapped: source_amount, destination_amount_swapped })
    }

    /// The amplification coefficient must lie within its bounds.
    pub fn validate(&self) -> (r: Result<(), SwapError>)
        ensures
            r is Ok <==> (MIN_AMP <= self.amp && self.amp <= MAX_AMP),
            r is Err ==> r == Result::<(), SwapError>::Err(SwapError::InvalidCurve),
    {
        if self.amp < MIN_AMP || self.amp > MAX_AMP {
            Err(SwapError::InvalidCurve)
        } else {
            Ok(())
        }
    }

    /// Both initial reserves must be nonzero.
    pub fn validate_supply(&self, token_a_amount: u64, token_b_amount: u64) -> (r: Result<
        (),
        SwapError,
    >)
        ensures
            r is Ok <==> (token_a_amount != 0 && token_b_amount != 0),
            r is Err ==> r == Result::<(), SwapError>::Err(SwapError::EmptySupply),
    {
        if token_a_amount == 0 || token_b_amount == 0 {
            Err(SwapError::EmptySupply)
        } else {
            Ok(())
        }
    }

    /// Appends the curve's 32-byte parameter slot.
    pub fn pack_into_slice(&self, output: &mut Vec<u8>)
        ensures
            final(output)@ == old(output)@ + spec_stable_bytes(*self),
    {
        write_u64_le(output, self.amp);
        write_zeros(output, 24);
        proof {
            assert(output@ =~= old(output)@ + spec_stable_bytes(*self));
        }
    }

    /// Reads the curve back from the first 32 bytes of its parameter slot.
    pub fn unpack_from_slice(input: &[u8]) -> (r: StableCurve)
        requires
            input@.len() >= 32,
        ensures
            r.amp == spec_u64_from_le_bytes(input@.subrange(0, 8)),
    {
        StableCurve { amp: read_u64_le(input, 0) }
    }
}

} // verus!
