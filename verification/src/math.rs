//! Integer-only economy math: saturating arithmetic helpers, the ability
//! power curve, integer square roots, bounded exponentiation and the
//! upgrade-cost curve.
//!
//! Everything here is deterministic and bounded: fractional exponents are
//! approximated by nested integer square roots, and overflow is absorbed
//! by saturation rather than wrapping.

use vstd::prelude::*;
use vstd::arithmetic::div_mod::{
    lemma_fundamental_div_mod, lemma_div_is_ordered, lemma_mod_division_less_than_divisor,
};
use vstd::arithmetic::power::{
    pow, lemma_pow0, lemma_pow_positive, lemma_pow_multiplies, lemma_square_is_pow2,
};
use crate::config::BalanceConfig;

verus! {

/// Addition on `u64`, saturating at the maximum.
pub open spec fn spec_sat_add_u64(a: int, b: int) -> int {
    if a + b > u64::MAX { u64::MAX as int } else { a + b }
}

/// Multiplication on `u64`, saturating at the maximum.
pub open spec fn spec_sat_mul_u64(a: int, b: int) -> int {
    if a * b > u64::MAX { u64::MAX as int } else { a * b }
}

/// The value clipped into the `i32` range.
pub open spec fn spec_clip_i32(v: int) -> int {
    if v > i32::MAX { i32::MAX as int } else if v < i32::MIN { i32::MIN as int } else { v }
}

/// Division truncating toward zero (the machine's signed division),
/// for a positive divisor.
pub open spec fn spec_div_trunc(n: int, d: int) -> int
    recommends
        1 <= d,
{
    if n >= 0 { n / d } else { -((-n) / d) }
}

/// Saturating multiplication on `u64`.
pub fn u64_saturating_mul(a: u64, b: u64) -> (r: u64)
    ensures
        r == spec_sat_mul_u64(a as int, b as int),
{
    match a.checked_mul(b) {
        Some(v) => v,
        None => u64::MAX,
    }
}

/// Saturating addition on `i32`.
pub fn i32_saturating_add(a: i32, b: i32) -> (r: i32)
    ensures
        r == spec_clip_i32(a + b),
{
    match a.checked_add(b) {
        Some(v) => v,
        None => {
            if a < 0 { i32::MIN } else { i32::MAX }
        },
    }
}

/// Saturating multiplication on `i32`.
pub fn i32_saturating_mul(a: i32, b: i32) -> (r: i32)
    ensures
        r == spec_clip_i32(a * b),
{
    match a.checked_mul(b) {
        Some(v) => v,
        None => {
            proof {
                if a >= 0 && b >= 0 {
                    assert(a * b >= 0) by (nonlinear_arith)
                        requires a >= 0 && b >= 0;
                } else if a < 0 && b < 0 {
                    assert(a * b >= 0) by (nonlinear_arith)
                        requires a < 0 && b < 0;
                } else {
                    assert(a * b <= 0) by (nonlinear_arith)
                        requires (a <= 0 && b >= 0) || (a >= 0 && b <= 0);
                }
            }
            if (a < 0) == (b < 0) { i32::MAX } else { i32::MIN }
        },
    }
}

/// Divides a 32-bit value by a positive 64-bit divisor, truncating
/// toward zero.
fn div_trunc_i32_i64(n: i32, d: i64) -> (q: i32)
    requires
        1 <= d,
    ensures
        q == spec_div_trunc(n as int, d as int),
{
    if n >= 0 {
        let nn: u64 = n as u64;
        let dd: u64 = d as u64;
        let qq: u64 = nn / dd;
        proof {
            lemma_div_is_ordered(nn as int, nn as int, dd as int);
            vstd::arithmetic::div_mod::lemma_div_nonincreasing(nn as int, dd as int);
        }
        qq as i32
    } else {
        let m: u64 = (-(n as i64)) as u64;
        let dd: u64 = d as u64;
        let qq: u64 = m / dd;
        proof {
            vstd::arithmetic::div_mod::lemma_div_nonincreasing(m as int, dd as int);
        }
        (-(qq as i64)) as i32
    }
}

/// The per-level ability bonus used by the legacy scoring path: either
/// linear, `base + linear_a * level`, or diminishing-return,
/// `base + (dim_k * level) / (dim_t + level)` with the denominator
/// guarded to stay at least one.  Products and the final sum saturate in
/// `i32`.
pub open spec fn spec_ability_power(level: u16, cfg: BalanceConfig) -> int {
    if cfg.use_dim_bonus {
        let denom = if cfg.dim_t + level < 1 { 1int } else { cfg.dim_t + level };
        spec_clip_i32(cfg.base + spec_div_trunc(spec_clip_i32(cfg.dim_k * level), denom))
    } else {
        spec_clip_i32(cfg.base + spec_clip_i32(cfg.linear_a * level))
    }
}

/// Ability power for one level under the configured curve.
pub fn ability_power(level: u16, cfg: &BalanceConfig) -> (r: i32)
    ensures
        r == spec_ability_power(level, *cfg),
{
    let l: i32 = level as i32;
    if cfg.use_dim_bonus {
        let denom_wide: i64 = cfg.dim_t as i64 + l as i64;
        let denom: i64 = if denom_wide < 1 { 1 } else { denom_wide };
        let num: i32 = i32_saturating_mul(cfg.dim_k, l);
        let q: i32 = div_trunc_i32_i64(num, denom);
        i32_saturating_add(cfg.base, q)
    } else {
        i32_saturating_add(cfg.base, i32_saturating_mul(cfg.linear_a, l))
    }
}

/// The integer square root, specified recursively: the root grows by one
/// exactly when the next perfect square is reached.
pub open spec fn sqrt_floor(n: int) -> int
    decreases n,
{
    if n <= 0 {
        0
    } else {
        let s = sqrt_floor(n - 1);
        if (s + 1) * (s + 1) <= n { s + 1 } else { s }
    }
}

/// `sqrt_floor(n)` is the unique `r` with `r * r <= n < (r + 1) * (r + 1)`,
/// and it is non-negative.
pub proof fn lemma_sqrt_floor_bounds(n: int)
    requires
        0 <= n,
    ensures
        0 <= sqrt_floor(n),
        sqrt_floor(n) * sqrt_floor(n) <= n,
        n < (sqrt_floor(n) + 1) * (sqrt_floor(n) + 1),
    decreases n,
{
    if n > 0 {
        lemma_sqrt_floor_bounds(n - 1);
        let s = sqrt_floor(n - 1);
        assert(s * s <= n - 1);
        assert(n - 1 < (s + 1) * (s + 1));
        if (s + 1) * (s + 1) <= n {
            assert(sqrt_floor(n) == s + 1);
            assert((s + 2) * (s + 2) > (s + 1) * (s + 1)) by (nonlinear_arith)
                requires
                    0 <= s,
            ;
        } else {
            assert(sqrt_floor(n) == s);
        }
    }
}

/// A value bracketed by the two perfect squares is the integer root.
pub proof fn lemma_sqrt_floor_unique(n: int, r: int)
    requires
        0 <= n,
        0 <= r,
        r * r <= n,
        n < (r + 1) * (r + 1),
    ensures
        r == sqrt_floor(n),
{
    lemma_sqrt_floor_bounds(n);
    let s = sqrt_floor(n);
    if r < s {
        assert((r + 1) * (r + 1) <= s * s) by (nonlinear_arith)
            requires
                0 <= r,
                r + 1 <= s,
        ;
    } else if s < r {
        assert((s + 1) * (s + 1) <= r * r) by (nonlinear_arith)
            requires
                0 <= s,
                s + 1 <= r,
        ;
    }
}

/// The integer square root is monotone.
pub proof fn lemma_sqrt_floor_monotonic(a: int, b: int)
    requires
        0 <= a <= b,
    ensures
        sqrt_floor(a) <= sqrt_floor(b),
{
    lemma_sqrt_floor_bounds(a);
    lemma_sqrt_floor_bounds(b);
    let sa = sqrt_floor(a);
    let sb = sqrt_floor(b);
    if sb < sa {
        assert((sb + 1) * (sb + 1) <= sa * sa) by (nonlinear_arith)
            requires
                0 <= sb,
                sb + 1 <= sa,
        ;
    }
}

/// Division facts for a positive divisor: the quotient times the divisor
/// brackets the dividend.
proof fn lemma_div_props(n: int, x: int)
    requires
        0 <= n,
        1 <= x,
    ensures
        x * (n / x) <= n,
        n < x * (n / x) + x,
        0 <= n / x,
{
    lemma_fundamental_div_mod(n, x);
    lemma_mod_division_less_than_divisor(n, x);
    vstd::arithmetic::div_mod::lemma_div_pos_is_pos(n, x);
}

/// One Newton step from any point at or above one lands at or above the
/// integer root: `(x + n / x) / 2 >= sqrt_floor(n)`.
proof fn lemma_newton_step_bounds(n: int, x: int)
    requires
        1 <= x,
        1 <= n,
    ensures
        (x + n / x) / 2 >= sqrt_floor(n as int),
        (x + n / x) / 2 >= 1,
        x + n / x <= n + 1 || x > n,
{
    let s = sqrt_floor(n as int);
    let q = n / x;
    lemma_sqrt_floor_bounds(n as int);
    lemma_div_props(n, x);
    if x + q <= 2 * s - 1 {
        // then n < (q + 1) * x <= (2s - x) * x <= s * s <= n
        assert(n < (q + 1) * x) by (nonlinear_arith)
            requires
                n < x * q + x,
        ;
        assert((q + 1) * x <= (2 * s - x) * x) by (nonlinear_arith)
            requires
                q + 1 <= 2 * s - x,
                1 <= x,
        ;
        assert((2 * s - x) * x <= s * s) by (nonlinear_arith);
        assert(false);
    }
    assert((x + q) / 2 >= (2 * s) / 2) by {
        lemma_div_is_ordered(2 * s, x + q, 2);
    };
    assert((2 * s) / 2 == s) by (nonlinear_arith);
    assert(x + q >= 2) by {
        if x == 1 {
            vstd::arithmetic::div_mod::lemma_div_basics_1(n);
            assert(n / 1 == n);
        }
    };
    assert((x + q) / 2 >= 2int / 2) by {
        lemma_div_is_ordered(2, x + q, 2);
    };
    if x <= n {
        // q >= 1, and x + q <= x * q + 1 <= n + 1
        assert(1 <= q) by (nonlinear_arith)
            requires
                x * q + x > n,
                x * q <= n,
                1 <= x <= n,
                0 <= q,
        ;
        assert(x + q <= x * q + 1) by (nonlinear_arith)
            requires
                1 <= x,
                1 <= q,
        ;
    }
}

/// Integer square root by Newton's method.
pub fn integer_sqrt(n: u64) -> (r: u64)
    requires
        n < u64::MAX,
    ensures
        r == sqrt_floor(n as int),
{
    if n == 0 {
        return 0;
    }
    proof {
        lemma_sqrt_floor_bounds(n as int);
        let s = sqrt_floor(n as int);
        assert(s <= n) by (nonlinear_arith)
            requires
                s * s <= n,
                0 <= s,
                1 <= n,
        ;
        assert(n as int / (n as int) == 1) by {
            vstd::arithmetic::div_mod::lemma_div_by_self(n as int);
        };
        lemma_newton_step_bounds(n as int, n as int);
    }
    let mut x: u64 = n;
    let t0: u64 = x + 1;
    let y0: u64 = t0 >> 1;
    proof {
        assert(t0 >> 1u64 == t0 / 2) by (bit_vector);
    }
    let mut y: u64 = y0;
    while y < x
        invariant
            1 <= x <= n,
            1 <= y,
            n < u64::MAX,
            sqrt_floor(n as int) <= x,
            sqrt_floor(n as int) <= y,
            y == (x + n / x) / 2,
        decreases x,
    {
        x = y;
        proof {
            lemma_newton_step_bounds(n as int, x as int);
            lemma_div_props(n as int, x as int);
        }
        let t: u64 = x + n / x;
        let y1: u64 = t >> 1;
        proof {
            assert(t >> 1u64 == t / 2) by (bit_vector);
        }
        y = y1;
    }
    proof {
        let s = sqrt_floor(n as int);
        let q = n as int / x as int;
        lemma_div_props(n as int, x as int);
        // y >= x means the quotient is at least x, so x * x <= n
        assert(x + q >= 2 * x) by {
            if x + q <= 2 * x - 1 {
                lemma_div_is_ordered(x + q, 2 * x - 1, 2);
                assert((2 * x - 1) / 2 < x) by (nonlinear_arith);
            }
        };
        assert(x as int * x as int <= x as int * q) by (nonlinear_arith)
            requires
                x as int <= q,
                0 <= x as int,
        ;
        lemma_sqrt_floor_bounds(n as int);
        assert(x as int <= s) by (nonlinear_arith)
            requires
                x as int * x as int <= n,
                n < (s + 1) * (s + 1),
                0 <= x as int,
                0 <= s,
        ;
    }
    x
}

/// The integer approximation of `level ^ p` used by the cost curve: for
/// an exponent of 1.4 (14000 basis points), `level * fourth_root(level)`
/// with the roots guarded at one; for any other exponent, the level
/// itself.
pub open spec fn spec_approx_pow(l: int, p_bps: u16) -> int {
    if p_bps == 14000 {
        let base = if l <= 0 { 1int } else { l };
        let sl = sqrt_floor(base);
        let sq = if sl == 0 { 1int } else { sl };
        l * sqrt_floor(sq)
    } else {
        l
    }
}

/// The cost of reaching `level_next`: the curve base times the
/// (approximate) power of the level, saturating in `u64`.
pub open spec fn spec_upgrade_cost(level_next: u16, cfg: BalanceConfig) -> int {
    spec_sat_mul_u64(cfg.upgrade_c0 as int, spec_approx_pow(level_next as int, cfg.upgrade_p_bps))
}

/// The cost of an ability upgrade to `level_next` under the configured
/// curve: linear for a 1.0 exponent, the nested-square-root
/// approximation for 1.4, and linear for any other exponent.
pub fn upgrade_cost(level_next: u16, cfg: &BalanceConfig) -> (cost: u64)
    ensures
        cost == spec_upgrade_cost(level_next, *cfg),
{
    if cfg.upgrade_p_bps == 10000 {
        return u64_saturating_mul(cfg.upgrade_c0, level_next as u64);
    }
    let l: u64 = level_next as u64;
    let approx_pow: u64 = if cfg.upgrade_p_bps == 14000 {
        let guarded: u64 = if l == 0 { 1 } else { l };
        let sqrt_l: u64 = integer_sqrt(guarded);
        proof {
            lemma_sqrt_floor_bounds(guarded as int);
            assert(sqrt_l < 256) by (nonlinear_arith)
                requires
                    sqrt_l * sqrt_l <= guarded,
                    guarded <= 0xffff,
                    0 <= sqrt_l,
            ;
        }
        let guarded_sqrt: u64 = if sqrt_l == 0 { 1 } else { sqrt_l };
        let fourth_root: u64 = integer_sqrt(guarded_sqrt);
        proof {
            lemma_sqrt_floor_bounds(guarded_sqrt as int);
            assert(fourth_root < 16) by (nonlinear_arith)
                requires
                    fourth_root * fourth_root <= guarded_sqrt,
                    guarded_sqrt < 256,
                    0 <= fourth_root,
            ;
        }
        proof {
            assert(l * fourth_root <= 0xffff * 15) by (nonlinear_arith)
                requires
                    l <= 0xffff,
                    0 <= fourth_root < 16,
            ;
        }
        u64_saturating_mul(l, fourth_root)
    } else {
        l
    };
    u64_saturating_mul(cfg.upgrade_c0, approx_pow)
}

/// The upgrade cost is strictly increasing in the target level, for both
/// the linear curve and the approximated fractional-power curve, as long
/// as the larger cost does not saturate.
pub proof fn lemma_upgrade_cost_strictly_increasing(cfg: BalanceConfig, n1: u16, n2: u16)
    requires
        cfg.upgrade_p_bps == 10000 || cfg.upgrade_p_bps == 14000,
        1 <= cfg.upgrade_c0,
        1 <= n1 < n2,
        cfg.upgrade_c0 * spec_approx_pow(n2 as int, cfg.upgrade_p_bps) <= u64::MAX,
    ensures
        spec_upgrade_cost(n1, cfg) < spec_upgrade_cost(n2, cfg),
{
    let c0 = cfg.upgrade_c0 as int;
    let a1 = spec_approx_pow(n1 as int, cfg.upgrade_p_bps);
    let a2 = spec_approx_pow(n2 as int, cfg.upgrade_p_bps);
    if cfg.upgrade_p_bps == 14000 {
        let f1 = sqrt_floor(sqrt_floor(n1 as int));
        let f2 = sqrt_floor(sqrt_floor(n2 as int));
        lemma_sqrt_floor_unique(1, 1);
        lemma_sqrt_floor_monotonic(1, n1 as int);
        lemma_sqrt_floor_monotonic(n1 as int, n2 as int);
        lemma_sqrt_floor_monotonic(1, sqrt_floor(n1 as int));
        lemma_sqrt_floor_monotonic(sqrt_floor(n1 as int), sqrt_floor(n2 as int));
        assert(a1 == n1 * f1);
        assert(a2 == n2 * f2);
        assert(n1 * f1 < n2 * f2) by (nonlinear_arith)
            requires
                1 <= f1 <= f2,
                1 <= n1 < n2,
        ;
    }
    assert(c0 * a1 < c0 * a2) by (nonlinear_arith)
        requires
            1 <= c0,
            0 <= a1 < a2,
    ;
}

/// Fast exponentiation with saturating multiplication: exact whenever the
/// true power fits in `u64`, and never above the true power.
pub fn powi_u64(base: u64, exp: u32) -> (r: u64)
    ensures
        pow(base as int, exp as nat) <= u64::MAX ==> r == pow(base as int, exp as nat),
        r <= pow(base as int, exp as nat),
{
    let ghost target = pow(base as int, exp as nat);
    let mut result: u64 = 1;
    let mut b: u64 = base;
    let mut e: u32 = exp;
    proof {
        lemma_pow_nonneg(base as int, exp as nat);
    }
    while e > 0
        invariant
            target == pow(base as int, exp as nat),
            0 <= target,
            target <= u64::MAX ==> result * pow(b as int, e as nat) == target,
            result * pow(b as int, e as nat) <= target,
            0 <= pow(b as int, e as nat),
        decreases e,
    {
        let ghost old_b: int = b as int;
        let ghost old_e: nat = e as nat;
        proof {
            assert(e & 1 == e % 2) by (bit_vector);
            assert(e >> 1u32 == e / 2) by (bit_vector);
        }
        if e & 1 == 1 {
            let prev: u64 = result;
            result = u64_saturating_mul(result, b);
            proof {
                lemma_pow_unfold_mul(old_b, old_e);
                lemma_pow_nonneg(old_b, (old_e - 1) as nat);
                // prev * b never exceeds the target when the target fits
                if target <= u64::MAX {
                    if b >= 1 {
                        lemma_pow_positive(old_b, (old_e - 1) as nat);
                        assert(prev * old_b <= prev * old_b * pow(old_b, (old_e - 1) as nat))
                            by (nonlinear_arith)
                            requires
                                0 <= prev * old_b,
                                1 <= pow(old_b, (old_e - 1) as nat),
                        ;
                        assert(prev * old_b * pow(old_b, (old_e - 1) as nat)
                            == prev * pow(old_b, old_e)) by (nonlinear_arith)
                            requires
                                pow(old_b, old_e) == old_b * pow(old_b, (old_e - 1) as nat),
                        ;
                    } else {
                        assert(prev * old_b == 0) by (nonlinear_arith)
                            requires
                                old_b == 0,
                        ;
                    }
                    assert(result == prev * old_b);
                    assert(result * pow(old_b, (old_e - 1) as nat) == target) by (nonlinear_arith)
                        requires
                            result == prev * old_b,
                            pow(old_b, old_e) == old_b * pow(old_b, (old_e - 1) as nat),
                            prev * pow(old_b, old_e) == target,
                    ;
                }
                // and the running product never grows past the true power
                assert(result <= prev * old_b);
                lemma_mul_le_mono(result as int, prev * old_b,
                    pow(old_b, (old_e - 1) as nat));
                assert(prev * old_b * pow(old_b, (old_e - 1) as nat)
                    == prev * pow(old_b, old_e)) by (nonlinear_arith)
                    requires
                        pow(old_b, old_e) == old_b * pow(old_b, (old_e - 1) as nat),
                ;
            }
        }
        let ghost mid_result: int = result as int;
        proof {
            if e % 2 == 0 {
                assert(mid_result * pow(old_b, old_e) <= target);
                assert(target <= u64::MAX ==> mid_result * pow(old_b, old_e) == target);
            } else {
                assert(mid_result * pow(old_b, (old_e - 1) as nat) <= target);
                assert(target <= u64::MAX ==> mid_result * pow(old_b, (old_e - 1) as nat) == target);
            }
        }
        e = e >> 1;
        proof {
            // the exponent that remains to be applied is now even: 2 * (e as nat)
            lemma_pow_multiplies(old_b, 2, e as nat);
            lemma_square_is_pow2(old_b);
            assert(pow(old_b, 2 * (e as nat)) == pow(old_b * old_b, e as nat));
            if old_e % 2 == 1 {
                assert(old_e - 1 == 2 * (e as nat));
            } else {
                assert(old_e == 2 * (e as nat));
            }
        }
        if e > 0 {
            b = u64_saturating_mul(b, b);
            proof {
                let bb = old_b * old_b;
                lemma_pow_nonneg(bb, e as nat);
                lemma_pow_nonneg(b as int, e as nat);
                if b as int == bb {
                    assert(mid_result * pow(b as int, e as nat)
                        == mid_result * pow(bb, e as nat));
                } else {
                    // the square saturated, so the true power no longer fits;
                    // the running product must already be zero if the target fits
                    assert(bb > u64::MAX);
                    assert(b == u64::MAX);
                    lemma_pow_ge_base(bb, e as nat);
                    if target <= u64::MAX {
                        assert(mid_result * pow(bb, e as nat) == target);
                        assert(mid_result == 0) by (nonlinear_arith)
                            requires
                                mid_result * pow(bb, e as nat) <= u64::MAX,
                                pow(bb, e as nat) >= bb > u64::MAX,
                                0 <= mid_result,
                        ;
                        assert(mid_result * pow(b as int, e as nat) == 0) by (nonlinear_arith)
                            requires
                                mid_result == 0,
                        ;
                        assert(target == 0) by (nonlinear_arith)
                            requires
                                mid_result == 0,
                                mid_result * pow(bb, e as nat) == target,
                        ;
                    }
                    lemma_pow_base_le(b as int, bb, e as nat);
                    lemma_mul_le_mono_right(mid_result, pow(b as int, e as nat), pow(bb, e as nat));
                }
            }
        } else {
            proof {
                lemma_pow0(old_b);
            }
        }
    }
    proof {
        lemma_pow0(b as int);
    }
    result
}

/// `pow` of a non-negative base is non-negative.
proof fn lemma_pow_nonneg(b: int, e: nat)
    requires
        0 <= b,
    ensures
        0 <= pow(b, e),
    decreases e,
{
    reveal(pow);
    if e > 0 {
        lemma_pow_nonneg(b, (e - 1) as nat);
        assert(0 <= b * pow(b, (e - 1) as nat)) by (nonlinear_arith)
            requires
                0 <= b,
                0 <= pow(b, (e - 1) as nat),
        ;
    }
}

/// Unfolds one factor of `pow`.
proof fn lemma_pow_unfold_mul(b: int, e: nat)
    requires
        1 <= e,
    ensures
        pow(b, e) == b * pow(b, (e - 1) as nat),
{
    reveal(pow);
}

/// `pow` is monotone in the base, for non-negative bases.
proof fn lemma_pow_base_le(a: int, b: int, e: nat)
    requires
        0 <= a <= b,
    ensures
        pow(a, e) <= pow(b, e),
    decreases e,
{
    reveal(pow);
    if e > 0 {
        lemma_pow_base_le(a, b, (e - 1) as nat);
        lemma_pow_nonneg(a, (e - 1) as nat);
        lemma_pow_nonneg(b, (e - 1) as nat);
        assert(a * pow(a, (e - 1) as nat) <= b * pow(b, (e - 1) as nat)) by (nonlinear_arith)
            requires
                0 <= a <= b,
                0 <= pow(a, (e - 1) as nat) <= pow(b, (e - 1) as nat),
        ;
    }
}

/// For a base of at least one and a positive exponent, the power is at
/// least the base.
proof fn lemma_pow_ge_base(b: int, e: nat)
    requires
        1 <= b,
        1 <= e,
    ensures
        pow(b, e) >= b,
    decreases e,
{
    reveal(pow);
    if e == 1 {
        lemma_pow0(b);
    } else {
        lemma_pow_ge_base(b, (e - 1) as nat);
        assert(pow(b, e) == b * pow(b, (e - 1) as nat));
        assert(b * pow(b, (e - 1) as nat) >= b) by (nonlinear_arith)
            requires
                1 <= b,
                pow(b, (e - 1) as nat) >= 1,
        ;
        assert(pow(b, (e - 1) as nat) >= b >= 1);
    }
}

/// Multiplying both sides of `x <= y` by a non-negative factor.
proof fn lemma_mul_le_mono(x: int, y: int, z: int)
    requires
        x <= y,
        0 <= z,
    ensures
        x * z <= y * z,
{
    assert(x * z <= y * z) by (nonlinear_arith)
        requires
            x <= y,
            0 <= z,
    ;
}

/// Multiplying a non-negative value by the smaller of two factors.
proof fn lemma_mul_le_mono_right(x: int, y: int, z: int)
    requires
        0 <= x,
        y <= z,
        0 <= y,
    ensures
        x * y <= x * z,
{
    assert(x * y <= x * z) by (nonlinear_arith)
        requires
            0 <= x,
            0 <= y <= z,
    ;
}

} // verus!
