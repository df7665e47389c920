//! Fixed-point base-10 logarithms for decibel arithmetic.
//!
//! The radio analysis must move between decibel and linear power scales.
//! This module defines an integer approximation of `100 * log10(x)`
//! ([`centi_log10`]) and its inverse ([`spec_pow10_inverse`]), proves
//! both monotone, and gives executable forms of each.
//!
//! The approximation splits `x` into a decade count and a mantissa
//! normalized to `[10^6, 10^7)`, then extracts ten binary digits of the
//! mantissa's logarithm by repeated squaring: squaring a number doubles
//! its logarithm, so whether the square reaches the next decade is
//! exactly the next binary digit. The result is proved monotone and
//! exact at powers of ten, with ten binary digits of resolution inside
//! each decade.

use vstd::arithmetic::div_mod::lemma_div_is_ordered;
use vstd::arithmetic::div_mod::lemma_div_by_multiple;
use vstd::arithmetic::div_mod::lemma_multiply_divide_lt;
use vstd::arithmetic::mul::lemma_mul_inequality;
use vstd::arithmetic::mul::lemma_mul_strict_inequality;
use vstd::arithmetic::mul::lemma_mul_upper_bound;
use vstd::arithmetic::power2::lemma_pow2_unfold;
use vstd::arithmetic::power2::lemma2_to64;
use vstd::arithmetic::power2::pow2;
use vstd::prelude::*;

verus! {

/// The mantissa scale: a mantissa of exactly one is stored as 10^6.
pub const MANTISSA_ONE: u64 = 1_000_000;

/// Ten times the mantissa scale: the exclusive mantissa upper bound.
pub const MANTISSA_TEN: u64 = 10_000_000;

/// Number of binary digits of the mantissa logarithm that are extracted.
pub const LOG_FRACTION_BITS: u32 = 10;

/// The widest linear power value the inverse logarithm ranges over.
pub const LINEAR_MAX: u128 = 10_000_000_000_000_000_000_000_000_000_000_000;

/// Ten to the power `e`.
pub open spec fn pow10(e: nat) -> nat
    decreases e,
{
    if e == 0 {
        1
    } else {
        10 * pow10((e - 1) as nat)
    }
}

/// The number of whole decades in `x`: `floor(log10(x))` for `x >= 1`.
pub open spec fn log10_floor(x: nat) -> nat
    decreases x,
{
    if x < 10 {
        0
    } else {
        1 + log10_floor(x / 10)
    }
}

/// `k` binary digits of `log10(m / 10^6)`, as an integer in
/// `[0, 2^k)`, extracted by repeated squaring: squaring doubles the
/// logarithm, and crossing the next decade is the next digit.
pub open spec fn log_mantissa_bits(m: nat, k: nat) -> nat
    decreases k,
{
    if k == 0 {
        0
    } else {
        let squared = (m * m) / (MANTISSA_ONE as nat);
        if squared >= MANTISSA_TEN {
            pow2((k - 1) as nat) + log_mantissa_bits(squared / 10, (k - 1) as nat)
        } else {
            log_mantissa_bits(squared, (k - 1) as nat)
        }
    }
}

/// The mantissa of `x`, normalized to `[10^6, 10^7)` for `x >= 1`.
pub open spec fn mantissa(x: nat) -> nat {
    let d = log10_floor(x);
    if d <= 6 {
        x * pow10((6 - d) as nat)
    } else {
        x / pow10((d - 6) as nat)
    }
}

/// Integer approximation of `100 * log10(x)`, for `x >= 1`: one hundred
/// per whole decade, plus ten binary digits of the mantissa logarithm
/// rescaled to centi-decades. Exact at powers of ten, and monotone
/// ([`lemma_centi_log10_mono`]).
pub open spec fn centi_log10(x: nat) -> int {
    100 * (log10_floor(x) as int) + ((log_mantissa_bits(mantissa(x), LOG_FRACTION_BITS as nat)
        * 100) as int) / 1024
}

/// The greatest `v <= n` whose [`centi_log10`] is at most the target:
/// the inverse logarithm, rounded down, saturating at `n` and at zero
/// ([`lemma_pow10_inverse_characterization`]).
pub open spec fn spec_pow10_inverse(target_centilog: int, n: nat) -> nat
    decreases n,
{
    if n == 0 {
        0
    } else if centi_log10(n) <= target_centilog {
        n
    } else {
        spec_pow10_inverse(target_centilog, (n - 1) as nat)
    }
}

/// Powers of ten are positive.
pub proof fn lemma_pow10_pos(e: nat)
    ensures
        pow10(e) >= 1,
    decreases e,
{
    if e > 0 {
        lemma_pow10_pos((e - 1) as nat);
    }
}

/// `10^(a+b) == 10^a * 10^b`.
pub proof fn lemma_pow10_adds(a: nat, b: nat)
    ensures
        pow10(a + b) == pow10(a) * pow10(b),
    decreases a,
{
    if a == 0 {
        assert(pow10(a) == 1);
        assert(1 * pow10(b) == pow10(b)) by (nonlinear_arith);
        assert(pow10(a + b) == pow10(a) * pow10(b));
    } else {
        lemma_pow10_adds((a - 1) as nat, b);
        assert(pow10(a) == 10 * pow10((a - 1) as nat));
        assert(((a + b) - 1) as nat == (a - 1) as nat + b);
        assert(pow10(a + b) == 10 * pow10((a - 1) as nat + b));
        assert(pow10(a + b) == 10 * (pow10((a - 1) as nat) * pow10(b)));
        assert(10 * (pow10((a - 1) as nat) * pow10(b)) == (10 * pow10((a - 1) as nat)) * pow10(
            b,
        )) by (nonlinear_arith);
        assert(pow10(a + b) == (10 * pow10((a - 1) as nat)) * pow10(b));
        assert(pow10(a + b) == pow10(a) * pow10(b));
    }
}

/// Powers of ten do not decrease.
pub proof fn lemma_pow10_mono(a: nat, b: nat)
    requires
        a <= b,
    ensures
        pow10(a) <= pow10(b),
{
    lemma_pow10_adds(a, (b - a) as nat);
    lemma_pow10_pos((b - a) as nat);
    lemma_mul_inequality(1, pow10((b - a) as nat) as int, pow10(a) as int);
    assert(pow10(a) * 1 == pow10(a)) by (nonlinear_arith);
    assert(pow10(a) * pow10((b - a) as nat) == pow10((b - a) as nat) * pow10(a))
        by (nonlinear_arith);
}

/// The decade count brackets its argument between powers of ten.
pub proof fn lemma_log10_floor_bounds(x: nat)
    requires
        x >= 1,
    ensures
        pow10(log10_floor(x)) <= x < pow10(log10_floor(x) + 1),
    decreases x,
{
    if x < 10 {
        assert(pow10(1) == 10 * pow10(0));
    } else {
        lemma_log10_floor_bounds(x / 10);
        let l = log10_floor(x / 10);
        assert(pow10(l + 1) == 10 * pow10(l));
        assert(pow10(l + 2) == 10 * pow10(l + 1));
        assert(10 * (x / 10) <= x < 10 * (x / 10) + 10) by {
            vstd::arithmetic::div_mod::lemma_fundamental_div_mod(x as int, 10);
        }
    }
}

/// The decade count is monotone.
pub proof fn lemma_log10_floor_mono(x1: nat, x2: nat)
    requires
        1 <= x1 <= x2,
    ensures
        log10_floor(x1) <= log10_floor(x2),
{
    lemma_log10_floor_bounds(x1);
    lemma_log10_floor_bounds(x2);
    if log10_floor(x1) > log10_floor(x2) {
        lemma_pow10_mono(log10_floor(x2) + 1, log10_floor(x1));
        assert(false);
    }
}

/// Every value a 128-bit word can hold has fewer than 39 decades.
pub proof fn lemma_log10_floor_le_38(x: nat)
    requires
        1 <= x <= u128::MAX,
    ensures
        log10_floor(x) <= 38,
{
    lemma_log10_floor_bounds(x);
    if log10_floor(x) > 38 {
        lemma_pow10_mono(39, log10_floor(x));
        assert(pow10(39) > u128::MAX) by {
            reveal_with_fuel(pow10, 40);
        }
    }
}

/// The mantissa of any positive value lies in `[10^6, 10^7)`.
pub proof fn lemma_mantissa_range(x: nat)
    requires
        x >= 1,
    ensures
        MANTISSA_ONE <= mantissa(x) < MANTISSA_TEN,
{
    lemma_log10_floor_bounds(x);
    let d = log10_floor(x);
    if d <= 6 {
        lemma_pow10_adds(d, (6 - d) as nat);
        lemma_pow10_pos((6 - d) as nat);
        lemma_mul_inequality(pow10(d) as int, x as int, pow10((6 - d) as nat) as int);
        lemma_pow10_adds(d + 1, (6 - d) as nat);
        lemma_mul_strict_inequality(x as int, pow10(d + 1) as int, pow10((6 - d) as nat) as int);
        assert(pow10(6) == 1_000_000 && pow10(7) == 10_000_000) by {
            reveal_with_fuel(pow10, 8);
        }
    } else {
        let p = pow10((d - 6) as nat);
        lemma_pow10_pos((d - 6) as nat);
        lemma_pow10_adds(6, (d - 6) as nat);
        lemma_div_is_ordered(pow10(d) as int, x as int, p as int);
        lemma_div_by_multiple(pow10(6) as int, p as int);
        lemma_pow10_adds(7, (d - 6) as nat);
        assert(x < pow10(7) * p);
        assert(pow10(7) * p == p * pow10(7)) by (nonlinear_arith);
        lemma_multiply_divide_lt(x as int, p as int, pow10(7) as int);
        assert(pow10(6) == 1_000_000 && pow10(7) == 10_000_000) by {
            reveal_with_fuel(pow10, 8);
        }
    }
}

/// Within one decade, the mantissa is monotone.
pub proof fn lemma_mantissa_mono_same_decade(x1: nat, x2: nat)
    requires
        1 <= x1 <= x2,
        log10_floor(x1) == log10_floor(x2),
    ensures
        mantissa(x1) <= mantissa(x2),
{
    let d = log10_floor(x1);
    if d <= 6 {
        lemma_mul_inequality(x1 as int, x2 as int, pow10((6 - d) as nat) as int);
    } else {
        lemma_pow10_pos((d - 6) as nat);
        lemma_div_is_ordered(x1 as int, x2 as int, pow10((d - 6) as nat) as int);
    }
}

/// The extracted digits stay below `2^k`.
pub proof fn lemma_log_mantissa_bits_bound(m: nat, k: nat)
    ensures
        log_mantissa_bits(m, k) < pow2(k),
    decreases k,
{
    if k == 0 {
        assert(pow2(0) == 1) by {
            lemma2_to64();
        }
    } else {
        let squared = (m * m) / (MANTISSA_ONE as nat);
        lemma_pow2_unfold(k);
        if squared >= MANTISSA_TEN {
            lemma_log_mantissa_bits_bound(squared / 10, (k - 1) as nat);
        } else {
            lemma_log_mantissa_bits_bound(squared, (k - 1) as nat);
        }
    }
}

/// The digit extraction is monotone in the mantissa.
pub proof fn lemma_log_mantissa_bits_mono(m1: nat, m2: nat, k: nat)
    requires
        m1 <= m2,
    ensures
        log_mantissa_bits(m1, k) <= log_mantissa_bits(m2, k),
    decreases k,
{
    if k > 0 {
        let s1 = (m1 * m1) / (MANTISSA_ONE as nat);
        let s2 = (m2 * m2) / (MANTISSA_ONE as nat);
        lemma_mul_upper_bound(m1 as int, m2 as int, m1 as int, m2 as int);
        lemma_div_is_ordered((m1 * m1) as int, (m2 * m2) as int, MANTISSA_ONE as int);
        if s1 >= MANTISSA_TEN {
            lemma_div_is_ordered(s1 as int, s2 as int, 10);
            lemma_log_mantissa_bits_mono(s1 / 10, s2 / 10, (k - 1) as nat);
        } else if s2 >= MANTISSA_TEN {
            lemma_log_mantissa_bits_bound(s1, (k - 1) as nat);
        } else {
            lemma_log_mantissa_bits_mono(s1, s2, (k - 1) as nat);
        }
    }
}

/// A mantissa of exactly one contributes no digits: its square never
/// leaves the decade.
pub proof fn lemma_log_mantissa_bits_at_one(k: nat)
    ensures
        log_mantissa_bits(MANTISSA_ONE as nat, k) == 0,
    decreases k,
{
    if k > 0 {
        assert((MANTISSA_ONE as nat * MANTISSA_ONE as nat) / (MANTISSA_ONE as nat)
            == MANTISSA_ONE as nat) by (nonlinear_arith);
        lemma_log_mantissa_bits_at_one((k - 1) as nat);
    }
}

/// The centi-logarithm is bracketed by its decade count.
pub proof fn lemma_centi_log10_decade_bounds(x: nat)
    requires
        x >= 1,
    ensures
        100 * log10_floor(x) <= centi_log10(x) <= 100 * log10_floor(x) + 99,
{
    let f = log_mantissa_bits(mantissa(x), LOG_FRACTION_BITS as nat);
    lemma_log_mantissa_bits_bound(mantissa(x), LOG_FRACTION_BITS as nat);
    assert(pow2(10) == 1024) by {
        lemma2_to64();
    }
    lemma_div_is_ordered((f * 100) as int, 102_300int, 1024);
}

/// The centi-logarithm is monotone.
pub proof fn lemma_centi_log10_mono(x1: nat, x2: nat)
    requires
        1 <= x1 <= x2,
    ensures
        centi_log10(x1) <= centi_log10(x2),
{
    lemma_log10_floor_mono(x1, x2);
    lemma_centi_log10_decade_bounds(x1);
    lemma_centi_log10_decade_bounds(x2);
    if log10_floor(x1) == log10_floor(x2) {
        lemma_mantissa_mono_same_decade(x1, x2);
        lemma_log_mantissa_bits_mono(
            mantissa(x1),
            mantissa(x2),
            LOG_FRACTION_BITS as nat,
        );
        let f1 = log_mantissa_bits(mantissa(x1), LOG_FRACTION_BITS as nat);
        let f2 = log_mantissa_bits(mantissa(x2), LOG_FRACTION_BITS as nat);
        lemma_div_is_ordered((f1 * 100) as int, (f2 * 100) as int, 1024);
    }
}

/// The centi-logarithm of a power of ten is exactly one hundred per
/// decade.
pub proof fn lemma_centi_log10_of_pow10(e: nat)
    requires
        e <= 38,
    ensures
        centi_log10(pow10(e)) == 100 * e,
{
    lemma_pow10_pos(e);
    lemma_log10_floor_of_pow10(e);
    let d = e;
    if d <= 6 {
        lemma_pow10_adds(d, (6 - d) as nat);
    } else {
        lemma_pow10_adds(6, (d - 6) as nat);
        lemma_pow10_pos((d - 6) as nat);
        lemma_div_by_multiple(pow10(6) as int, pow10((d - 6) as nat) as int);
    }
    assert(pow10(6) == 1_000_000) by {
        reveal_with_fuel(pow10, 8);
    }
    assert(mantissa(pow10(e)) == MANTISSA_ONE);
    lemma_log_mantissa_bits_at_one(LOG_FRACTION_BITS as nat);
}

/// The decade count of a power of ten is its exponent.
pub proof fn lemma_log10_floor_of_pow10(e: nat)
    ensures
        log10_floor(pow10(e)) == e,
    decreases e,
{
    lemma_pow10_pos(e);
    if e == 0 {
    } else {
        lemma_log10_floor_of_pow10((e - 1) as nat);
        lemma_pow10_pos((e - 1) as nat);
        assert(pow10(e) == 10 * pow10((e - 1) as nat));
        lemma_div_by_multiple(pow10((e - 1) as nat) as int, 10);
        assert((pow10((e - 1) as nat) * 10) / 10 == pow10((e - 1) as nat));
        assert(10 * pow10((e - 1) as nat) == pow10((e - 1) as nat) * 10) by (nonlinear_arith);
    }
}

/// The centi-logarithm of one is zero.
pub proof fn lemma_centi_log10_at_one()
    ensures
        centi_log10(1) == 0,
{
    assert(log10_floor(1nat) == 0);
    assert(pow10(6) == 1_000_000) by {
        reveal_with_fuel(pow10, 8);
    }
    assert(mantissa(1nat) == MANTISSA_ONE);
    lemma_log_mantissa_bits_at_one(LOG_FRACTION_BITS as nat);
}

/// What the inverse logarithm is: below the saturation point it is the
/// greatest positive value whose centi-logarithm stays within the
/// target, and its successor overshoots.
pub proof fn lemma_pow10_inverse_characterization(target_centilog: int, n: nat)
    requires
        0 <= target_centilog,
        n >= 1,
        centi_log10(n) > target_centilog,
    ensures
        1 <= spec_pow10_inverse(target_centilog, n) < n,
        centi_log10(spec_pow10_inverse(target_centilog, n)) <= target_centilog,
        centi_log10(spec_pow10_inverse(target_centilog, n) + 1) > target_centilog,
    decreases n,
{
    lemma_centi_log10_at_one();
    if centi_log10((n - 1) as nat) <= target_centilog {
        assert(spec_pow10_inverse(target_centilog, (n - 1) as nat) == (n - 1) as nat);
    } else {
        lemma_pow10_inverse_characterization(target_centilog, (n - 1) as nat);
    }
}

/// The inverse logarithm stays within its search bound.
pub proof fn lemma_pow10_inverse_le(target_centilog: int, n: nat)
    ensures
        spec_pow10_inverse(target_centilog, n) <= n,
    decreases n,
{
    if n > 0 && !(centi_log10(n) <= target_centilog) {
        lemma_pow10_inverse_le(target_centilog, (n - 1) as nat);
    }
}

/// The inverse logarithm is monotone in its target.
pub proof fn lemma_pow10_inverse_mono(t1: int, t2: int, n: nat)
    requires
        t1 <= t2,
    ensures
        spec_pow10_inverse(t1, n) <= spec_pow10_inverse(t2, n),
    decreases n,
{
    if n > 0 {
        if centi_log10(n) <= t1 {
        } else if centi_log10(n) <= t2 {
            lemma_pow10_inverse_le(t1, (n - 1) as nat);
        } else {
            lemma_pow10_inverse_mono(t1, t2, (n - 1) as nat);
        }
    }
}

/// A negative target has no positive solution: the inverse saturates at
/// zero.
pub proof fn lemma_pow10_inverse_neg(target_centilog: int, n: nat)
    requires
        target_centilog < 0,
    ensures
        spec_pow10_inverse(target_centilog, n) == 0,
    decreases n,
{
    if n > 0 {
        lemma_centi_log10_decade_bounds(n);
        lemma_pow10_inverse_neg(target_centilog, (n - 1) as nat);
    }
}

/// A witness pins the inverse down: if `x` satisfies the target and its
/// successor (within bounds) does not, the inverse is exactly `x`.
pub proof fn lemma_pow10_inverse_locate(target_centilog: int, n: nat, x: nat)
    requires
        1 <= x <= n,
        centi_log10(x) <= target_centilog,
        x == n || centi_log10((x + 1) as nat) > target_centilog,
    ensures
        spec_pow10_inverse(target_centilog, n) == x,
    decreases n,
{
    if n == x {
    } else {
        lemma_centi_log10_mono((x + 1) as nat, n);
        lemma_pow10_inverse_locate(target_centilog, (n - 1) as nat, x);
    }
}

/// Ten to the power `e`, executable.
pub fn pow10_u128(e: u32) -> (r: u128)
    requires
        e <= 38,
    ensures
        r as nat == pow10(e as nat),
{
    let mut i: u32 = 0;
    let mut r: u128 = 1;
    while i < e
        invariant
            i <= e <= 38,
            r as nat == pow10(i as nat),
        decreases e - i,
    {
        proof {
            lemma_pow10_mono(i as nat, 37);
            assert(pow10(37) == 10_000_000_000_000_000_000_000_000_000_000_000_000) by {
                reveal_with_fuel(pow10, 38);
            }
        }
        r = r * 10;
        i = i + 1;
    }
    r
}

/// The integer centi-logarithm of `x`, executable: exactly
/// [`centi_log10`].
pub fn centi_log10_u128(x: u128) -> (r: u64)
    requires
        x >= 1,
    ensures
        r as int == centi_log10(x as nat),
        r <= 3899,
{
    proof {
        lemma_log10_floor_le_38(x as nat);
    }
    // Count whole decades.
    let mut y: u128 = x;
    let mut d: u32 = 0;
    while y >= 10
        invariant
            y >= 1,
            log10_floor(x as nat) == d + log10_floor(y as nat),
            log10_floor(x as nat) <= 38,
        decreases y,
    {
        y = y / 10;
        d = d + 1;
    }
    assert(d == log10_floor(x as nat));
    // Normalize the mantissa to [10^6, 10^7).
    let mut m: u64 = if d <= 6 {
        let scale = pow10_u128(6 - d);
        proof {
            lemma_log10_floor_bounds(x as nat);
            lemma_pow10_mono((d + 1) as nat, 7);
            lemma_pow10_mono((6 - d) as nat, 6);
            assert(pow10(6) == 1_000_000 && pow10(7) == 10_000_000) by {
                reveal_with_fuel(pow10, 8);
            }
            assert((x as int) * (scale as int) <= 10_000_000 * 1_000_000) by (nonlinear_arith)
                requires
                    x as int <= 10_000_000,
                    scale as int <= 1_000_000,
            ;
        }
        (x * scale) as u64
    } else {
        let scale = pow10_u128(d - 6);
        proof {
            lemma_mantissa_range(x as nat);
            lemma_pow10_pos((d - 6) as nat);
        }
        (x / scale) as u64
    };
    proof {
        lemma_mantissa_range(x as nat);
        assert(m as nat == mantissa(x as nat));
    }
    // Extract ten binary digits of the mantissa logarithm by squaring.
    let ghost m0 = m as nat;
    proof {
        lemma2_to64();
    }
    let mut acc: u64 = 0;
    let mut bit: u64 = 512;
    let mut k: u32 = 10;
    while k > 0
        invariant
            m < 10_000_000,
            k <= 10,
            k >= 1 ==> bit as nat == pow2((k - 1) as nat),
            acc as nat + log_mantissa_bits(m as nat, k as nat) == log_mantissa_bits(m0, 10),
            acc as nat + pow2(k as nat) <= 1024,
        decreases k,
    {
        proof {
            lemma_mul_upper_bound(m as int, 9_999_999, m as int, 9_999_999);
            lemma_pow2_unfold(k as nat);
        }
        let squared: u64 = (m * m) / 1_000_000;
        if squared >= 10_000_000 {
            acc = acc + bit;
            m = squared / 10;
        } else {
            m = squared;
        }
        k = k - 1;
        bit = bit / 2;
        proof {
            if k >= 1 {
                lemma_pow2_unfold(k as nat);
            }
        }
    }
    proof {
        assert(pow2(10) == 1024 && pow2(9) == 512 && pow2(0) == 1) by {
            lemma2_to64();
        }
        lemma_log_mantissa_bits_bound(m0, 10);
    }
    let frac_centi: u64 = acc * 100 / 1024;
    (d as u64) * 100 + frac_centi
}

/// The greatest linear value whose centi-logarithm is at most the
/// target, executable: exactly [`spec_pow10_inverse`] over the full
/// [`LINEAR_MAX`] range, by binary search over the monotone logarithm.
pub fn pow10_inverse(target_centilog: i64) -> (r: u128)
    ensures
        r as nat == spec_pow10_inverse(target_centilog as int, LINEAR_MAX as nat),
        r <= LINEAR_MAX,
{
    proof {
        lemma_pow10_inverse_le(target_centilog as int, LINEAR_MAX as nat);
    }
    if target_centilog < 0 {
        proof {
            lemma_pow10_inverse_neg(target_centilog as int, LINEAR_MAX as nat);
        }
        return 0;
    }
    let top = centi_log10_u128(LINEAR_MAX);
    if (top as i64) <= target_centilog {
        proof {
            lemma_pow10_inverse_locate(
                target_centilog as int,
                LINEAR_MAX as nat,
                LINEAR_MAX as nat,
            );
        }
        return LINEAR_MAX;
    }
    proof {
        lemma_centi_log10_at_one();
    }
    let mut lo: u128 = 1;
    let mut hi: u128 = LINEAR_MAX;
    while hi - lo > 1
        invariant
            1 <= lo < hi <= LINEAR_MAX,
            centi_log10(lo as nat) <= target_centilog as int,
            centi_log10(hi as nat) > target_centilog as int,
        decreases hi - lo,
    {
        let mid: u128 = lo + (hi - lo) / 2;
        let mid_log = centi_log10_u128(mid);
        if (mid_log as i64) <= target_centilog {
            lo = mid;
        } else {
            hi = mid;
        }
    }
    proof {
        lemma_pow10_inverse_locate(target_centilog as int, LINEAR_MAX as nat, lo as nat);
    }
    lo
}

} // verus!
