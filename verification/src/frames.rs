//! How many frames a performance of a given duration takes at a given rate.
//!
//! A duration is a number of seconds held as an IEEE 754 double. The library
//! carries it as the 64 bits of its encoding and works on those with integer
//! arithmetic: the frame count is the sample rate times the duration,
//! rounded as a double-precision multiplication rounds it, and then cut down
//! to a whole number.

use vstd::prelude::*;
use vstd::arithmetic::power2::{pow2, lemma2_to64, lemma_pow2_adds, lemma_pow2_pos, lemma_pow2_strictly_increases, lemma_pow2_unfold};
use vstd::arithmetic::div_mod::{lemma_basic_div, lemma_div_by_multiple, lemma_div_denominator, lemma_mod_multiples_basic};

verus! {

/// The lowest bit pattern with the sign bit set.
pub const SIGN_BIT: u64 = 0x8000_0000_0000_0000;

/// Two to the power 52: the weight of the hidden bit of a double.
pub const HIDDEN_BIT: u64 = 0x10_0000_0000_0000;

/// Two to the power 53: the first number that no longer fits a significand.
pub const SIGNIFICAND_LIMIT: u64 = 0x20_0000_0000_0000;

/// The exponent field that marks infinities and NaNs.
pub const EXPONENT_SPECIAL: u64 = 2047;

/// The encoding of a duration of exactly one second.
pub const ONE_SECOND: u64 = 0x3FF0_0000_0000_0000;

/// Whether the sign bit of the encoding is set.
pub open spec fn is_negative(bits: u64) -> bool {
    bits >= SIGN_BIT
}

/// The eleven exponent bits of the encoding.
pub open spec fn exponent_field(bits: u64) -> nat {
    ((bits as nat) / (HIDDEN_BIT as nat)) % 2048
}

/// The 52 fraction bits of the encoding.
pub open spec fn fraction_field(bits: u64) -> nat {
    (bits as nat) % (HIDDEN_BIT as nat)
}

/// Whether the encoding is a NaN.
pub open spec fn is_nan(bits: u64) -> bool {
    exponent_field(bits) == EXPONENT_SPECIAL && fraction_field(bits) != 0
}

/// Whether the encoding is an infinity.
pub open spec fn is_infinite(bits: u64) -> bool {
    exponent_field(bits) == EXPONENT_SPECIAL && fraction_field(bits) == 0
}

/// The integer significand of a finite double: its magnitude is
/// `significand(bits) * 2^binary_exponent(bits)`.
pub open spec fn significand(bits: u64) -> nat {
    if exponent_field(bits) == 0 {
        fraction_field(bits)
    } else {
        HIDDEN_BIT as nat + fraction_field(bits)
    }
}

/// The power of two that scales the integer significand of a finite double.
pub open spec fn binary_exponent(bits: u64) -> int {
    if exponent_field(bits) == 0 {
        -1074
    } else {
        exponent_field(bits) - 1075
    }
}

/// How many low bits `x` has to lose to fit the 53 bits of a significand.
pub open spec fn excess_bits(x: nat) -> nat
    decreases x,
{
    if x < SIGNIFICAND_LIMIT {
        0
    } else {
        1 + excess_bits(x / 2)
    }
}

/// `x / 2^drop`, rounded to the nearest integer, a tie going to the even one.
pub open spec fn round_half_even(x: nat, drop: nat) -> nat {
    let unit = pow2(drop);
    let quotient = x / unit;
    let rest = x % unit;
    if 2 * rest > unit || (2 * rest == unit && quotient % 2 == 1) {
        quotient + 1
    } else {
        quotient
    }
}

/// The whole part of `m * 2^e`.
pub open spec fn scaled_floor(m: nat, e: int) -> nat {
    if e >= 0 {
        m * pow2(e as nat)
    } else {
        m / pow2((-e) as nat)
    }
}

/// The whole part of the double nearest to `rate` times a finite,
/// non-negative duration.
pub open spec fn product_floor(rate: u32, bits: u64) -> nat {
    let exact = rate as nat * significand(bits);
    let drop = excess_bits(exact);
    scaled_floor(round_half_even(exact, drop), binary_exponent(bits) + drop)
}

/// The number of frames that `rate` frames per second make over a duration.
///
/// A negative duration and a NaN give no frames. What does not fit 64 bits,
/// an infinite duration included, gives `u64::MAX`.
pub open spec fn frame_count_of(rate: u32, bits: u64) -> nat {
    if rate == 0 || is_negative(bits) || is_nan(bits) {
        0
    } else if is_infinite(bits) || product_floor(rate, bits) > u64::MAX {
        u64::MAX as nat
    } else {
        product_floor(rate, bits)
    }
}

/// Two to the power `n`, for an `n` of at most 64.
fn power_of_two(n: u32) -> (p: u128)
    requires
        n <= 64,
    ensures
        p == pow2(n as nat),
        1 <= p <= 0x1_0000_0000_0000_0000,
{
    let mut p: u128 = 1;
    let mut i: u32 = 0;
    proof {
        lemma2_to64();
    }
    while i < n
        invariant
            i <= n <= 64,
            p == pow2(i as nat),
            1 <= p,
            pow2(64) == 0x1_0000_0000_0000_0000,
        decreases n - i,
    {
        proof {
            lemma_pow2_unfold((i + 1) as nat);
            if i + 1 < 64 {
                lemma_pow2_strictly_increases((i + 1) as nat, 64);
            }
        }
        p = p * 2;
        i = i + 1;
    }
    proof {
        if n < 64 {
            lemma_pow2_strictly_increases(n as nat, 64);
        }
    }
    p
}

/// Computes the number of frames for a sample rate and a duration given by
/// the bits of its double-precision encoding.
pub fn frame_count(sample_rate: u32, duration_bits: u64) -> (frames: u64)
    ensures
        frames == frame_count_of(sample_rate, duration_bits),
{
    if sample_rate == 0 || duration_bits >= SIGN_BIT {
        return 0;
    }
    let exponent: u64 = duration_bits / HIDDEN_BIT;
    let fraction: u64 = duration_bits % HIDDEN_BIT;
    assert(exponent == exponent_field(duration_bits));
    assert(fraction == fraction_field(duration_bits));
    if exponent == EXPONENT_SPECIAL {
        return if fraction != 0 { 0 } else { u64::MAX };
    }
    let mantissa: u64 = if exponent == 0 { fraction } else { HIDDEN_BIT + fraction };
    assert(mantissa == significand(duration_bits));
    assert(sample_rate as int * mantissa as int <= 0xFFFF_FFFF * 0x1F_FFFF_FFFF_FFFF) by (nonlinear_arith)
        requires
            0 <= sample_rate <= 0xFFFF_FFFF,
            0 <= mantissa <= 0x1F_FFFF_FFFF_FFFF,
    ;
    let exact: u128 = (sample_rate as u128) * (mantissa as u128);
    assert(exact < 0x20_0000_0000_0000_0000_0000);
    let mut drop: u32 = 0;
    let mut unit: u128 = 1;
    proof {
        lemma2_to64();
    }
    while exact / unit >= SIGNIFICAND_LIMIT as u128
        invariant
            drop <= 32,
            unit == pow2(drop as nat),
            1 <= unit <= 0x1_0000_0000,
            exact < 0x20_0000_0000_0000_0000_0000,
            excess_bits(exact as nat) == drop + excess_bits((exact / unit) as nat),
            pow2(32) == 0x1_0000_0000,
        decreases 32 - drop,
    {
        proof {
            if drop == 32 {
                assert(unit == 0x1_0000_0000);
                assert(exact / 0x1_0000_0000 < 0x20_0000_0000_0000);
            }
            assert(drop < 32);
            lemma_pow2_unfold((drop + 1) as nat);
            if drop + 1 < 32 {
                lemma_pow2_strictly_increases((drop + 1) as nat, 32);
            }
            lemma_div_denominator(exact as int, unit as int, 2);
        }
        unit = unit * 2;
        drop = drop + 1;
    }
    let quotient: u128 = exact / unit;
    let rest: u128 = exact % unit;
    let kept: u128 = if 2 * rest > unit || (2 * rest == unit && quotient % 2 == 1) {
        quotient + 1
    } else {
        quotient
    };
    assert(kept == round_half_even(exact as nat, drop as nat));
    assert(kept <= SIGNIFICAND_LIMIT);
    let base: i64 = if exponent == 0 { -1074 } else { exponent as i64 - 1075 };
    let scale: i64 = base + drop as i64;
    assert(scale == binary_exponent(duration_bits) + excess_bits(exact as nat));
    assert(product_floor(sample_rate, duration_bits) == scaled_floor(kept as nat, scale as int));
    if scale >= 0 {
        if kept == 0 {
            assert(0 * pow2(scale as nat) == 0);
            0
        } else if scale >= 64 {
            proof {
                if scale > 64 {
                    lemma_pow2_strictly_increases(64, scale as nat);
                }
                assert(kept * pow2(scale as nat) >= pow2(scale as nat)) by (nonlinear_arith)
                    requires
                        kept >= 1,
                ;
            }
            u64::MAX
        } else {
            let factor: u128 = power_of_two(scale as u32);
            proof {
                lemma_pow2_strictly_increases(scale as nat, 64);
                assert(kept * factor <= 0x20_0000_0000_0000 * 0x1_0000_0000_0000_0000) by (nonlinear_arith)
                    requires
                        0 <= kept <= 0x20_0000_0000_0000,
                        0 <= factor <= 0x1_0000_0000_0000_0000,
                ;
            }
            let whole: u128 = kept * factor;
            if whole > u64::MAX as u128 {
                u64::MAX
            } else {
                whole as u64
            }
        }
    } else {
        if scale <= -64 {
            proof {
                if scale < -64 {
                    lemma_pow2_strictly_increases(64, (-scale) as nat);
                }
                lemma_basic_div(kept as int, pow2((-scale) as nat) as int);
            }
            0
        } else {
            let divisor: u128 = power_of_two((-scale) as u32);
            (kept / divisor) as u64
        }
    }
}

/// A performance of no duration takes no frames, at any rate.
pub proof fn lemma_zero_duration_takes_no_frames(rate: u32)
    ensures
        frame_count_of(rate, 0) == 0,
{
    lemma_pow2_pos(0);
    lemma_pow2_pos(1074);
    assert(significand(0) == 0);
    assert(rate as nat * 0 == 0);
    assert(excess_bits(0) == 0);
    lemma2_to64();
    assert(round_half_even(0, 0) == 0);
    lemma_basic_div(0, pow2(1074) as int);
}

/// Where the sample rate times the significand fits a significand, nothing
/// is rounded: the frame count is the whole part of the exact product of
/// rate and duration.
pub proof fn lemma_exact_product_is_not_rounded(rate: u32, bits: u64)
    requires
        rate as nat * significand(bits) < SIGNIFICAND_LIMIT,
    ensures
        product_floor(rate, bits) == scaled_floor(rate as nat * significand(bits), binary_exponent(bits)),
{
    let exact = rate as nat * significand(bits);
    assert(excess_bits(exact) == 0);
    lemma2_to64();
    assert(round_half_even(exact, 0) == exact);
}

/// What is left after the excess bits are gone fits a significand, and a
/// number below `2^(53 + n)` has at most `n` excess bits.
proof fn lemma_excess_bits(x: nat, n: nat)
    requires
        x < SIGNIFICAND_LIMIT * pow2(n),
    ensures
        excess_bits(x) <= n,
        x / pow2(excess_bits(x)) < SIGNIFICAND_LIMIT,
    decreases x,
{
    lemma2_to64();
    if x >= SIGNIFICAND_LIMIT {
        if n == 0 {
            assert(false);
        }
        let m = (n - 1) as nat;
        lemma_pow2_unfold(n);
        assert(x / 2 < SIGNIFICAND_LIMIT * pow2(m)) by (nonlinear_arith)
            requires
                x < SIGNIFICAND_LIMIT * (2 * pow2(m)),
        ;
        lemma_excess_bits(x / 2, m);
        let rest = excess_bits(x / 2);
        lemma_pow2_unfold(rest + 1);
        lemma_pow2_pos(rest);
        lemma_div_denominator(x as int, 2, pow2(rest) as int);
    }
}

/// One second takes exactly as many frames as the sample rate says.
pub proof fn lemma_one_second_takes_rate_frames(rate: u32)
    ensures
        frame_count_of(rate, ONE_SECOND) == rate,
{
    lemma2_to64();
    assert(exponent_field(ONE_SECOND) == 1023);
    assert(fraction_field(ONE_SECOND) == 0);
    assert(significand(ONE_SECOND) == HIDDEN_BIT);
    if rate > 0 {
        let exact = rate as nat * (HIDDEN_BIT as nat);
        assert(exact < SIGNIFICAND_LIMIT * pow2(32)) by (nonlinear_arith)
            requires
                exact == rate as nat * (HIDDEN_BIT as nat),
                rate < 0x1_0000_0000,
                pow2(32) == 0x1_0000_0000,
                HIDDEN_BIT == 0x10_0000_0000_0000,
                SIGNIFICAND_LIMIT == 0x20_0000_0000_0000,
        ;
        lemma_excess_bits(exact, 32);
        let drop = excess_bits(exact);
        let keep = (52 - drop) as nat;
        lemma_pow2_adds(drop, keep);
        lemma_hidden_bit_is_a_power();
        assert(pow2(52) == HIDDEN_BIT);
        lemma_pow2_pos(drop);
        lemma_pow2_pos(keep);
        let unit = pow2(drop);
        let part = rate as nat * pow2(keep);
        assert(exact == part * unit) by (nonlinear_arith)
            requires
                exact == rate as nat * (HIDDEN_BIT as nat),
                HIDDEN_BIT as nat == unit * pow2(keep),
                part == rate as nat * pow2(keep),
        ;
        lemma_mod_multiples_basic(part as int, unit as int);
        lemma_div_by_multiple(part as int, unit as int);
        assert(round_half_even(exact, drop) == part);
        lemma_div_by_multiple(rate as int, pow2(keep) as int);
        assert(binary_exponent(ONE_SECOND) + drop == -(keep as int));
        assert(keep > 0);
        assert(scaled_floor(part, -(keep as int)) == rate);
    }
}

/// Two to the power 52.
proof fn lemma_hidden_bit_is_a_power()
    ensures
        pow2(52) == 0x10_0000_0000_0000,
{
    lemma2_to64();
    lemma_pow2_adds(32, 20);
}

} // verus!
