//! IEEE-754 single-precision numbers, held by their 32-bit patterns.
//!
//! The library computes with integers only. A single-precision number is
//! carried as the `u32` that `f32::to_bits` would give, and its value is
//! described exactly: every finite single is an integer multiple of 2^-149,
//! so `scaled_value` gives that integer.

use vstd::arithmetic::power2::{
    lemma2_to64, lemma_pow2_adds, lemma_pow2_pos, lemma_pow2_strictly_increases,
    lemma_pow2_unfold, pow2,
};
use vstd::prelude::*;

verus! {

/// The sign bit of the pattern: set for negative numbers and for -0.0.
pub open spec fn sign_bit(bits: u32) -> bool {
    bits >= 0x8000_0000
}

/// The eight-bit biased exponent field.
pub open spec fn exponent_field(bits: u32) -> nat {
    ((bits as nat) / 0x80_0000) % 256
}

/// The 23-bit fraction field.
pub open spec fn fraction_field(bits: u32) -> nat {
    (bits as nat) % 0x80_0000
}

/// Zero, subnormal or normal: neither an infinity nor a NaN.
pub open spec fn is_finite(bits: u32) -> bool {
    exponent_field(bits) != 255
}

/// The absolute value of a finite pattern, in units of 2^-149.
///
/// A subnormal is `fraction * 2^-149`; a normal number is
/// `(2^23 + fraction) * 2^(exponent - 150)`.
pub open spec fn magnitude(bits: u32) -> nat {
    if exponent_field(bits) == 0 {
        fraction_field(bits)
    } else {
        (0x80_0000 + fraction_field(bits)) * pow2((exponent_field(bits) - 1) as nat)
    }
}

/// The value of a finite pattern, in units of 2^-149.
pub open spec fn scaled_value(bits: u32) -> int {
    if sign_bit(bits) {
        -(magnitude(bits) as int)
    } else {
        magnitude(bits) as int
    }
}

/// The pattern is finite and its value is exactly `num / 2^15`.
pub open spec fn is_q15(bits: u32, num: int) -> bool {
    &&& is_finite(bits)
    &&& sign_bit(bits) == (num < 0)
    &&& scaled_value(bits) * 32768 == num * pow2(149)
}

/// The pattern is finite and its value lies in the closed interval [-1, 1].
pub open spec fn in_unit_interval(bits: u32) -> bool {
    &&& is_finite(bits)
    &&& -(pow2(149) as int) <= scaled_value(bits) <= pow2(149)
}

/// The distance from a finite pattern to the next one of larger magnitude, in
/// units of 2^-149.
pub open spec fn spacing(bits: u32) -> nat {
    if exponent_field(bits) == 0 {
        1
    } else {
        pow2((exponent_field(bits) - 1) as nat)
    }
}

/// The pattern is finite and its value differs from `num / den` by at most
/// half its spacing.
pub open spec fn rounds(bits: u32, num: int, den: int) -> bool {
    &&& den > 0
    &&& is_finite(bits)
    &&& 2 * (den * scaled_value(bits) - num * pow2(149)) <= den * spacing(bits)
    &&& 2 * (num * pow2(149) - den * scaled_value(bits)) <= den * spacing(bits)
}

/// The single-precision pattern of `s / 32768`.
///
/// The quotient of a 16-bit integer by 2^15 has at most 16 significant bits,
/// so it is a single-precision number and no rounding takes place. Zero maps
/// to +0.0.
pub fn from_q15(s: i16) -> (bits: u32)
    ensures
        is_q15(bits, s as int),
{
    if s == 0 {
        return 0;
    }
    let negative = s < 0;
    let wide: i32 = s as i32;
    let a: u32 = if negative { (-wide) as u32 } else { wide as u32 };
    // The value is m * 2^(e - 150) throughout: m starts as |s| and is doubled
    // until its leading bit is bit 23.
    let mut m: u32 = a;
    let mut e: u32 = 135;
    proof {
        lemma2_to64();
    }
    while m < 0x80_0000
        invariant
            1 <= a <= 32768,
            1 <= m < 0x100_0000,
            112 <= e <= 135,
            m >= pow2((135 - e) as nat),
            m * pow2((e - 1) as nat) == a * pow2(134),
        decreases e,
    {
        proof {
            lemma2_to64();
            lemma_pow2_unfold((e - 1) as nat);
            lemma_pow2_unfold((135 - e + 1) as nat);
            assert((2 * m) * pow2((e - 2) as nat) == m * (2 * pow2((e - 2) as nat)))
                by (nonlinear_arith);
        }
        m = m * 2;
        e = e - 1;
    }
    let sign: u32 = if negative { 0x8000_0000 } else { 0 };
    let bits: u32 = sign + e * 0x80_0000 + (m - 0x80_0000);
    proof {
        lemma_from_fields(negative, e as nat, (m - 0x80_0000) as nat, bits);
        lemma_pow2_adds(134, 15);
        lemma2_to64();
        let p = pow2((e - 1) as nat) as int;
        let q = pow2(134) as int;
        assert((m * p) * 32768 == a * (q * 32768)) by (nonlinear_arith)
            requires
                m * p == a * q,
        ;
        assert((-(m * p)) * 32768 == (-(a as int)) * (q * 32768)) by (nonlinear_arith)
            requires
                m * p == a * q,
        ;
    }
    bits
}

/// A pattern assembled from its three fields has those fields.
proof fn lemma_from_fields(negative: bool, exponent: nat, fraction: nat, bits: u32)
    requires
        exponent < 256,
        fraction < 0x80_0000,
        bits == (if negative { 0x8000_0000int } else { 0int }) + exponent * 0x80_0000 + fraction,
    ensures
        sign_bit(bits) == negative,
        exponent_field(bits) == exponent,
        fraction_field(bits) == fraction,
{
    let high: int = if negative { 256 } else { 0 };
    assert(bits as int == (high + exponent) * 0x80_0000 + fraction);
    assert((bits as nat) / 0x80_0000 == high + exponent);
}

/// A sample divided by 2^15 lies in the closed interval [-1, 1].
pub proof fn lemma_q15_in_unit_interval(bits: u32, num: int)
    requires
        is_q15(bits, num),
        -32768 <= num <= 32768,
    ensures
        in_unit_interval(bits),
{
    let v = scaled_value(bits);
    let p = pow2(149) as int;
    assert(-p <= v <= p) by (nonlinear_arith)
        requires
            v * 32768 == num * p,
            -32768 <= num <= 32768,
            p >= 0,
    ;
}

/// The magnitude of a finite pattern lies in the binade that its exponent
/// field names.
proof fn lemma_magnitude_bounds(bits: u32)
    requires
        is_finite(bits),
    ensures
        exponent_field(bits) == 0 ==> magnitude(bits) < pow2(23),
        exponent_field(bits) > 0 ==> pow2(exponent_field(bits) + 22) <= magnitude(bits) < pow2(
            exponent_field(bits) + 23,
        ),
{
    lemma2_to64();
    let e = exponent_field(bits);
    let f = fraction_field(bits) as int;
    if e > 0 {
        let p = pow2((e - 1) as nat) as int;
        lemma_pow2_adds(23, (e - 1) as nat);
        lemma_pow2_adds(24, (e - 1) as nat);
        lemma_pow2_pos((e - 1) as nat);
        assert(0x80_0000 * p <= (0x80_0000 + f) * p < 0x100_0000 * p) by (nonlinear_arith)
            requires
                0 <= f < 0x80_0000,
                p > 0,
        ;
    }
}

/// Two finite patterns with the same sign bit and the same value are the
/// same pattern: apart from the sign of zero, a value has one encoding.
pub proof fn lemma_value_determines_pattern(a: u32, b: u32)
    requires
        is_finite(a),
        is_finite(b),
        sign_bit(a) == sign_bit(b),
        scaled_value(a) == scaled_value(b),
    ensures
        a == b,
{
    let ea = exponent_field(a);
    let eb = exponent_field(b);
    assert(magnitude(a) == magnitude(b));
    lemma_magnitude_bounds(a);
    lemma_magnitude_bounds(b);
    if ea < eb {
        if ea + 23 < eb + 22 {
            lemma_pow2_strictly_increases(ea + 23, eb + 22);
        }
        assert(false);
    }
    if eb < ea {
        if eb + 23 < ea + 22 {
            lemma_pow2_strictly_increases(eb + 23, ea + 22);
        }
        assert(false);
    }
    if ea > 0 {
        let p = pow2((ea - 1) as nat) as int;
        let fa = fraction_field(a) as int;
        let fb = fraction_field(b) as int;
        lemma_pow2_pos((ea - 1) as nat);
        assert(fa == fb) by (nonlinear_arith)
            requires
                (0x80_0000 + fa) * p == (0x80_0000 + fb) * p,
                p > 0,
        ;
    }
    lemma_fields_determine_pattern(a, b);
}

/// A pattern is determined by its three fields.
proof fn lemma_fields_determine_pattern(a: u32, b: u32)
    requires
        sign_bit(a) == sign_bit(b),
        exponent_field(a) == exponent_field(b),
        fraction_field(a) == fraction_field(b),
    ensures
        a == b,
{
    let ha = (a as nat) / 0x80_0000;
    let hb = (b as nat) / 0x80_0000;
    assert(sign_bit(a) == (ha >= 256));
    assert(sign_bit(b) == (hb >= 256));
    assert(ha < 512 && hb < 512);
    assert(ha == hb);
}

} // verus!
