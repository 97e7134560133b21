//! The IEEE-754 double encoding of integers that doubles hold exactly.
//!
//! Numbers reach the engine as doubles; an integer of magnitude below `2^53`
//! converts without rounding, so its encoding is a plain function of it.

use vstd::prelude::*;
use vstd::arithmetic::power2::{
    pow2, lemma_pow2_strictly_increases, lemma_pow2_unfold, lemma_pow2_adds, lemma_pow2_pos, lemma2_to64,
    lemma2_to64_rest,
};
use vstd::arithmetic::div_mod::{lemma_div_multiples_vanish_fancy, lemma_div_multiples_vanish, lemma_fundamental_div_mod};
use vstd::bits::{lemma_u64_shr_is_div, lemma_u64_shl_is_mul, lemma_u64_pow2_no_overflow};

verus! {

/// `e` is the position of the highest set bit of `m`.
pub open spec fn is_exponent(m: nat, e: nat) -> bool {
    pow2(e) <= m && m < pow2(e + 1)
}

/// The position of the highest set bit of a positive `m`.
pub open spec fn exponent_of(m: nat) -> nat {
    choose|e: nat| is_exponent(m, e)
}

/// The IEEE-754 bits of the double equal to `n`, for `|n| < 2^53`: sign bit,
/// biased exponent `1023 + e`, and the bits of `|n|` below its highest one,
/// left-aligned in the 52-bit fraction.
pub open spec fn double_bits_of_int(n: int) -> u64 {
    if n == 0 {
        0
    } else {
        let m: nat = if n < 0 { (-n) as nat } else { n as nat };
        let e = exponent_of(m);
        let sign: int = if n < 0 { 0x8000_0000_0000_0000 } else { 0 };
        (sign + (1023 + e) * 0x10_0000_0000_0000 + (m - pow2(e)) * pow2((52 - e) as nat)) as u64
    }
}

/// The highest set bit of a number is unique.
pub proof fn lemma_exponent_unique(m: nat, e1: nat, e2: nat)
    requires
        is_exponent(m, e1),
        is_exponent(m, e2),
    ensures
        e1 == e2,
{
    if e1 < e2 {
        if e1 + 1 < e2 {
            lemma_pow2_strictly_increases(e1 + 1, e2);
        }
    } else if e2 < e1 {
        if e2 + 1 < e1 {
            lemma_pow2_strictly_increases(e2 + 1, e1);
        }
    }
}

/// Every positive number has a highest set bit.
pub proof fn lemma_exponent_exists(m: nat)
    requires
        m > 0,
    ensures
        is_exponent(m, exponent_of(m)),
    decreases m,
{
    lemma2_to64();
    if m == 1 {
        assert(is_exponent(1, 0));
    } else {
        lemma_exponent_exists(m / 2);
        let e = exponent_of(m / 2);
        lemma_pow2_unfold(e + 1);
        lemma_pow2_unfold(e + 2);
        assert(is_exponent(m, e + 1));
    }
}

/// A positive integer below `2^53` encodes to a nonnegative double below the
/// sign bit, with an exponent of at most 52.
pub proof fn lemma_double_bits_positive(m: nat)
    requires
        0 < m < 0x20_0000_0000_0000,
    ensures
        exponent_of(m) <= 52,
        double_bits_of_int(m as int) as int == (1023 + exponent_of(m)) * 0x10_0000_0000_0000 + (m
            - pow2(exponent_of(m))) * pow2((52 - exponent_of(m)) as nat),
        double_bits_of_int(m as int) < 0x8000_0000_0000_0000u64,
{
    lemma2_to64();
    lemma2_to64_rest();
    lemma_exponent_exists(m);
    let e = exponent_of(m);
    if e > 52 {
        if e > 53 {
            lemma_pow2_strictly_increases(53, e);
        }
    }
    let shift = (52 - e) as nat;
    lemma_pow2_adds(e, shift);
    lemma_pow2_pos(shift);
    assert((m - pow2(e)) * pow2(shift) < 0x10_0000_0000_0000) by (nonlinear_arith)
        requires
            m - pow2(e) < pow2(e),
            pow2(e) * pow2(shift) == 0x10_0000_0000_0000,
            pow2(shift) > 0;
    assert(0 <= (m - pow2(e)) * pow2(shift)) by (nonlinear_arith)
        requires
            m - pow2(e) >= 0,
            pow2(shift) > 0;
}

/// The double bits of `m`, for `0 < m < 2^53`.
fn positive_to_double_bits(m: u64) -> (r: u64)
    requires
        0 < m < 0x20_0000_0000_0000,
    ensures
        r == double_bits_of_int(m as int),
        r < 0x8000_0000_0000_0000u64,
        r as int == (1023 + exponent_of(m as nat)) * 0x10_0000_0000_0000 + (m - pow2(
            exponent_of(m as nat),
        )) * pow2((52 - exponent_of(m as nat)) as nat),
{
    proof {
        lemma2_to64();
        lemma2_to64_rest();
    }
    let mut e: u64 = 0;
    while e < 52 && (m >> (e + 1)) != 0
        invariant
            e <= 52,
            0 < m < 0x20_0000_0000_0000,
            pow2(e as nat) <= m,
        decreases 52 - e,
    {
        proof {
            lemma_u64_shr_is_div(m, (e + 1) as u64);
            lemma_pow2_pos((e + 1) as nat);
            assert(m as nat / pow2((e + 1) as nat) != 0);
            assert(m >= pow2((e + 1) as nat)) by (nonlinear_arith)
                requires
                    m as nat / pow2((e + 1) as nat) != 0,
                    pow2((e + 1) as nat) > 0;
        }
        e = e + 1;
    }
    proof {
        if e < 52 {
            lemma_u64_shr_is_div(m, (e + 1) as u64);
            lemma_pow2_pos((e + 1) as nat);
            assert(m < pow2((e + 1) as nat)) by (nonlinear_arith)
                requires
                    m as nat / pow2((e + 1) as nat) == 0,
                    pow2((e + 1) as nat) > 0;
        }
        assert(is_exponent(m as nat, e as nat));
        lemma_exponent_unique(m as nat, e as nat, exponent_of(m as nat));
        lemma_u64_pow2_no_overflow(e as nat);
        lemma_u64_shl_is_mul(1, e);
    }
    let top: u64 = 1u64 << e;
    assert(top == pow2(e as nat));
    let low: u64 = m - top;
    let shift: u64 = 52 - e;
    proof {
        lemma_pow2_adds(e as nat, shift as nat);
        assert(low < pow2(e as nat));
        lemma_pow2_pos(shift as nat);
        assert(low * pow2(shift as nat) < 0x10_0000_0000_0000) by (nonlinear_arith)
            requires
                low < pow2(e as nat),
                pow2(e as nat) * pow2(shift as nat) == 0x10_0000_0000_0000,
                pow2(shift as nat) > 0;
        lemma_u64_shl_is_mul(low, shift);
    }
    let fraction: u64 = low << shift;
    let biased: u64 = 1023 + e;
    assert(biased << 52u64 == biased * 0x10_0000_0000_0000) by (bit_vector)
        requires biased <= 1075;
    assert((biased << 52u64) | fraction == (biased << 52u64) + fraction) by (bit_vector)
        requires fraction < 0x10_0000_0000_0000, biased <= 1075;
    (biased << 52) | fraction
}

/// The double bits of the unsigned integer `u`.
pub fn u32_to_double_bits(u: u32) -> (r: u64)
    ensures
        r == double_bits_of_int(u as int),
        r < 0x8000_0000_0000_0000u64,
{
    if u == 0 {
        0
    } else {
        positive_to_double_bits(u as u64)
    }
}

/// The double bits of the signed integer `i`.
pub fn i32_to_double_bits(i: i32) -> (r: u64)
    ensures
        r == double_bits_of_int(i as int),
{
    if i == 0 {
        0
    } else if i > 0 {
        positive_to_double_bits(i as u64)
    } else {
        let magnitude: u64 = (0 - (i as i64)) as u64;
        assert(magnitude as int == -(i as int));
        let bits = positive_to_double_bits(magnitude);
        assert(bits | 0x8000_0000_0000_0000u64 == bits + 0x8000_0000_0000_0000u64) by (bit_vector)
            requires bits < 0x8000_0000_0000_0000u64;
        bits | 0x8000_0000_0000_0000
    }
}

/// The value of the finite double with IEEE-754 bits `bits`, truncated
/// toward zero: sign, and the significand (with its implicit leading one)
/// scaled by the unbiased exponent. Zero and subnormals give zero.
pub open spec fn double_integer_value(bits: u64) -> int {
    let biased = (bits as int / 0x10_0000_0000_0000) % 0x800;
    let significand = 0x10_0000_0000_0000 + bits as int % 0x10_0000_0000_0000;
    let magnitude = if biased == 0 {
        0
    } else if biased >= 1075 {
        significand * (pow2((biased - 1075) as nat) as int)
    } else {
        significand / (pow2((1075 - biased) as nat) as int)
    };
    if bits as int >= 0x8000_0000_0000_0000 {
        -magnitude
    } else {
        magnitude
    }
}

proof fn lemma_positive_value(m: nat)
    requires
        0 < m < 0x20_0000_0000_0000,
    ensures
        (double_bits_of_int(m as int) as int / 0x10_0000_0000_0000) % 0x800 == 1023 + exponent_of(m),
        double_bits_of_int(m as int) as int % 0x10_0000_0000_0000 == (m - pow2(exponent_of(m)))
            * pow2((52 - exponent_of(m)) as nat),
        double_integer_value(double_bits_of_int(m as int)) == m,
{
    lemma_double_bits_positive(m);
    lemma_exponent_exists(m);
    let e = exponent_of(m);
    let shift = (52 - e) as nat;
    let f = (m - pow2(e)) * pow2(shift);
    let bits = double_bits_of_int(m as int) as int;
    lemma_pow2_adds(e, shift);
    lemma_pow2_pos(shift);
    lemma2_to64();
    lemma2_to64_rest();
    assert(0 <= f < 0x10_0000_0000_0000) by (nonlinear_arith)
        requires
            f == (m - pow2(e)) * pow2(shift),
            0 <= m - pow2(e) < pow2(e),
            pow2(e) * pow2(shift) == 0x10_0000_0000_0000,
            pow2(shift) > 0;
    assert(bits == 0x10_0000_0000_0000 * (1023 + e) + f);
    lemma_div_multiples_vanish_fancy((1023 + e) as int, f as int, 0x10_0000_0000_0000int);
    assert(bits / 0x10_0000_0000_0000 == 1023 + e);
    lemma_fundamental_div_mod(bits, 0x10_0000_0000_0000int);
    assert(bits % 0x10_0000_0000_0000 == f);
    let significand = 0x10_0000_0000_0000 + f;
    assert(significand == m * pow2(shift)) by (nonlinear_arith)
        requires
            significand == 0x10_0000_0000_0000 + f,
            f == (m - pow2(e)) * pow2(shift),
            pow2(e) * pow2(shift) == 0x10_0000_0000_0000;
    if e == 52 {
        assert(shift == 0);
        assert(pow2(shift) == 1);
        assert(significand == m) by (nonlinear_arith)
            requires
                significand == m * pow2(shift),
                pow2(shift) == 1;
        assert(significand * pow2(0) == m);
    } else {
        lemma_div_multiples_vanish(m as int, pow2(shift) as int);
        assert(pow2(shift) * m == m * pow2(shift)) by (nonlinear_arith);
        assert(significand / (pow2(shift) as int) == m);
        assert((1075 - (1023 + e)) as nat == shift);
    }
}

/// The double that `double_bits_of_int` encodes has the value it was built
/// from.
pub proof fn lemma_double_bits_of_int_value(n: int)
    requires
        -0x20_0000_0000_0000 < n < 0x20_0000_0000_0000,
    ensures
        double_integer_value(double_bits_of_int(n)) == n,
{
    if n > 0 {
        lemma_positive_value(n as nat);
    } else if n < 0 {
        let m = (-n) as nat;
        lemma_positive_value(m);
        lemma_double_bits_positive(m);
        let x = double_bits_of_int(m as int) as int;
        let bits = double_bits_of_int(n) as int;
        assert(bits == 0x8000_0000_0000_0000 + x);
        assert(bits / 0x10_0000_0000_0000 == 0x800 + x / 0x10_0000_0000_0000);
        assert(bits % 0x10_0000_0000_0000 == x % 0x10_0000_0000_0000);
    }
}

} // verus!
