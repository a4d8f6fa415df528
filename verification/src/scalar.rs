//! Double-precision numbers as plain data.
//!
//! The library never computes with fractional numbers. It carries each one as
//! its IEEE 754 binary64 bit pattern and only ever compares two of them. The
//! order of two patterns is read off the patterns themselves: the top bit is
//! the sign, the remaining 63 bits grow with the magnitude, and every pattern
//! above that of infinity is a NaN, which compares false with everything.

use vstd::prelude::*;
use vstd::arithmetic::power2::{lemma2_to64, lemma2_to64_rest, lemma_pow2_adds, lemma_pow2_strictly_increases, lemma_pow2_unfold, pow2};

verus! {

/// The sign bit of a binary64 pattern.
pub const SIGN_BIT: u64 = 0x8000_0000_0000_0000;

/// The pattern of positive infinity; the magnitudes above it are NaNs.
pub const INFINITY_BITS: u64 = 0x7FF0_0000_0000_0000;

/// A double-precision number, held by its IEEE 754 bit pattern.
#[derive(Clone, Copy, Debug, PartialEq, Eq, Structural)]
pub struct Scalar {
    pub bits: u64,
}

/// A complex number with double-precision parts.
#[derive(Clone, Copy, Debug, PartialEq, Eq, Structural)]
pub struct Complex {
    pub re: Scalar,
    pub im: Scalar,
}

impl Scalar {
    /// The pattern without its sign bit.
    pub open spec fn magnitude(self) -> int {
        if self.bits >= SIGN_BIT {
            self.bits - SIGN_BIT
        } else {
            self.bits as int
        }
    }

    /// The sign bit is set.
    pub open spec fn is_negative(self) -> bool {
        self.bits >= SIGN_BIT
    }

    /// The pattern encodes no number.
    pub open spec fn is_nan(self) -> bool {
        self.magnitude() > INFINITY_BITS
    }

    /// The place of the number on the line: patterns of numbers that are not
    /// NaN are ordered as their ranks are, and the two zeros share rank zero.
    pub open spec fn rank(self) -> int {
        if self.is_negative() {
            -self.magnitude()
        } else {
            self.magnitude()
        }
    }

    /// `self > other` as IEEE 754 defines it.
    pub open spec fn exceeds(self, other: Scalar) -> bool {
        !self.is_nan() && !other.is_nan() && self.rank() > other.rank()
    }

    /// `self >= other` as IEEE 754 defines it.
    pub open spec fn at_least(self, other: Scalar) -> bool {
        !self.is_nan() && !other.is_nan() && self.rank() >= other.rank()
    }

    /// Wraps a bit pattern.
    pub fn from_bits(bits: u64) -> (s: Scalar)
        ensures
            s.bits == bits,
    {
        Scalar { bits }
    }

    /// The bit pattern.
    pub fn to_bits(self) -> (bits: u64)
        ensures
            bits == self.bits,
    {
        self.bits
    }

    /// Tells whether the pattern is a NaN.
    pub fn check_nan(self) -> (r: bool)
        ensures
            r == self.is_nan(),
    {
        if self.bits >= SIGN_BIT {
            self.bits - SIGN_BIT > INFINITY_BITS
        } else {
            self.bits > INFINITY_BITS
        }
    }

    /// The rank as a machine integer.
    fn rank_value(self) -> (r: i128)
        ensures
            r == self.rank(),
    {
        if self.bits >= SIGN_BIT {
            let m: u64 = self.bits - SIGN_BIT;
            let wide: i128 = m as i128;
            0 - wide
        } else {
            self.bits as i128
        }
    }

    /// `self > other`.
    pub fn gt(self, other: Scalar) -> (r: bool)
        ensures
            r == self.exceeds(other),
    {
        !self.check_nan() && !other.check_nan() && self.rank_value() > other.rank_value()
    }

    /// `self >= other`.
    pub fn ge(self, other: Scalar) -> (r: bool)
        ensures
            r == self.at_least(other),
    {
        !self.check_nan() && !other.check_nan() && self.rank_value() >= other.rank_value()
    }

    /// `self < other`.
    pub fn lt(self, other: Scalar) -> (r: bool)
        ensures
            r == other.exceeds(self),
    {
        other.gt(self)
    }

    /// `self <= other`.
    pub fn le(self, other: Scalar) -> (r: bool)
        ensures
            r == other.at_least(self),
    {
        other.ge(self)
    }
}

/// Two to the power 52: the weight of the implicit leading bit of a significand.
pub const HIDDEN_BIT: u64 = 0x10_0000_0000_0000;

/// The largest number of fractional digits that [`Scalar::round_to`] takes.
pub const MAX_DIGITS: u32 = 22;

/// A number rounded to a fixed count of fractional decimal digits.
///
/// Two numbers round to the same value exactly when they are written alike
/// with that many digits after the point: a NaN as such, an infinity with its
/// sign, a number at or above two to the power 52 as itself (it has no
/// fractional part), and any other number as a sign and a count of units of
/// the last digit. A negative number that rounds to zero keeps its sign.
#[derive(Clone, Copy, Debug, PartialEq, Eq, Structural)]
pub enum Rounded {
    NotANumber,
    Infinite { negative: bool },
    Whole { negative: bool, magnitude: u64 },
    Fraction { negative: bool, units: u128 },
}

/// Ten to the power `digits`.
pub open spec fn pow10(digits: nat) -> nat
    decreases digits,
{
    if digits == 0 {
        1
    } else {
        10 * pow10((digits - 1) as nat)
    }
}

/// The quotient of two naturals, rounded to the nearest whole; a tie goes to
/// the even neighbour.
pub open spec fn round_half_even(numerator: nat, denominator: nat) -> nat {
    let quotient = numerator / denominator;
    let rest = numerator % denominator;
    if 2 * rest > denominator || (2 * rest == denominator && quotient % 2 == 1) {
        quotient + 1
    } else {
        quotient
    }
}

impl Scalar {
    /// The exponent field of the pattern.
    pub open spec fn exponent_field(self) -> int {
        self.magnitude() / (HIDDEN_BIT as int)
    }

    /// The fraction field of the pattern.
    pub open spec fn fraction_field(self) -> int {
        self.magnitude() % (HIDDEN_BIT as int)
    }

    /// The significand `m` of a finite number `m * 2^e`.
    pub open spec fn significand(self) -> nat {
        if self.exponent_field() == 0 {
            self.fraction_field() as nat
        } else {
            (HIDDEN_BIT + self.fraction_field()) as nat
        }
    }

    /// The exponent `e` of a finite number `m * 2^e`.
    pub open spec fn binary_exponent(self) -> int {
        if self.exponent_field() == 0 {
            -1074
        } else {
            self.exponent_field() - 1075
        }
    }

    /// The number rounded to `digits` fractional decimal digits, ties to even.
    pub open spec fn rounded(self, digits: nat) -> Rounded {
        if self.is_nan() {
            Rounded::NotANumber
        } else if self.magnitude() == INFINITY_BITS {
            Rounded::Infinite { negative: self.is_negative() }
        } else if self.binary_exponent() >= 0 {
            Rounded::Whole { negative: self.is_negative(), magnitude: self.magnitude() as u64 }
        } else {
            Rounded::Fraction {
                negative: self.is_negative(),
                units: round_half_even(
                    self.significand() * pow10(digits),
                    pow2((-self.binary_exponent()) as nat),
                ) as u128,
            }
        }
    }
}

/// Ten to the power `digits` stays below two to the power 74 for up to 22 digits.
proof fn lemma_pow10_bound(digits: nat)
    requires
        digits <= 22,
    ensures
        pow10(digits) <= 10_000_000_000_000_000_000_000,
        pow10(digits) >= 1,
    decreases digits,
{
    reveal_with_fuel(pow10, 23);
}

/// Computes ten to the power `digits`.
fn power_of_ten(digits: u32) -> (p: u128)
    requires
        digits <= MAX_DIGITS,
    ensures
        p == pow10(digits as nat),
        1 <= p <= 10_000_000_000_000_000_000_000,
{
    let mut p: u128 = 1;
    let mut i: u32 = 0;
    while i < digits
        invariant
            i <= digits <= MAX_DIGITS,
            p == pow10(i as nat),
        decreases digits - i,
    {
        proof {
            lemma_pow10_bound(i as nat);
            lemma_pow10_bound((i + 1) as nat);
        }
        p = p * 10;
        i += 1;
    }
    proof {
        lemma_pow10_bound(digits as nat);
    }
    p
}

/// Two to the power 127, and the powers below it stay below it.
proof fn lemma_pow2_bound(k: nat)
    requires
        k <= 127,
    ensures
        pow2(k) <= 0x8000_0000_0000_0000_0000_0000_0000_0000,
        pow2(127) == 0x8000_0000_0000_0000_0000_0000_0000_0000,
        pow2(k) >= 1,
{
    lemma2_to64();
    lemma2_to64_rest();
    lemma_pow2_adds(64, 63);
    assert(pow2(127) == 0x8000_0000_0000_0000_0000_0000_0000_0000) by {
        assert(pow2(64) == 0x1_0000_0000_0000_0000);
        assert(pow2(63) == 0x8000_0000_0000_0000);
        assert(0x1_0000_0000_0000_0000 * 0x8000_0000_0000_0000
            == 0x8000_0000_0000_0000_0000_0000_0000_0000) by (nonlinear_arith);
    }
    if k < 127 {
        lemma_pow2_strictly_increases(k, 127);
    }
    vstd::arithmetic::power2::lemma_pow2_pos(k);
}

/// Computes two to the power `k`.
fn power_of_two(k: u64) -> (p: u128)
    requires
        k <= 127,
    ensures
        p == pow2(k as nat),
        1 <= p <= 0x8000_0000_0000_0000_0000_0000_0000_0000,
{
    let mut p: u128 = 1;
    let mut i: u64 = 0;
    proof {
        lemma2_to64();
    }
    while i < k
        invariant
            i <= k <= 127,
            p == pow2(i as nat),
        decreases k - i,
    {
        proof {
            lemma_pow2_bound(i as nat);
            lemma_pow2_bound((i + 1) as nat);
            lemma_pow2_unfold((i + 1) as nat);
        }
        p = p * 2;
        i += 1;
    }
    proof {
        lemma_pow2_bound(k as nat);
    }
    p
}

/// Rounds a quotient to the nearest whole, ties to even.
fn divide_rounding(numerator: u128, denominator: u128) -> (q: u128)
    requires
        denominator > 0,
        numerator < u128::MAX,
    ensures
        q == round_half_even(numerator as nat, denominator as nat),
{
    let quotient = numerator / denominator;
    let rest = numerator % denominator;
    let gap = denominator - rest;
    if rest > gap || (rest == gap && quotient % 2 == 1) {
        quotient + 1
    } else {
        quotient
    }
}

impl Scalar {
    /// Rounds the number to `digits` fractional decimal digits, ties to even.
    pub fn round_to(self, digits: u32) -> (r: Rounded)
        requires
            digits <= MAX_DIGITS,
        ensures
            r == self.rounded(digits as nat),
    {
        let negative = self.bits >= SIGN_BIT;
        let magnitude: u64 = if negative {
            self.bits - SIGN_BIT
        } else {
            self.bits
        };
        if magnitude > INFINITY_BITS {
            return Rounded::NotANumber;
        }
        if magnitude == INFINITY_BITS {
            return Rounded::Infinite { negative };
        }
        let field: u64 = magnitude / HIDDEN_BIT;
        let fraction: u64 = magnitude % HIDDEN_BIT;
        if field >= 1075 {
            return Rounded::Whole { negative, magnitude };
        }
        let significand: u64 = if field == 0 {
            fraction
        } else {
            HIDDEN_BIT + fraction
        };
        let shift: u64 = if field == 0 {
            1074
        } else {
            1075 - field
        };
        let scale = power_of_ten(digits);
        assert(significand as u128 * scale <= 90_071_992_547_409_920_000_000_000_000_000_000_000)
            by (nonlinear_arith)
            requires
                significand < 0x20_0000_0000_0000,
                scale <= 10_000_000_000_000_000_000_000,
        ;
        let numerator: u128 = significand as u128 * scale;
        if shift >= 128 {
            proof {
                let d = pow2(shift as nat);
                lemma_pow2_bound(127);
                lemma_pow2_unfold(128);
                if shift > 128 {
                    lemma_pow2_strictly_increases(128, shift as nat);
                }
                assert(2 * numerator < d);
                assert(numerator as nat / d == 0 && numerator as nat % d == numerator) by {
                    vstd::arithmetic::div_mod::lemma_small_mod(numerator as nat, d);
                    vstd::arithmetic::div_mod::lemma_basic_div(numerator as int, d as int);
                }
            }
            Rounded::Fraction { negative, units: 0 }
        } else {
            let denominator = power_of_two(shift);
            Rounded::Fraction { negative, units: divide_rounding(numerator, denominator) }
        }
    }
}

} // verus!
