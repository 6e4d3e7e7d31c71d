//! Double-precision numbers, held by their bit patterns.
//!
//! Coordinates, pressures and scale factors are carried from the platform to the application
//! unchanged. The few places that compare such a number do so on its bits, and their contracts
//! say what that means for the number itself.
use vstd::arithmetic::power2::{lemma_pow2_strictly_increases, lemma_pow2_unfold, pow2};
use vstd::prelude::*;

verus! {

/// An IEEE 754 binary64 number, given by its 64 bits.
#[derive(Clone, Copy, Debug, PartialEq, Eq, Hash, Structural)]
pub struct Binary64 {
    pub bits: u64,
}

/// The bits of the number 0.
pub const ZERO_BITS: u64 = 0;

/// The bits of the number 0 with the sign set.
pub const MINUS_ZERO_BITS: u64 = 0x8000_0000_0000_0000;

/// The bits of the number 1.
pub const ONE_BITS: u64 = 0x3ff0_0000_0000_0000;

/// The bits of the number -1.
pub const MINUS_ONE_BITS: u64 = 0xbff0_0000_0000_0000;

/// The bits of the positive infinity.
pub const INFINITY_BITS: u64 = 0x7ff0_0000_0000_0000;

impl Binary64 {
    /// The sign bit.
    pub open spec fn negative(self) -> bool {
        self.bits >= 0x8000_0000_0000_0000
    }

    /// The eleven exponent bits.
    pub open spec fn exponent(self) -> nat {
        ((self.bits as nat) / 0x10_0000_0000_0000) % 0x800
    }

    /// The fifty-two fraction bits.
    pub open spec fn fraction(self) -> nat {
        (self.bits as nat) % 0x10_0000_0000_0000
    }

    /// Whether this is one of the patterns that stand for no number.
    pub open spec fn is_nan(self) -> bool {
        self.exponent() == 0x7ff && self.fraction() != 0
    }

    /// The absolute value in units of 2^-1074, the smallest positive binary64 number. An infinity
    /// counts as the power of two that follows the largest finite number.
    pub open spec fn magnitude(self) -> nat {
        if self.exponent() == 0 {
            self.fraction()
        } else {
            (0x10_0000_0000_0000 + self.fraction()) * pow2((self.exponent() - 1) as nat)
        }
    }

    /// The value in units of 2^-1074; see `magnitude`.
    pub open spec fn scaled(self) -> int {
        if self.negative() {
            -(self.magnitude() as int)
        } else {
            self.magnitude() as int
        }
    }

    /// Whether the bits are those of a zero: all but the sign are clear.
    pub open spec fn has_zero_bits(self) -> bool {
        self.bits == ZERO_BITS || self.bits == MINUS_ZERO_BITS
    }

    /// Whether the bits are those of a number above one, the infinity included.
    pub open spec fn has_bits_above_one(self) -> bool {
        ONE_BITS < self.bits <= INFINITY_BITS
    }

    /// Whether the number is zero, of either sign.
    pub fn is_zero(&self) -> (r: bool)
        ensures
            r == self.has_zero_bits(),
            r == (!self.is_nan() && self.scaled() == 0),
    {
        proof {
            law_bits_mean_numbers(*self);
        }
        self.bits == ZERO_BITS || self.bits == MINUS_ZERO_BITS
    }

    /// Whether the number is one.
    pub fn is_one(&self) -> (r: bool)
        ensures
            r == (self.bits == ONE_BITS),
            r == (!self.is_nan() && self.scaled() == unit()),
    {
        proof {
            law_bits_mean_numbers(*self);
        }
        self.bits == ONE_BITS
    }

    /// Whether the number exceeds one.
    pub fn exceeds_one(&self) -> (r: bool)
        ensures
            r == self.has_bits_above_one(),
            r == (!self.is_nan() && self.scaled() > unit()),
    {
        proof {
            law_bits_mean_numbers(*self);
        }
        ONE_BITS < self.bits && self.bits <= INFINITY_BITS
    }
}

/// One, in units of 2^-1074.
pub open spec fn unit() -> int {
    pow2(1074) as int
}

/// What the bits say of a number compared with zero and one is what holds of its value.
pub proof fn law_bits_mean_numbers(x: Binary64)
    ensures
        x.has_zero_bits() <==> !x.is_nan() && x.scaled() == 0,
        x.bits == ONE_BITS <==> !x.is_nan() && x.scaled() == unit(),
        x.has_bits_above_one() <==> !x.is_nan() && x.scaled() > unit(),
{
    lemma_magnitude_against_unit(x);
    if x.exponent() != 0 {
        lemma_normal_magnitude_is_positive(x);
    }
}

/// The only zeros are the patterns without any bit but the sign, and a number exceeds one exactly
/// if its pattern lies above that of one and not above that of the infinity.
pub proof fn law_patterns_of_zero_and_above_one(x: Binary64)
    ensures
        x.has_zero_bits() <==> x.bits == 0 || x.bits == 0x8000_0000_0000_0000,
        x.has_bits_above_one() <==> 0x3ff0_0000_0000_0000 < x.bits <= 0x7ff0_0000_0000_0000,
{
}

/// The named bit patterns stand for the numbers 0, 1 and -1.
pub proof fn law_named_patterns()
    ensures
        (Binary64 { bits: ZERO_BITS }).scaled() == 0,
        (Binary64 { bits: ONE_BITS }).scaled() == unit(),
        (Binary64 { bits: MINUS_ONE_BITS }).scaled() == -unit(),
        !(Binary64 { bits: ZERO_BITS }).is_nan(),
        !(Binary64 { bits: ONE_BITS }).is_nan(),
        !(Binary64 { bits: MINUS_ONE_BITS }).is_nan(),
{
    lemma_magnitude_against_unit(Binary64 { bits: ONE_BITS });
    lemma_magnitude_against_unit(Binary64 { bits: MINUS_ONE_BITS });
}

proof fn lemma_normal_magnitude_is_positive(x: Binary64)
    requires
        x.exponent() != 0,
    ensures
        x.magnitude() > 0,
{
    let p: nat = pow2((x.exponent() - 1) as nat);
    vstd::arithmetic::power2::lemma_pow2_pos((x.exponent() - 1) as nat);
    assert((0x10_0000_0000_0000 + x.fraction()) * p > 0) by (nonlinear_arith)
        requires
            p > 0,
            x.fraction() >= 0,
    ;
}

/// The bits below the sign order numbers as their magnitudes do, seen from one.
proof fn lemma_magnitude_against_unit(x: Binary64)
    ensures
        x.exponent() * 0x10_0000_0000_0000 + x.fraction() == x.bits as int
            % 0x8000_0000_0000_0000,
        x.magnitude() > unit() <==> x.bits as int % 0x8000_0000_0000_0000 > 0x3ff0_0000_0000_0000,
        x.magnitude() == unit() <==> x.bits as int % 0x8000_0000_0000_0000
            == 0x3ff0_0000_0000_0000,
        unit() > 0,
{
    let e: nat = x.exponent();
    let f: nat = x.fraction();
    let one: nat = pow2(1022);
    vstd::arithmetic::power2::lemma_pow2_pos(1022);
    vstd::arithmetic::power2::lemma_pow2_adds(52, 1022);
    vstd::arithmetic::power2::lemma2_to64();
    vstd::arithmetic::power2::lemma2_to64_rest();
    assert(unit() == 0x10_0000_0000_0000 * one);
    if e > 1023 {
        let p: nat = pow2((e - 1) as nat);
        lemma_pow2_strictly_increases(1022, (e - 1) as nat);
        assert((0x10_0000_0000_0000 + f) * p > 0x10_0000_0000_0000 * one) by (nonlinear_arith)
            requires
                p > one,
                f >= 0,
        ;
    } else if e == 1023 {
        assert((0x10_0000_0000_0000 + f) * one == 0x10_0000_0000_0000 * one + f * one)
            by (nonlinear_arith);
        assert(f > 0 ==> f * one > 0) by (nonlinear_arith)
            requires
                one > 0,
        ;
    } else if e > 0 {
        let p: nat = pow2((e - 1) as nat);
        if e < 1022 {
            lemma_pow2_strictly_increases((e - 1) as nat, 1021);
        }
        lemma_pow2_unfold(1022);
        assert(2 * p <= one);
        assert((0x10_0000_0000_0000 + f) * p < 0x10_0000_0000_0000 * one) by (nonlinear_arith)
            requires
                2 * p <= one,
                f < 0x10_0000_0000_0000,
                one > 0,
        ;
    }
}

} // verus!
