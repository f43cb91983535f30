//! Probabilities as IEEE 754 binary64 values, held by their bit pattern.
//!
//! A rate is whatever a caller's `f64` holds, `NaN` and the infinities
//! included. Its exact numeric value is recovered here in integer arithmetic,
//! so comparing a draw with a rate involves no rounding.

use vstd::arithmetic::power2::{
    lemma2_to64, lemma2_to64_rest, lemma_pow2_adds, lemma_pow2_pos, lemma_pow2_strictly_increases,
    pow2,
};
use vstd::bits::lemma_u64_shl_is_mul;
use vstd::prelude::*;

verus! {

/// The scale of draws: a draw `n` stands for the probability `n / 2^53`.
pub const DRAW_SCALE: u64 = 0x20_0000_0000_0000;

/// The weight of the hidden bit of a normal binary64 significand.
pub const HIDDEN_BIT: u64 = 0x10_0000_0000_0000;

/// The weight of the sign bit of a binary64 value.
pub const SIGN_BIT: u64 = 0x8000_0000_0000_0000;

/// A binary64 value, by its bits.
#[derive(Debug, Clone, Copy)]
pub struct Rate {
    bits: u64,
}

/// Equality of the values: the two zeros are equal, and `NaN` is unequal to
/// everything, itself included.
impl PartialEq for Rate {
    fn eq(&self, other: &Rate) -> (same: bool) {
        let nan: bool = (self.bits / HIDDEN_BIT) % 2048 == 2047 && self.bits % HIDDEN_BIT != 0;
        let zero: bool = (self.bits / HIDDEN_BIT) % 2048 == 0 && self.bits % HIDDEN_BIT == 0;
        let other_zero: bool = (other.bits / HIDDEN_BIT) % 2048 == 0 && other.bits % HIDDEN_BIT == 0;
        !nan && (self.bits == other.bits || (zero && other_zero))
    }
}

impl vstd::std_specs::cmp::PartialEqSpecImpl for Rate {
    open spec fn obeys_eq_spec() -> bool {
        true
    }

    open spec fn eq_spec(&self, other: &Rate) -> bool {
        !self.is_nan() && (self.pattern() == other.pattern() || (self.is_zero()
            && other.is_zero()))
    }
}

impl Rate {
    /// The bit pattern.
    pub closed spec fn pattern(self) -> u64 {
        self.bits
    }

    /// The sign bit is set.
    pub open spec fn is_signed(self) -> bool {
        self.pattern() >= SIGN_BIT
    }

    /// The eleven exponent bits.
    pub open spec fn exponent_field(self) -> nat {
        (self.pattern() as nat / HIDDEN_BIT as nat) % 2048
    }

    /// The fifty-two fraction bits.
    pub open spec fn fraction_field(self) -> nat {
        self.pattern() as nat % HIDDEN_BIT as nat
    }

    /// Not a number.
    pub open spec fn is_nan(self) -> bool {
        self.exponent_field() == 2047 && self.fraction_field() != 0
    }

    /// One of the two infinities.
    pub open spec fn is_infinite(self) -> bool {
        self.exponent_field() == 2047 && self.fraction_field() == 0
    }

    /// One of the two zeros.
    pub open spec fn is_zero(self) -> bool {
        self.exponent_field() == 0 && self.fraction_field() == 0
    }

    /// The significand of a finite value, hidden bit included.
    pub open spec fn significand(self) -> nat {
        if self.exponent_field() == 0 {
            self.fraction_field()
        } else {
            self.fraction_field() + HIDDEN_BIT as nat
        }
    }

    /// The exponent of a finite value, subnormals sharing that of the
    /// smallest normal binade.
    pub open spec fn exponent(self) -> nat {
        if self.exponent_field() == 0 {
            1
        } else {
            self.exponent_field()
        }
    }

    /// The absolute value of a finite rate, in units of `2^-1075`.
    pub open spec fn magnitude(self) -> nat {
        self.significand() * pow2(self.exponent())
    }

    /// `n / 2^53` is less than this rate, as real numbers. Nothing is less
    /// than `NaN`.
    pub open spec fn above(self, n: nat) -> bool {
        &&& !self.is_nan()
        &&& !self.is_signed()
        &&& self.is_infinite() || n * pow2(1022) < self.magnitude()
    }

    /// This rate is at most `other`, as extended real numbers; `NaN` is
    /// comparable with nothing.
    pub open spec fn at_most(self, other: Rate) -> bool {
        &&& !self.is_nan()
        &&& !other.is_nan()
        &&& if self.is_zero() && other.is_zero() {
            true
        } else if self.is_signed() && !other.is_signed() {
            true
        } else if !self.is_signed() && other.is_signed() {
            false
        } else if self.is_signed() {
            self.is_infinite() || (!other.is_infinite() && other.magnitude() <= self.magnitude())
        } else {
            other.is_infinite() || (!self.is_infinite() && self.magnitude() <= other.magnitude())
        }
    }

    /// This rate is at least one.
    pub open spec fn at_least_one(self) -> bool {
        &&& !self.is_nan()
        &&& !self.is_signed()
        &&& self.is_infinite() || self.magnitude() >= pow2(1075)
    }

    /// The rate with the given bit pattern.
    pub fn from_bits(bits: u64) -> (rate: Rate)
        ensures
            rate.pattern() == bits,
    {
        Rate { bits }
    }

    /// The bit pattern of this rate.
    pub fn to_bits(self) -> (bits: u64)
        ensures
            bits == self.pattern(),
    {
        self.bits
    }

    /// Whether the draw `n / 2^53` is less than this rate.
    pub fn exceeds(self, n: u64) -> (above: bool)
        requires
            n < DRAW_SCALE,
        ensures
            above == self.above(n as nat),
    {
        let signed: bool = self.bits >= SIGN_BIT;
        let field: u64 = (self.bits / HIDDEN_BIT) % 2048;
        let fraction: u64 = self.bits % HIDDEN_BIT;
        if signed {
            return false;
        }
        if field == 2047 {
            return fraction == 0;
        }
        let significand: u64 = if field == 0 { fraction } else { fraction + HIDDEN_BIT };
        let exponent: u64 = if field == 0 { 1 } else { field };
        proof {
            lemma2_to64();
            lemma2_to64_rest();
            lemma_pow2_pos(1022);
        }
        if exponent > 1022 {
            proof {
                lemma_above_from_one(n as nat, significand as nat, exponent as nat);
            }
            return true;
        }
        let down: u64 = 1022 - exponent;
        proof {
            lemma_scale_down(n as nat, significand as nat, exponent as nat);
        }
        if down >= 53 {
            proof {
                lemma_out_of_range(n as nat, significand as nat, down as nat);
            }
            return n == 0 && significand > 0;
        }
        let unit: u64 = 1u64 << down;
        proof {
            lemma_pow2_strictly_increases(down as nat, 53);
            lemma_u64_shl_is_mul(1, down);
        }
        let whole: u64 = significand / unit;
        let rest: u64 = significand % unit;
        proof {
            lemma_divided(n as nat, significand as nat, unit as nat);
        }
        n < whole || (n == whole && rest > 0)
    }
}

/// From one upwards every draw is less than the rate.
proof fn lemma_above_from_one(n: nat, significand: nat, exponent: nat)
    requires
        n < DRAW_SCALE,
        significand >= HIDDEN_BIT,
        exponent > 1022,
    ensures
        n * pow2(1022) < significand * pow2(exponent),
{
    let up = (exponent - 1022) as nat;
    lemma_pow2_adds(1022, up);
    lemma_pow2_pos(1022);
    lemma2_to64();
    if up > 1 {
        lemma_pow2_strictly_increases(1, up);
    }
    assert(n < significand * pow2(up)) by (nonlinear_arith)
        requires
            n < 2 * HIDDEN_BIT as nat,
            significand >= HIDDEN_BIT as nat,
            pow2(up) >= 2,
    ;
    assert(n * pow2(1022) < (significand * pow2(up)) * pow2(1022)) by (nonlinear_arith)
        requires
            n < significand * pow2(up),
            pow2(1022) > 0,
    ;
    assert((significand * pow2(up)) * pow2(1022) == significand * (pow2(1022) * pow2(up)))
        by (nonlinear_arith);
}

/// Both sides of the comparison share the factor `2^exponent`.
proof fn lemma_scale_down(n: nat, significand: nat, exponent: nat)
    requires
        exponent <= 1022,
    ensures
        n * pow2(1022) < significand * pow2(exponent) <==> n * pow2((1022 - exponent) as nat)
            < significand,
{
    let down = (1022 - exponent) as nat;
    lemma_pow2_adds(down, exponent);
    lemma_pow2_pos(exponent);
    assert(n * (pow2(down) * pow2(exponent)) == (n * pow2(down)) * pow2(exponent))
        by (nonlinear_arith);
    let left = n * pow2(down);
    let unit = pow2(exponent);
    assert(left * unit < significand * unit <==> left < significand) by (nonlinear_arith)
        requires
            unit > 0,
    ;
}

/// A rate below `2^-52` is above no draw but zero.
proof fn lemma_out_of_range(n: nat, significand: nat, down: nat)
    requires
        significand < DRAW_SCALE,
        down >= 53,
    ensures
        n * pow2(down) < significand <==> n == 0 && significand > 0,
{
    lemma2_to64_rest();
    if down > 53 {
        lemma_pow2_strictly_increases(53, down);
    }
    if n > 0 {
        assert(n * pow2(down) >= pow2(down)) by (nonlinear_arith)
            requires
                n > 0,
        ;
    }
}

/// Comparing with a product is comparing with the quotient and remainder.
proof fn lemma_divided(n: nat, significand: nat, unit: nat)
    requires
        unit > 0,
    ensures
        n * unit < significand <==> n < significand / unit || (n == significand / unit
            && significand % unit > 0),
{
    let whole = significand / unit;
    let rest = significand % unit;
    assert(significand == whole * unit + rest && rest < unit) by (nonlinear_arith)
        requires
            unit > 0,
            whole == significand / unit,
            rest == significand % unit,
    ;
    if n < whole {
        assert(n * unit + unit <= whole * unit) by (nonlinear_arith)
            requires
                n < whole,
        ;
    } else if n > whole {
        assert(n * unit >= whole * unit + unit) by (nonlinear_arith)
            requires
                n > whole,
        ;
    }
}

} // verus!
