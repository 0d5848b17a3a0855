//! IEEE 754 binary64 numbers, held by their 64-bit encodings.
//!
//! The cycle's validity gates compare such numbers.  This module says what an
//! encoding denotes and decides the order between two encodings with integer
//! operations alone, proved against the order of the numbers denoted.

use vstd::prelude::*;
use vstd::arithmetic::mul::lemma_mul_inequality;
use vstd::arithmetic::mul::lemma_mul_strict_inequality;
use vstd::arithmetic::power2::lemma_pow2_pos;
use vstd::arithmetic::power2::lemma_pow2_strictly_increases;
use vstd::arithmetic::power2::lemma_pow2_unfold;
use vstd::arithmetic::power2::pow2;

verus! {

/// The encoding's sign bit.
pub const SIGN_BIT: u64 = 0x8000_0000_0000_0000;

/// The weight of the exponent field's lowest bit: two to the power 52.
pub const EXPONENT_UNIT: u64 = 0x0010_0000_0000_0000;

/// The encoding of positive infinity: exponent field all ones, fraction zero.
pub const INFINITY_BITS: u64 = 0x7FF0_0000_0000_0000;

/// The largest value of the exponent field, kept for infinities and NaNs.
pub const EXPONENT_MAX: u64 = 2047;

/// A binary64 number, given by its encoding: one sign bit, eleven exponent
/// bits, fifty-two fraction bits.
#[derive(Clone, Copy, Debug)]
pub struct Binary64 {
    pub bits: u64,
}

/// What a binary64 encoding denotes.
///
/// Every finite binary64 number is a whole multiple of `2^-1074`, the smallest
/// positive one; `Finite(n)` is the number `n * 2^-1074`.  Both zeros are
/// `Finite(0)`.
pub enum Extended {
    NotANumber,
    NegativeInfinity,
    Finite(int),
    PositiveInfinity,
}

/// The whole number `n`, as a denoted value.
pub open spec fn integer(n: int) -> Extended {
    Extended::Finite(n * pow2(1074))
}

/// `a < b` as IEEE 754 orders numbers: false whenever either is a NaN.
pub open spec fn less(a: Extended, b: Extended) -> bool {
    match a {
        Extended::NotANumber => false,
        Extended::NegativeInfinity => b is Finite || b is PositiveInfinity,
        Extended::Finite(x) => match b {
            Extended::Finite(y) => x < y,
            Extended::PositiveInfinity => true,
            _ => false,
        },
        Extended::PositiveInfinity => false,
    }
}

/// `a <= b` as IEEE 754 orders numbers: false whenever either is a NaN.
pub open spec fn at_most(a: Extended, b: Extended) -> bool {
    match a {
        Extended::NotANumber => false,
        Extended::NegativeInfinity => !(b is NotANumber),
        Extended::Finite(x) => match b {
            Extended::Finite(y) => x <= y,
            Extended::PositiveInfinity => true,
            _ => false,
        },
        Extended::PositiveInfinity => b is PositiveInfinity,
    }
}

impl Binary64 {
    /// Whether the sign bit is set.
    pub open spec fn sign(self) -> bool {
        self.bits >= SIGN_BIT
    }

    /// The encoding without its sign bit.
    pub open spec fn magnitude_bits(self) -> int {
        if self.bits >= SIGN_BIT {
            self.bits - SIGN_BIT
        } else {
            self.bits as int
        }
    }

    /// The exponent field, from 0 to 2047.
    pub open spec fn exponent(self) -> int {
        self.magnitude_bits() / (EXPONENT_UNIT as int)
    }

    /// The fraction field, below two to the power 52.
    pub open spec fn fraction(self) -> int {
        self.magnitude_bits() % (EXPONENT_UNIT as int)
    }

    /// The absolute value in units of `2^-1074`, for an exponent field below
    /// 2047: the fraction alone where the exponent field is zero, else the
    /// fraction with the hidden bit, doubled once for each step of the
    /// exponent field above one.
    pub open spec fn magnitude(self) -> int {
        if self.exponent() == 0 {
            self.fraction()
        } else {
            (EXPONENT_UNIT + self.fraction()) * pow2((self.exponent() - 1) as nat)
        }
    }

    /// The distance from a finite number to the next one of larger magnitude,
    /// in units of `2^-1074`.
    pub open spec fn spacing(self) -> int {
        if self.exponent() == 0 {
            1
        } else {
            pow2((self.exponent() - 1) as nat) as int
        }
    }

    /// Whether the number is `numerator / denominator` exactly.
    pub open spec fn is_ratio(self, numerator: int, denominator: int) -> bool {
        self@ matches Extended::Finite(n) && n * denominator == numerator * pow2(1074)
    }

    /// Whether the number is finite and no further than half its spacing from
    /// `numerator / denominator`, for a positive denominator.
    pub open spec fn approximates_ratio(self, numerator: int, denominator: int) -> bool {
        self@ matches Extended::Finite(n) && {
            let excess = n * denominator - numerator * pow2(1074);
            -denominator * self.spacing() <= 2 * excess <= denominator * self.spacing()
        }
    }

    /// The encoding `bits` as a number.
    pub fn from_bits(bits: u64) -> (r: Binary64)
        ensures
            r == (Binary64 { bits }),
    {
        Binary64 { bits }
    }

    /// The number's encoding.
    pub fn to_bits(self) -> (r: u64)
        ensures
            r == self.bits,
    {
        self.bits
    }

    /// The encoding with the sign bit cleared.
    fn cleared(self) -> (r: u64)
        ensures
            r == self.magnitude_bits(),
            r < SIGN_BIT,
    {
        if self.bits >= SIGN_BIT {
            self.bits - SIGN_BIT
        } else {
            self.bits
        }
    }

    /// Whether the number is a NaN.
    pub fn is_nan(self) -> (r: bool)
        ensures
            r == (self@ is NotANumber),
    {
        self.cleared() > INFINITY_BITS
    }

    /// `self < other`, as IEEE 754 orders numbers.
    pub fn lt(self, other: Binary64) -> (r: bool)
        ensures
            r == less(self@, other@),
    {
        let a = self.cleared();
        let b = other.cleared();
        if a > INFINITY_BITS || b > INFINITY_BITS {
            return false;
        }
        proof {
            if a < b {
                lemma_magnitude_order(self, other);
            }
            if b < a {
                lemma_magnitude_order(other, self);
            }
            lemma_magnitude_zero(self);
            lemma_magnitude_zero(other);
        }
        if self.bits >= SIGN_BIT {
            if other.bits >= SIGN_BIT {
                b < a
            } else {
                a != 0 || b != 0
            }
        } else {
            if other.bits >= SIGN_BIT {
                false
            } else {
                a < b
            }
        }
    }

    /// `self <= other`, as IEEE 754 orders numbers.
    pub fn le(self, other: Binary64) -> (r: bool)
        ensures
            r == at_most(self@, other@),
    {
        if self.is_nan() || other.is_nan() {
            false
        } else {
            !other.lt(self)
        }
    }
}

impl View for Binary64 {
    type V = Extended;

    open spec fn view(&self) -> Extended {
        if self.exponent() == EXPONENT_MAX {
            if self.fraction() != 0 {
                Extended::NotANumber
            } else if self.sign() {
                Extended::NegativeInfinity
            } else {
                Extended::PositiveInfinity
            }
        } else if self.sign() {
            Extended::Finite(-self.magnitude())
        } else {
            Extended::Finite(self.magnitude())
        }
    }
}

/// Among encodings without their sign bits, a smaller encoding has the smaller
/// magnitude.
pub proof fn lemma_magnitude_order(a: Binary64, b: Binary64)
    requires
        a.magnitude_bits() < b.magnitude_bits(),
    ensures
        a.magnitude() < b.magnitude(),
{
    let unit = EXPONENT_UNIT as int;
    let ea = a.exponent();
    let eb = b.exponent();
    let fa = a.fraction();
    let fb = b.fraction();
    assert(a.magnitude_bits() == ea * unit + fa);
    assert(b.magnitude_bits() == eb * unit + fb);
    assert(ea <= eb);
    if ea == eb {
        if ea != 0 {
            let scale = pow2((ea - 1) as nat) as int;
            lemma_pow2_pos((ea - 1) as nat);
            lemma_mul_strict_inequality(unit + fa, unit + fb, scale);
        }
    } else {
        let high = pow2((eb - 1) as nat) as int;
        lemma_pow2_pos((eb - 1) as nat);
        // The larger magnitude is at least the hidden bit at its own scale.
        lemma_mul_inequality(unit, unit + fb, high);
        assert(unit * high <= b.magnitude());
        if ea == 0 {
            lemma_mul_inequality(1, high, unit);
            assert(a.magnitude() < unit * high);
        } else {
            let low = pow2((ea - 1) as nat) as int;
            lemma_pow2_pos((ea - 1) as nat);
            lemma_pow2_unfold(ea as nat);
            if ea < eb - 1 {
                lemma_pow2_strictly_increases(ea as nat, (eb - 1) as nat);
            }
            assert(2 * low <= high);
            // The smaller magnitude is below twice the hidden bit at its scale.
            lemma_mul_strict_inequality(unit + fa, 2 * unit, low);
            assert(a.magnitude() < (2 * unit) * low);
            assert((2 * unit) * low == unit * (2 * low)) by (nonlinear_arith);
            lemma_mul_inequality(2 * low, high, unit);
            assert(unit * (2 * low) <= unit * high) by (nonlinear_arith)
                requires
                    (2 * low) * unit <= high * unit,
            ;
        }
    }
}

/// What a positive number with a nonzero exponent field denotes, from its
/// exponent field and its fraction with the hidden bit.
pub proof fn lemma_normal_value(a: Binary64, exponent: nat, significand: int)
    requires
        !a.sign(),
        a.exponent() == exponent,
        1 <= exponent < EXPONENT_MAX,
        EXPONENT_UNIT + a.fraction() == significand,
    ensures
        a@ == Extended::Finite(significand * pow2((exponent - 1) as nat)),
        a.spacing() == pow2((exponent - 1) as nat),
{
    let scale = pow2((exponent - 1) as nat) as int;
    assert((EXPONENT_UNIT + a.fraction()) * scale == significand * scale) by (nonlinear_arith)
        requires
            EXPONENT_UNIT + a.fraction() == significand,
    ;
}

/// A magnitude is never negative, and is zero for the two zeros alone.
pub proof fn lemma_magnitude_zero(a: Binary64)
    ensures
        a.magnitude() >= 0,
        a.magnitude() == 0 <==> a.magnitude_bits() == 0,
{
    if a.magnitude_bits() != 0 {
        lemma_magnitude_order(Binary64 { bits: 0 }, a);
    }
}

} // verus!
