//! Usage percentages.
//!
//! A percentage is a double-precision number. The library holds its IEEE 754 bit pattern and orders,
//! tests and rounds it with integer arithmetic, so a host converts with `to_bits` and `from_bits`.
use vstd::arithmetic::div_mod;
use vstd::arithmetic::power2;
use vstd::prelude::*;

use crate::text;
use crate::text::decimal;

verus! {

/// Bit pattern of positive infinity; every larger magnitude is a NaN.
pub const INFINITY_BITS: u64 = 0x7FF0_0000_0000_0000;

/// The sign bit, which is also the bit pattern of negative zero.
pub const SIGN_BIT: u64 = 0x8000_0000_0000_0000;

/// Bit pattern of one hundred.
pub const HUNDRED_BITS: u64 = 0x4059_0000_0000_0000;

/// Bit pattern of ninety-five.
pub const NINETY_FIVE_BITS: u64 = 0x4057_C000_0000_0000;

/// Weight of the lowest exponent bit, and of the implicit leading bit of a fraction.
pub const FRACTION_RANGE: u64 = 0x0010_0000_0000_0000;

/// A double-precision percentage, by its bit pattern.
#[derive(Clone, Copy, Debug, PartialEq, Eq, Structural)]
pub struct Percent {
    pub bits: u64,
}

/// The integer nearest to `significand / 2^shift`; a tie goes to the even neighbour.
pub open spec fn nearest_whole(significand: nat, shift: nat) -> nat {
    let whole = significand / power2::pow2(shift);
    let twice_rest = 2 * (significand % power2::pow2(shift));
    if twice_rest > power2::pow2(shift) || (twice_rest == power2::pow2(shift) && whole % 2
        == 1) {
        whole + 1
    } else {
        whole
    }
}

impl Percent {
    /// The bits below the sign bit: they order numbers of one sign by distance from zero.
    pub open spec fn magnitude(self) -> int {
        if self.bits < SIGN_BIT {
            self.bits as int
        } else {
            self.bits - SIGN_BIT
        }
    }

    pub open spec fn is_nan(self) -> bool {
        self.magnitude() > INFINITY_BITS
    }

    pub open spec fn is_finite_spec(self) -> bool {
        self.magnitude() < INFINITY_BITS
    }

    /// Position of a number on the line; the two zeros share a position.
    pub open spec fn position(self) -> int {
        if self.bits < SIGN_BIT {
            self.magnitude()
        } else {
            -self.magnitude()
        }
    }

    /// Position in the total order of all patterns, in which negative zero comes before zero and
    /// NaNs lie beyond the infinities.
    pub open spec fn total_position(self) -> int {
        if self.bits < SIGN_BIT {
            self.magnitude()
        } else {
            -self.magnitude() - 1
        }
    }

    /// `self > other` on numbers: false as soon as one of them is a NaN.
    pub open spec fn is_above(self, other: Percent) -> bool {
        !self.is_nan() && !other.is_nan() && self.position() > other.position()
    }

    /// `self >= other` on numbers.
    pub open spec fn is_at_least(self, other: Percent) -> bool {
        !self.is_nan() && !other.is_nan() && self.position() >= other.position()
    }

    pub open spec fn zero() -> Percent {
        Percent { bits: 0 }
    }

    pub open spec fn hundred() -> Percent {
        Percent { bits: HUNDRED_BITS }
    }

    /// The number rounded to a whole after it was brought into the range from 0 to 100.
    pub open spec fn whole(self) -> nat {
        if self.position() <= 0 {
            0
        } else if self.position() > HUNDRED_BITS {
            100
        } else if self.magnitude() < FRACTION_RANGE {
            nearest_whole(self.magnitude() as nat, 1074)
        } else {
            nearest_whole(
                (FRACTION_RANGE + self.magnitude() % (FRACTION_RANGE as int)) as nat,
                (1075 - self.magnitude() / (FRACTION_RANGE as int)) as nat,
            )
        }
    }

    /// How a finite percentage is shown: rounded to a whole, with a percent sign. Negative zero
    /// keeps its sign.
    pub open spec fn shown(self) -> Seq<char> {
        (if self.bits == SIGN_BIT {
            "-0"@
        } else {
            text::spec_decimal(self.whole())
        }) + "%"@
    }

    pub fn from_bits(bits: u64) -> (percent: Percent)
        ensures
            percent.bits == bits,
    {
        Percent { bits }
    }

    pub fn is_finite(self) -> (finite: bool)
        ensures
            finite == self.is_finite_spec(),
    {
        let magnitude: u64 = if self.bits < SIGN_BIT {
            self.bits
        } else {
            self.bits - SIGN_BIT
        };
        magnitude < INFINITY_BITS
    }

    /// `self > other`, as on doubles.
    pub fn gt(self, other: Percent) -> (greater: bool)
        ensures
            greater == self.is_above(other),
    {
        if self.bits < SIGN_BIT {
            if other.bits < SIGN_BIT {
                self.bits <= INFINITY_BITS && other.bits <= INFINITY_BITS && self.bits > other.bits
            } else {
                let below: u64 = other.bits - SIGN_BIT;
                self.bits <= INFINITY_BITS && below <= INFINITY_BITS && (self.bits > 0 || below > 0)
            }
        } else {
            let own: u64 = self.bits - SIGN_BIT;
            if other.bits < SIGN_BIT {
                false
            } else {
                let below: u64 = other.bits - SIGN_BIT;
                own <= INFINITY_BITS && below <= INFINITY_BITS && own < below
            }
        }
    }

    /// `self >= other`, as on doubles.
    pub fn ge(self, other: Percent) -> (at_least: bool)
        ensures
            at_least == self.is_at_least(other),
    {
        let own: u64 = if self.bits < SIGN_BIT {
            self.bits
        } else {
            self.bits - SIGN_BIT
        };
        let other_magnitude: u64 = if other.bits < SIGN_BIT {
            other.bits
        } else {
            other.bits - SIGN_BIT
        };
        if own > INFINITY_BITS || other_magnitude > INFINITY_BITS {
            false
        } else {
            !other.gt(self)
        }
    }

    /// Whether `self` comes no later than `other` in the total order.
    pub fn total_le(self, other: Percent) -> (ordered: bool)
        ensures
            ordered == (self.total_position() <= other.total_position()),
    {
        if self.bits < SIGN_BIT {
            other.bits < SIGN_BIT && self.bits <= other.bits
        } else {
            other.bits < SIGN_BIT || self.bits >= other.bits
        }
    }

    /// The number rounded to a whole after it was brought into the range from 0 to 100.
    pub fn rounded(self) -> (whole: u64)
        ensures
            whole == self.whole(),
            whole <= 100,
    {
        if self.bits >= SIGN_BIT || self.bits == 0 {
            return 0;
        }
        if self.bits > HUNDRED_BITS {
            return 100;
        }
        let exponent: u64 = self.bits / FRACTION_RANGE;
        let fraction: u64 = self.bits % FRACTION_RANGE;
        proof {
            power2::lemma2_to64();
            power2::lemma2_to64_rest();
        }
        if exponent < 1022 {
            proof {
                lemma_tiny_rounds_to_zero(self);
            }
            return 0;
        }
        let divisor: u64 = match exponent {
            1022 => 0x0020_0000_0000_0000,
            1023 => 0x0010_0000_0000_0000,
            1024 => 0x0008_0000_0000_0000,
            1025 => 0x0004_0000_0000_0000,
            1026 => 0x0002_0000_0000_0000,
            1027 => 0x0001_0000_0000_0000,
            1028 => 0x0000_8000_0000_0000,
            _ => 0x0000_4000_0000_0000,
        };
        assert(exponent <= 1029);
        assert(divisor == power2::pow2((1075 - exponent) as nat));
        let significand: u64 = FRACTION_RANGE + fraction;
        let whole: u64 = significand / divisor;
        let rest: u64 = significand % divisor;
        assert(whole <= 100 && (whole == 100 ==> rest == 0)) by {
            if exponent == 1029 {
                assert(fraction <= 0x0009_0000_0000_0000);
                assert(significand <= 100 * 0x0000_4000_0000_0000);
            }
        }
        if 2 * rest > divisor || (2 * rest == divisor && whole % 2 == 1) {
            whole + 1
        } else {
            whole
        }
    }

    /// How a finite percentage is shown.
    pub fn display(self) -> (shown: String)
        ensures
            shown@ == self.shown(),
    {
        let mut shown = if self.bits == SIGN_BIT {
            "-0".to_owned()
        } else {
            decimal(self.rounded())
        };
        shown.append("%");
        shown
    }
}

/// A positive number below one half rounds to zero.
proof fn lemma_tiny_rounds_to_zero(value: Percent)
    requires
        0 < value.bits < 1022 * FRACTION_RANGE,
    ensures
        value.whole() == 0,
{
    let exponent = value.bits as int / (FRACTION_RANGE as int);
    let significand = if exponent == 0 {
        value.bits as nat
    } else {
        (FRACTION_RANGE + value.bits as int % (FRACTION_RANGE as int)) as nat
    };
    let shift = if exponent == 0 {
        1074nat
    } else {
        (1075 - exponent) as nat
    };
    power2::lemma2_to64_rest();
    if shift > 54 {
        power2::lemma_pow2_strictly_increases(54, shift);
    }
    assert(2 * significand < power2::pow2(shift));
    div_mod::lemma_small_mod(significand, power2::pow2(shift));
    div_mod::lemma_basic_div(significand as int, power2::pow2(shift) as int);
    assert(nearest_whole(significand, shift) == 0);
}

/// The number that a magnitude stands for, in units of the smallest positive number: 2^-1074.
pub open spec fn units(magnitude: nat) -> nat {
    if magnitude < 0x0010_0000_0000_0000 {
        magnitude
    } else {
        (0x0010_0000_0000_0000 + magnitude % 0x0010_0000_0000_0000) * power2::pow2(
            (magnitude / 0x0010_0000_0000_0000 - 1) as nat,
        )
    }
}

/// The number that a pattern stands for, in units of 2^-1074, with its sign.
pub open spec fn number(percent: Percent) -> int {
    if percent.bits < 0x8000_0000_0000_0000 {
        units(percent.bits as nat) as int
    } else {
        -(units((percent.bits - 0x8000_0000_0000_0000) as nat) as int)
    }
}

#[verifier::rlimit(40)]
proof fn lemma_units_grow(a: nat, b: nat)
    requires
        a < b,
    ensures
        units(a) < units(b),
{
    let range = 0x0010_0000_0000_0000nat;
    let ea = a / range;
    let eb = b / range;
    let fa = a % range;
    let fb = b % range;
    if eb > 0 {
        let qb = power2::pow2((eb - 1) as nat);
        power2::lemma_pow2_pos((eb - 1) as nat);
        assert((range + fb) * qb >= range * qb) by (nonlinear_arith)
            requires
                qb > 0,
        ;
        assert(range * qb >= range) by (nonlinear_arith)
            requires
                qb >= 1,
        ;
        if ea > 0 {
            let qa = power2::pow2((ea - 1) as nat);
            power2::lemma_pow2_pos((ea - 1) as nat);
            if ea == eb {
                assert((range + fa) * qa < (range + fb) * qa) by (nonlinear_arith)
                    requires
                        fa < fb,
                        qa > 0,
                ;
            } else {
                power2::lemma_pow2_unfold(ea);
                if ea < eb - 1 {
                    power2::lemma_pow2_strictly_increases(ea, (eb - 1) as nat);
                }
                assert((range + fa) * qa < range * qb) by (nonlinear_arith)
                    requires
                        fa < range,
                        qa > 0,
                        2 * qa <= qb,
                ;
            }
        }
    }
}

/// Percentages stand in the order of the numbers that they are, and a NaN stands in no order.
pub proof fn law_percentages_are_ordered_as_numbers(a: Percent, b: Percent)
    ensures
        a.is_nan() || b.is_nan() ==> !a.is_above(b) && !a.is_at_least(b),
        !a.is_nan() && !b.is_nan() ==> (a.is_above(b) <==> number(a) > number(b)),
        !a.is_nan() && !b.is_nan() ==> (a.is_at_least(b) <==> number(a) >= number(b)),
        a.is_nan() <==> {
            ||| 0x7FF0_0000_0000_0000 < a.bits < 0x8000_0000_0000_0000
            ||| 0xFFF0_0000_0000_0000 < a.bits
        },
        number(Percent::zero()) == 0,
{
    let ma = a.magnitude() as nat;
    let mb = b.magnitude() as nat;
    if ma < mb {
        lemma_units_grow(ma, mb);
    } else if mb < ma {
        lemma_units_grow(mb, ma);
    }
    if ma > 0 {
        lemma_units_grow(0, ma);
    }
    if mb > 0 {
        lemma_units_grow(0, mb);
    }
}

proof fn lemma_nearest_whole(significand: nat, shift: nat)
    ensures
        ({
            let whole = nearest_whole(significand, shift);
            let unit = power2::pow2(shift);
            &&& -(unit as int) <= 2 * (significand - whole * unit) <= unit
            &&& 2 * (significand - whole * unit) == unit || 2 * (significand - whole * unit) == -(
            unit as int) ==> whole % 2 == 0
        }),
{
    let unit = power2::pow2(shift);
    power2::lemma_pow2_pos(shift);
    div_mod::lemma_fundamental_div_mod(significand as int, unit as int);
    div_mod::lemma_mod_bound(significand as int, unit as int);
    let quotient = significand / unit;
    let rest = significand % unit;
    assert(unit * quotient == quotient * unit) by (nonlinear_arith);
    assert((quotient + 1) * unit == quotient * unit + unit) by (nonlinear_arith);
}

proof fn lemma_hundred()
    ensures
        units(0x4059_0000_0000_0000) == 100 * power2::pow2(1074),
{
    power2::lemma2_to64();
    power2::lemma2_to64_rest();
    power2::lemma_pow2_adds(46, 1028);
    assert(0x4059_0000_0000_0000nat / 0x0010_0000_0000_0000 == 1029);
    assert(0x4059_0000_0000_0000nat % 0x0010_0000_0000_0000 == 0x0009_0000_0000_0000);
    assert(power2::pow2(46) == 0x4000_0000_0000);
    let q = power2::pow2(1028);
    assert(0x0019_0000_0000_0000 * q == 100 * (0x4000_0000_0000 * q)) by (nonlinear_arith);
}

/// What is shown of a percentage is the whole number nearest to it, of two that are equally near the
/// even one; what lies below nothing counts as 0, and what lies above a hundred as 100.
#[verifier::rlimit(40)]
pub proof fn law_shown_percentage_is_the_nearest(percent: Percent)
    requires
        !percent.is_nan(),
    ensures
        ({
            let one = power2::pow2(1074);
            let off = number(percent) - percent.whole() * one;
            &&& number(percent) <= 0 ==> percent.whole() == 0
            &&& number(percent) > 100 * one ==> percent.whole() == 100
            &&& 0 < number(percent) <= 100 * one ==> -(one as int) <= 2 * off <= one
            &&& 0 < number(percent) <= 100 * one && (2 * off == one || 2 * off == -(one as int))
                ==> percent.whole() % 2 == 0
        }),
{
    let one = power2::pow2(1074);
    let hundred = Percent { bits: 0x4059_0000_0000_0000 };
    lemma_hundred();
    law_percentages_are_ordered_as_numbers(percent, hundred);
    law_percentages_are_ordered_as_numbers(percent, Percent::zero());
    assert(number(hundred) == 100 * one);
    if 0 < number(percent) <= 100 * one {
        let magnitude = percent.bits as nat;
        let exponent = magnitude / 0x0010_0000_0000_0000;
        if exponent == 0 {
            lemma_nearest_whole(magnitude, 1074);
        } else {
            let significand = 0x0010_0000_0000_0000 + magnitude % 0x0010_0000_0000_0000;
            let shift = (1075 - exponent) as nat;
            let scale = power2::pow2((exponent - 1) as nat);
            let unit = power2::pow2(shift);
            let whole = percent.whole();
            assert(whole == nearest_whole(significand, shift));
            lemma_nearest_whole(significand, shift);
            power2::lemma_pow2_pos((exponent - 1) as nat);
            power2::lemma_pow2_adds(shift, (exponent - 1) as nat);
            assert(one == unit * scale);
            let off = significand - whole * unit;
            assert(significand * scale - whole * (unit * scale) == off * scale)
                by (nonlinear_arith)
                requires
                    off == significand - whole * unit,
            ;
            assert(2 * (off * scale) <= unit * scale && -(unit * scale) <= 2 * (off * scale))
                by (nonlinear_arith)
                requires
                    -(unit as int) <= 2 * off <= unit,
                    scale > 0,
            ;
            assert(2 * (off * scale) == unit * scale ==> 2 * off == unit) by (nonlinear_arith)
                requires
                    scale > 0,
            ;
            assert(2 * (off * scale) == -(unit * scale) ==> 2 * off == -(unit as int))
                by (nonlinear_arith)
                requires
                    scale > 0,
            ;
        }
    }
}

} // verus!
