//! Numbers as requests and upstream replies carry them.
//!
//! A [`Number`] is an IEEE 754 binary64 value held by its bit pattern: one
//! sign bit, eleven exponent bits, fifty-two fraction bits. Its view is what
//! the bits stand for: no number, an infinity, or a finite value. The library
//! only classifies and compares numbers, and proves that its comparisons of
//! bits are comparisons of the values.

use vstd::prelude::*;
use vstd::arithmetic::power2::{
    lemma_pow2_pos,
    lemma_pow2_strictly_increases,
    lemma_pow2_unfold,
    pow2,
};

verus! {

/// The bit that holds the sign.
pub const SIGN_BIT: u64 = 0x8000_0000_0000_0000;

/// The magnitude bits of an infinity: every exponent bit set, no fraction bit.
pub const INFINITY_MAGNITUDE: u64 = 0x7ff0_0000_0000_0000;

/// Two to the power of fifty-two: the first magnitude with an exponent bit
/// set.
pub const FRACTION_SPAN: u64 = 0x0010_0000_0000_0000;

/// A binary64 value, by its bits.
#[derive(Clone, Copy, Debug, PartialEq, Eq, Structural)]
pub struct Number {
    pub bits: u64,
}

/// What the bits of a number stand for.
pub enum NumberView {
    /// No number.
    Nan,
    /// An infinity.
    Infinite { negative: bool },
    /// A finite value, as a count of the smallest positive value, which is
    /// two to the power of -1074. Every finite value is a whole number of
    /// these.
    Finite { units: int },
}

impl NumberView {
    /// The value is greater than zero.
    pub open spec fn is_positive(self) -> bool {
        match self {
            NumberView::Nan => false,
            NumberView::Infinite { negative } => !negative,
            NumberView::Finite { units } => units > 0,
        }
    }

    /// The value is greater than `other`. Nothing is greater or less than no
    /// number.
    pub open spec fn exceeds(self, other: NumberView) -> bool {
        match (self, other) {
            (NumberView::Nan, _) => false,
            (_, NumberView::Nan) => false,
            (NumberView::Infinite { negative: a }, NumberView::Infinite { negative: b }) => !a
                && b,
            (NumberView::Infinite { negative }, NumberView::Finite { .. }) => !negative,
            (NumberView::Finite { .. }, NumberView::Infinite { negative }) => negative,
            (NumberView::Finite { units: a }, NumberView::Finite { units: b }) => a > b,
        }
    }

    /// The two values are equal. No number is equal to nothing, itself
    /// included.
    pub open spec fn equals(self, other: NumberView) -> bool {
        self !is Nan && self == other
    }

    /// The difference of the two values is zero: they are finite and equal.
    /// Two infinities have no difference that is a number.
    pub open spec fn cancels(self, other: NumberView) -> bool {
        self is Finite && self == other
    }
}

/// The count of smallest positive values that the magnitude bits `magnitude`
/// stand for. With no exponent bit set it is the fraction itself; else the
/// fraction with a leading one before its fifty-two bits, doubled once for
/// every step of the exponent above one.
pub open spec fn magnitude_units(magnitude: int) -> int {
    let exponent = magnitude / (FRACTION_SPAN as int);
    let fraction = magnitude % (FRACTION_SPAN as int);
    if exponent == 0 {
        fraction
    } else {
        (FRACTION_SPAN + fraction) * pow2((exponent - 1) as nat)
    }
}

impl Number {
    /// The bits without the sign bit.
    pub open spec fn magnitude(self) -> int {
        if self.bits >= SIGN_BIT {
            self.bits - SIGN_BIT
        } else {
            self.bits as int
        }
    }

    /// Whether the sign bit is set.
    pub open spec fn sign_set(self) -> bool {
        self.bits >= SIGN_BIT
    }

    /// The bits read as sign and magnitude.
    pub open spec fn rank(self) -> int {
        if self.sign_set() {
            -self.magnitude()
        } else {
            self.magnitude()
        }
    }

    /// The value of a finite number, as a count of the smallest positive
    /// value.
    pub open spec fn units(self) -> int {
        if self.sign_set() {
            -magnitude_units(self.magnitude())
        } else {
            magnitude_units(self.magnitude())
        }
    }
}

impl View for Number {
    type V = NumberView;

    open spec fn view(&self) -> NumberView {
        if self.magnitude() > INFINITY_MAGNITUDE {
            NumberView::Nan
        } else if self.magnitude() == INFINITY_MAGNITUDE {
            NumberView::Infinite { negative: self.sign_set() }
        } else {
            NumberView::Finite { units: self.units() }
        }
    }
}

/// Among magnitudes below that of the infinities, a larger magnitude stands
/// for a larger count, and the magnitude zero for the count zero.
pub proof fn lemma_magnitude_units_increase(smaller: int, larger: int)
    requires
        0 <= smaller < larger < INFINITY_MAGNITUDE,
    ensures
        0 <= magnitude_units(smaller) < magnitude_units(larger),
        magnitude_units(0) == 0,
{
    let span = FRACTION_SPAN as int;
    let e1 = smaller / span;
    let f1 = smaller % span;
    let e2 = larger / span;
    let f2 = larger % span;
    assert(smaller == e1 * span + f1 && larger == e2 * span + f2);
    assert(e1 <= e2);
    if e1 == e2 {
        if e1 > 0 {
            let p = pow2((e1 - 1) as nat) as int;
            lemma_pow2_pos((e1 - 1) as nat);
            assert(0 <= (span + f1) * p < (span + f2) * p) by (nonlinear_arith)
                requires
                    p > 0,
                    0 <= f1 < f2,
                    span > 0,
            ;
        }
    } else {
        let p2 = pow2((e2 - 1) as nat) as int;
        lemma_pow2_pos((e2 - 1) as nat);
        assert(span * p2 <= (span + f2) * p2) by (nonlinear_arith)
            requires
                p2 > 0,
                f2 >= 0,
        ;
        if e1 == 0 {
            assert(span <= span * p2) by (nonlinear_arith)
                requires
                    p2 >= 1,
                    span > 0,
            ;
        } else {
            let p1 = pow2((e1 - 1) as nat) as int;
            lemma_pow2_pos((e1 - 1) as nat);
            lemma_pow2_unfold(e1 as nat);
            if e1 < e2 - 1 {
                lemma_pow2_strictly_increases(e1 as nat, (e2 - 1) as nat);
            }
            assert(2 * p1 <= p2);
            assert(0 <= (span + f1) * p1 < span * (2 * p1)) by (nonlinear_arith)
                requires
                    p1 > 0,
                    0 <= f1 < span,
            ;
            assert(span * (2 * p1) <= span * p2) by (nonlinear_arith)
                requires
                    2 * p1 <= p2,
                    span > 0,
            ;
        }
    }
}

/// Finite numbers are ordered by their bits, read as sign and magnitude, as
/// their values are ordered.
pub proof fn lemma_rank_orders_values(a: Number, b: Number)
    requires
        a@ is Finite,
        b@ is Finite,
    ensures
        a.rank() < b.rank() <==> a.units() < b.units(),
        a.rank() == b.rank() <==> a.units() == b.units(),
        a.rank() > 0 <==> a.units() > 0,
{
    let m = a.magnitude();
    let n = b.magnitude();
    if m < n {
        lemma_magnitude_units_increase(m, n);
    }
    if n < m {
        lemma_magnitude_units_increase(n, m);
    }
    if 0 < m {
        lemma_magnitude_units_increase(0, m);
    }
    if 0 < n {
        lemma_magnitude_units_increase(0, n);
    }
    assert(magnitude_units(0) == 0);
}

impl Number {
    /// The number with the given bits.
    pub fn from_bits(bits: u64) -> (number: Number)
        ensures
            number.bits == bits,
    {
        Number { bits }
    }

    /// The bits of the number.
    pub fn to_bits(self) -> (bits: u64)
        ensures
            bits == self.bits,
    {
        self.bits
    }

    fn magnitude_bits(self) -> (magnitude: u64)
        ensures
            magnitude == self.magnitude(),
            magnitude < SIGN_BIT,
    {
        if self.bits >= SIGN_BIT {
            self.bits - SIGN_BIT
        } else {
            self.bits
        }
    }

    fn rank_value(self) -> (rank: i128)
        ensures
            rank == self.rank(),
    {
        let magnitude: u64 = self.magnitude_bits();
        if self.bits >= SIGN_BIT {
            -(magnitude as i128)
        } else {
            magnitude as i128
        }
    }

    /// Whether the bits stand for no number.
    pub fn is_not_a_number(self) -> (nan: bool)
        ensures
            nan == (self@ is Nan),
    {
        self.magnitude_bits() > INFINITY_MAGNITUDE
    }

    /// Whether the bits stand for a finite value.
    pub fn is_finite(self) -> (finite: bool)
        ensures
            finite == (self@ is Finite),
    {
        self.magnitude_bits() < INFINITY_MAGNITUDE
    }

    /// Whether the value is greater than zero.
    pub fn is_positive(self) -> (positive: bool)
        ensures
            positive == self@.is_positive(),
    {
        proof {
            if self@ is Finite {
                lemma_rank_orders_values(self, self);
            }
        }
        !self.is_not_a_number() && self.rank_value() > 0
    }

    /// Whether the value is greater than that of `other`.
    pub fn exceeds(self, other: Number) -> (greater: bool)
        ensures
            greater == self@.exceeds(other@),
    {
        proof {
            if self@ is Finite && other@ is Finite {
                lemma_rank_orders_values(other, self);
            }
        }
        !self.is_not_a_number() && !other.is_not_a_number() && self.rank_value()
            > other.rank_value()
    }

    /// Whether the two values are equal.
    pub fn equals(self, other: Number) -> (equal: bool)
        ensures
            equal == self@.equals(other@),
    {
        proof {
            if self@ is Finite && other@ is Finite {
                lemma_rank_orders_values(self, other);
            }
        }
        !self.is_not_a_number() && !other.is_not_a_number() && self.rank_value()
            == other.rank_value()
    }

    /// Whether the difference of the two values is zero.
    pub fn cancels(self, other: Number) -> (zero: bool)
        ensures
            zero == self@.cancels(other@),
    {
        proof {
            if self@ is Finite && other@ is Finite {
                lemma_rank_orders_values(self, other);
            }
        }
        self.is_finite() && other.is_finite() && self.rank_value() == other.rank_value()
    }
}

} // verus!
