//! Exact rational numbers.
//!
//! The shading rules are stated over fractions, so that a comparison is
//! decided exactly and never by rounding. `Rational` is the mathematical
//! fraction contracts speak of; `Ratio` is the machine value that stands for
//! one.

use vstd::prelude::*;

verus! {

/// The fraction `num / den`. It denotes a number when `den` is positive.
pub struct Rational {
    pub num: int,
    pub den: int,
}

impl Rational {
    /// Whether this fraction denotes a number.
    pub open spec fn wf(self) -> bool {
        self.den > 0
    }

    /// The whole number `n`.
    pub open spec fn whole(n: int) -> Rational {
        Rational { num: n, den: 1 }
    }

    /// `self == other` as numbers.
    pub open spec fn same(self, other: Rational) -> bool {
        self.num * other.den == other.num * self.den
    }

    /// `self <= other` as numbers.
    pub open spec fn le(self, other: Rational) -> bool {
        self.num * other.den <= other.num * self.den
    }

    /// `self < other` as numbers.
    pub open spec fn lt(self, other: Rational) -> bool {
        self.num * other.den < other.num * self.den
    }

    /// `self + other`.
    pub open spec fn plus(self, other: Rational) -> Rational {
        Rational { num: self.num * other.den + other.num * self.den, den: self.den * other.den }
    }

    /// `self - other`.
    pub open spec fn minus(self, other: Rational) -> Rational {
        Rational { num: self.num * other.den - other.num * self.den, den: self.den * other.den }
    }

    /// `factor * self`.
    pub open spec fn scaled(self, factor: int) -> Rational {
        Rational { num: factor * self.num, den: self.den }
    }

    /// `self * self`.
    pub open spec fn squared(self) -> Rational {
        Rational { num: self.num * self.num, den: self.den * self.den }
    }

    /// The fractional part, taken downwards: `self - floor(self)`, which
    /// lies in [0, 1).
    pub open spec fn fract(self) -> Rational {
        Rational { num: self.num % self.den, den: self.den }
    }

    /// The smaller of the two; `self` where they are the same number.
    pub open spec fn at_most(self, other: Rational) -> Rational {
        if self.le(other) {
            self
        } else {
            other
        }
    }
}

/// A fraction of machine integers with a positive denominator.
#[derive(Clone, Copy, Debug)]
pub struct Ratio {
    num: i64,
    den: u32,
}

impl View for Ratio {
    type V = Rational;

    closed spec fn view(&self) -> Rational {
        Rational { num: self.num as int, den: self.den as int }
    }
}

impl Ratio {
    #[verifier::type_invariant]
    spec fn positive_denominator(self) -> bool {
        self.den > 0
    }

    /// The fraction `num / den`; none where `den` is zero.
    pub fn new(num: i64, den: u32) -> (ratio: Option<Ratio>)
        ensures
            den == 0 <==> ratio is None,
            ratio matches Some(r) ==> r@ == (Rational { num: num as int, den: den as int }),
    {
        if den == 0 {
            None
        } else {
            Some(Ratio { num, den })
        }
    }

    /// The whole number `n`.
    pub fn whole(n: i64) -> (ratio: Ratio)
        ensures
            ratio@ == Rational::whole(n as int),
    {
        Ratio { num: n, den: 1 }
    }

    /// The numerator.
    pub fn numerator(&self) -> (num: i64)
        ensures
            num == self@.num,
    {
        self.num
    }

    /// The denominator, which is positive.
    pub fn denominator(&self) -> (den: u32)
        ensures
            den == self@.den,
            den > 0,
    {
        proof {
            use_type_invariant(self);
        }
        self.den
    }

    /// Whether the two fractions are the same number.
    pub fn same(&self, other: &Ratio) -> (result: bool)
        ensures
            result == self@.same(other@),
    {
        let (left, right) = cross(self, other);
        left == right
    }

    /// Whether `self <= other` as numbers.
    pub fn le(&self, other: &Ratio) -> (result: bool)
        ensures
            result == self@.le(other@),
    {
        let (left, right) = cross(self, other);
        left <= right
    }

    /// Whether `self < other` as numbers.
    pub fn lt(&self, other: &Ratio) -> (result: bool)
        ensures
            result == self@.lt(other@),
    {
        let (left, right) = cross(self, other);
        left < right
    }
}

/// The two cross products that decide how `a` and `b` compare.
fn cross(a: &Ratio, b: &Ratio) -> (products: (i128, i128))
    ensures
        products.0 == a@.num * b@.den,
        products.1 == b@.num * a@.den,
{
    let a_num: i128 = a.num as i128;
    let a_den: i128 = a.den as i128;
    let b_num: i128 = b.num as i128;
    let b_den: i128 = b.den as i128;
    proof {
        lemma_product_bound(a_num as int, 0x8000_0000_0000_0000, b_den as int, 0x1_0000_0000);
        lemma_product_bound(b_num as int, 0x8000_0000_0000_0000, a_den as int, 0x1_0000_0000);
    }
    (a_num * b_den, b_num * a_den)
}

/// A product is bounded by the product of its factors' bounds.
pub proof fn lemma_product_bound(a: int, a_bound: int, b: int, b_bound: int)
    by (nonlinear_arith)
    requires
        -a_bound <= a <= a_bound,
        0 <= b <= b_bound,
    ensures
        -(a_bound * b_bound) <= a * b <= a_bound * b_bound,
{
}

} // verus!
