//! Exact positive rationals for aspect-ratio arithmetic.
//!
//! Aspect ratios are compared by cross multiplication, never through
//! floating point, so repeated comparisons cannot drift.

use vstd::prelude::*;

verus! {

/// A positive rational number `num / den` (width over height).
#[derive(Clone, Copy, Debug, PartialEq, Eq, Structural)]
pub struct Ratio {
    pub num: u32,
    pub den: u32,
}

impl Ratio {
    /// Both parts positive: the ratio is a well-defined positive rational.
    pub open spec fn valid(self) -> bool {
        self.num >= 1 && self.den >= 1
    }

    /// `self < other` as rationals: `num/den < other.num/other.den`.
    pub open spec fn spec_lt(self, other: Ratio) -> bool {
        self.num * other.den < other.num * self.den
    }

    /// `self == other` as rationals (equal cross products).
    pub open spec fn spec_eq_ratio(self, other: Ratio) -> bool {
        self.num * other.den == other.num * self.den
    }

    /// Builds a ratio, rejecting a zero numerator or denominator.
    pub fn new(num: u32, den: u32) -> (r: Option<Ratio>)
        ensures
            r is Some <==> (num >= 1 && den >= 1),
            r is Some ==> r->0 == (Ratio { num, den }),
    {
        if num >= 1 && den >= 1 {
            Some(Ratio { num, den })
        } else {
            None
        }
    }

    /// Exact rational comparison by cross multiplication.
    pub fn lt(&self, other: &Ratio) -> (r: bool)
        ensures
            r == self.spec_lt(*other),
    {
        proof {
            lemma_cross_products_fit(*self, *other);
        }
        (self.num as u64) * (other.den as u64) < (other.num as u64) * (self.den as u64)
    }

    /// Exact rational equality by cross multiplication.
    pub fn eq_ratio(&self, other: &Ratio) -> (r: bool)
        ensures
            r == self.spec_eq_ratio(*other),
    {
        proof {
            lemma_cross_products_fit(*self, *other);
        }
        (self.num as u64) * (other.den as u64) == (other.num as u64) * (self.den as u64)
    }
}

/// The cross products of two ratios fit in 64 bits.
pub(crate) proof fn lemma_cross_products_fit(a: Ratio, b: Ratio)
    ensures
        a.num * b.den <= u64::MAX,
        b.num * a.den <= u64::MAX,
{
    assert(a.num * b.den <= u64::MAX && b.num * a.den <= u64::MAX) by (nonlinear_arith)
        requires
            a.num <= u32::MAX,
            a.den <= u32::MAX,
            b.num <= u32::MAX,
            b.den <= u32::MAX,
    ;
}

} // verus!
