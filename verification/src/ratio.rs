//! Exact rational numbers over machine integers.
//!
//! Aspect ratios, letterbox margins and vertex coordinates are all rationals
//! derived from integer pixel sizes. Keeping them as integer fractions makes
//! the geometry exact and reproducible bit for bit across calls.

use crate::types::Pair;
use vstd::prelude::*;

verus! {

/// A rational number `num / den`. Well-formed values have `den > 0`.
#[derive(Clone, Copy, Debug, PartialEq, Eq, Structural)]
pub struct Ratio {
    pub num: i128,
    pub den: i128,
}

impl Ratio {
    /// Numerator and denominator are positive and fit in `u32`: the shape of
    /// every aspect ratio of a pixel size. Products of two such parts stay
    /// far below any `i128` bound.
    pub open spec fn size_bounded(self) -> bool {
        0 < self.num <= u32::MAX && 0 < self.den <= u32::MAX
    }

    /// `self` and `other` denote the same rational (meaningful when both
    /// denominators are positive, as cross-multiplication then keeps the
    /// direction of a comparison).
    pub open spec fn same_value(self, other: Ratio) -> bool {
        self.num * other.den == other.num * self.den
    }

    /// `self < other` as rationals (both denominators assumed positive).
    pub open spec fn lt(self, other: Ratio) -> bool {
        self.num * other.den < other.num * self.den
    }

    /// The value lies in the closed interval `[-1, 1]`.
    pub open spec fn within_unit(self) -> bool {
        -self.den <= self.num <= self.den
    }
}

/// The canonical zero, `0 / 1`.
pub open spec fn ratio_zero() -> Ratio {
    Ratio { num: 0, den: 1 }
}

/// The canonical one, `1 / 1`.
pub open spec fn ratio_one() -> Ratio {
    Ratio { num: 1, den: 1 }
}

/// The aspect ratio of a pixel size `(width, height)`, as `height / width`.
pub open spec fn spec_aspect_of(size: Pair<u32>) -> Ratio {
    Ratio { num: size.1 as i128, den: size.0 as i128 }
}

/// The aspect ratio `height / width` of a positive pixel size.
pub fn aspect_of(size: Pair<u32>) -> (r: Ratio)
    requires
        size.0 > 0,
        size.1 > 0,
    ensures
        r == spec_aspect_of(size),
        r.size_bounded(),
{
    Ratio { num: size.1 as i128, den: size.0 as i128 }
}

} // verus!
