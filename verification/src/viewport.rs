//! Letterbox fitting: the margin needed to center a rectangle of one aspect
//! ratio inside a viewport of another, preserving the rectangle's shape.

use crate::ratio::{ratio_zero, Ratio};
use vstd::prelude::*;

verus! {

/// The normalized inset applied to exactly one axis of the `[-1, 1]` quad so
/// the object keeps its aspect ratio inside the viewport. `Horizontal(m)`
/// insets the x axis (bars left and right), `Vertical(m)` the y axis (bars
/// above and below); the other axis has margin zero. A well-formed margin
/// lies in `[0, 1/2)`: it is the inset of each side as a fraction of the
/// full quad extent.
#[derive(Clone, Copy, Debug, PartialEq, Eq, Structural)]
pub enum ViewPortMargin {
    Horizontal(Ratio),
    Vertical(Ratio),
}

/// The margin chosen for aspect ratios `object = ho/wo` and
/// `viewport = hv/wv` (both as height over width).
///
/// If the object is relatively taller (`object > viewport`), its height
/// fills the viewport and the x axis is inset by
/// `(1 - viewport/object) / 2 = (ho*wv - hv*wo) / (2*ho*wv)`; otherwise the
/// y axis is inset by `(1 - object/viewport) / 2 = (hv*wo - ho*wv) /
/// (2*hv*wo)`. Equal ratios fall in the second branch, giving `Vertical`
/// with an exactly zero margin.
pub open spec fn spec_fit(object: Ratio, viewport: Ratio) -> ViewPortMargin {
    if viewport.lt(object) {
        ViewPortMargin::Horizontal(
            Ratio {
                num: (object.num * viewport.den - viewport.num * object.den) as i128,
                den: (2 * (object.num * viewport.den)) as i128,
            },
        )
    } else {
        ViewPortMargin::Vertical(
            Ratio {
                num: (viewport.num * object.den - object.num * viewport.den) as i128,
                den: (2 * (viewport.num * object.den)) as i128,
            },
        )
    }
}

/// The `(horizontal, vertical)` margin pair a fit denotes: the chosen axis
/// keeps its margin, the other axis gets the canonical zero.
pub open spec fn spec_margins(fit: ViewPortMargin) -> (Ratio, Ratio) {
    match fit {
        ViewPortMargin::Horizontal(m) => (m, ratio_zero()),
        ViewPortMargin::Vertical(m) => (ratio_zero(), m),
    }
}

impl ViewPortMargin {
    /// Computes the letterbox margin for `(object, viewport)` aspect ratios,
    /// each given as height over width.
    pub fn from(aspect_ratios: (Ratio, Ratio)) -> (r: Self)
        requires
            aspect_ratios.0.size_bounded(),
            aspect_ratios.1.size_bounded(),
        ensures
            r == spec_fit(aspect_ratios.0, aspect_ratios.1),
    {
        let (object, viewport) = aspect_ratios;
        proof {
            lemma_cross_products_bounded(object, viewport);
        }
        if object.num * viewport.den > viewport.num * object.den {
            ViewPortMargin::Horizontal(
                Ratio {
                    num: object.num * viewport.den - viewport.num * object.den,
                    den: 2 * (object.num * viewport.den),
                },
            )
        } else {
            ViewPortMargin::Vertical(
                Ratio {
                    num: viewport.num * object.den - object.num * viewport.den,
                    den: 2 * (viewport.num * object.den),
                },
            )
        }
    }

    /// Splits the fit into the `(horizontal, vertical)` margin pair.
    pub fn into(self) -> (r: (Ratio, Ratio))
        ensures
            r == spec_margins(self),
    {
        match self {
            ViewPortMargin::Horizontal(margin) => (margin, Ratio { num: 0, den: 1 }),
            ViewPortMargin::Vertical(margin) => (Ratio { num: 0, den: 1 }, margin),
        }
    }
}

/// A well-formed letterbox margin: a rational in `[0, 1/2]` whose
/// denominator is positive and stays far below the `i128` bound, so that
/// the vertex coordinates derived from it can be computed exactly.
pub open spec fn margin_ok(m: Ratio) -> bool {
    &&& 0 <= m.num
    &&& 2 * m.num <= m.den
    &&& 0 < m.den <= 0x2_0000_0000_0000_0000
}

/// Both margins produced by a fit of size-bounded aspect ratios are
/// well-formed in the sense of `margin_ok`.
pub proof fn lemma_fit_margins_bounded(object: Ratio, viewport: Ratio)
    requires
        object.size_bounded(),
        viewport.size_bounded(),
    ensures
        margin_ok(spec_margins(spec_fit(object, viewport)).0),
        margin_ok(spec_margins(spec_fit(object, viewport)).1),
{
    lemma_cross_products_bounded(object, viewport);
}

/// Cross products of two size-bounded ratios stay far below `i128` bounds.
proof fn lemma_cross_products_bounded(a: Ratio, b: Ratio)
    requires
        a.size_bounded(),
        b.size_bounded(),
    ensures
        0 < a.num * b.den <= 0xffff_ffff_ffff_ffff,
        0 < b.num * a.den <= 0xffff_ffff_ffff_ffff,
{
    assert(0 < a.num * b.den <= 0xffff_ffff * 0xffff_ffff) by (nonlinear_arith)
        requires
            0 < a.num <= 0xffff_ffff,
            0 < b.den <= 0xffff_ffff,
    ;
    assert(0 < b.num * a.den <= 0xffff_ffff * 0xffff_ffff) by (nonlinear_arith)
        requires
            0 < b.num <= 0xffff_ffff,
            0 < a.den <= 0xffff_ffff,
    ;
}

/// With equal aspect ratios the fit adds no bars at all: the margin is
/// exactly zero, on the deterministically chosen vertical axis.
pub proof fn lemma_fit_equal_aspect(object: Ratio, viewport: Ratio)
    requires
        object.size_bounded(),
        viewport.size_bounded(),
        object.same_value(viewport),
    ensures
        spec_fit(object, viewport) matches ViewPortMargin::Vertical(m) && m.num == 0 && m.den
            > 0,
{
    lemma_cross_products_bounded(object, viewport);
}

/// A relatively taller object (`object > viewport` as height over width) is
/// fitted with a horizontal margin strictly between 0 and 1/2.
pub proof fn lemma_fit_wider_bounds(object: Ratio, viewport: Ratio)
    requires
        object.size_bounded(),
        viewport.size_bounded(),
        viewport.lt(object),
    ensures
        spec_fit(object, viewport) matches ViewPortMargin::Horizontal(m) && 0 < m.num && 2 * m.num
            < m.den,
{
    lemma_cross_products_bounded(object, viewport);
}

/// Symmetrically, a relatively shorter object (`object < viewport`) is
/// fitted with a vertical margin strictly between 0 and 1/2.
pub proof fn lemma_fit_taller_bounds(object: Ratio, viewport: Ratio)
    requires
        object.size_bounded(),
        viewport.size_bounded(),
        object.lt(viewport),
    ensures
        spec_fit(object, viewport) matches ViewPortMargin::Vertical(m) && 0 < m.num && 2 * m.num
            < m.den,
{
    lemma_cross_products_bounded(object, viewport);
}

/// The horizontal margin grows strictly with the quotient of the aspect
/// ratios: if `object1/viewport1 < object2/viewport2` (both in the
/// horizontal branch), the first margin is strictly below the second.
pub proof fn lemma_fit_wider_monotonic(
    object1: Ratio,
    viewport1: Ratio,
    object2: Ratio,
    viewport2: Ratio,
)
    requires
        object1.size_bounded(),
        viewport1.size_bounded(),
        object2.size_bounded(),
        viewport2.size_bounded(),
        viewport1.lt(object1),
        viewport2.lt(object2),
        (object1.num * viewport1.den) * (viewport2.num * object2.den) < (object2.num
            * viewport2.den) * (viewport1.num * object1.den),
    ensures
        spec_fit(object1, viewport1) matches ViewPortMargin::Horizontal(m1) && spec_fit(
            object2,
            viewport2,
        ) matches ViewPortMargin::Horizontal(m2) && m1.lt(m2),
{
    lemma_cross_products_bounded(object1, viewport1);
    lemma_cross_products_bounded(object2, viewport2);
    let a1 = object1.num * viewport1.den;
    let b1 = viewport1.num * object1.den;
    let a2 = object2.num * viewport2.den;
    let b2 = viewport2.num * object2.den;
    assert((a1 - b1) * (2 * a2) < (a2 - b2) * (2 * a1)) by (nonlinear_arith)
        requires
            a1 * b2 < a2 * b1,
            0 < a1,
            0 < a2,
    ;
}

} // verus!
