//! The textured quad: four corner vertices inset by the letterbox margins,
//! and the fixed index list that splits the quad into two triangles.

use crate::ratio::{aspect_of, ratio_one, ratio_zero, spec_aspect_of, Ratio};
use crate::types::Pair;
use crate::viewport::{lemma_fit_margins_bounded, spec_fit, spec_margins, ViewPortMargin};
use vstd::prelude::*;

verus! {

/// One corner of the quad: a position in `[-1, 1]` on each axis, paired
/// with its texture coordinate in `[0, 1]`.
#[derive(Clone, Copy, Debug, PartialEq, Eq)]
pub struct Vertex {
    pub position: Pair<Ratio>,
    pub texture_coords: Pair<Ratio>,
}

/// The index list of the quad's two counter-clockwise triangles. It is
/// independent of the geometry and never recomputed; only vertex positions
/// change across resizes.
pub const INDICES: [u16; 6] = [0, 2, 1, 2, 3, 1];

/// The four corner vertices of a centered rectangle inset from the full
/// `[-1, 1]` quad by the margin pair `(h, v)`: each margin is the inset of
/// each side as a fraction of the full quad extent, so a side moves inward
/// by `2 * margin` in coordinate units. Order and texture mapping are
/// fixed: top-left, top-right, bottom-left, bottom-right.
pub open spec fn spec_quad_from_margins(h: Ratio, v: Ratio) -> Seq<Vertex> {
    let x_left = Ratio { num: (2 * h.num - h.den) as i128, den: h.den };
    let x_right = Ratio { num: (h.den - 2 * h.num) as i128, den: h.den };
    let y_top = Ratio { num: (v.den - 2 * v.num) as i128, den: v.den };
    let y_bottom = Ratio { num: (2 * v.num - v.den) as i128, den: v.den };
    seq![
        Vertex { position: (x_left, y_top), texture_coords: (ratio_zero(), ratio_zero()) },
        Vertex { position: (x_right, y_top), texture_coords: (ratio_one(), ratio_zero()) },
        Vertex { position: (x_left, y_bottom), texture_coords: (ratio_zero(), ratio_one()) },
        Vertex { position: (x_right, y_bottom), texture_coords: (ratio_one(), ratio_one()) },
    ]
}

/// The quad for `(object, viewport)` aspect ratios: the margins of their
/// fit, applied to the unit quad.
pub open spec fn spec_quad(object: Ratio, viewport: Ratio) -> Seq<Vertex> {
    let margins = spec_margins(spec_fit(object, viewport));
    spec_quad_from_margins(margins.0, margins.1)
}

/// The quad for a frame of pixel size `frame` letterboxed into a viewport
/// of pixel size `viewport`.
pub open spec fn spec_quad_for(frame: Pair<u32>, viewport: Pair<u32>) -> Seq<Vertex> {
    spec_quad(spec_aspect_of(frame), spec_aspect_of(viewport))
}

impl Vertex {
    /// Builds the four quad vertices for `(object, viewport)` aspect
    /// ratios, each given as height over width.
    pub fn get_vertices(aspect_ratios: (Ratio, Ratio)) -> (r: Vec<Vertex>)
        requires
            aspect_ratios.0.size_bounded(),
            aspect_ratios.1.size_bounded(),
        ensures
            r@ == spec_quad(aspect_ratios.0, aspect_ratios.1),
            r@.len() == 4,
    {
        let (h_margin, v_margin) = ViewPortMargin::from(aspect_ratios).into();
        proof {
            lemma_fit_margins_bounded(aspect_ratios.0, aspect_ratios.1);
        }
        let x_left = Ratio { num: 2 * h_margin.num - h_margin.den, den: h_margin.den };
        let x_right = Ratio { num: h_margin.den - 2 * h_margin.num, den: h_margin.den };
        let y_top = Ratio { num: v_margin.den - 2 * v_margin.num, den: v_margin.den };
        let y_bottom = Ratio { num: 2 * v_margin.num - v_margin.den, den: v_margin.den };
        let zero = Ratio { num: 0, den: 1 };
        let one = Ratio { num: 1, den: 1 };
        let mut out: Vec<Vertex> = Vec::new();
        out.push(Vertex { position: (x_left, y_top), texture_coords: (zero, zero) });
        out.push(Vertex { position: (x_right, y_top), texture_coords: (one, zero) });
        out.push(Vertex { position: (x_left, y_bottom), texture_coords: (zero, one) });
        out.push(Vertex { position: (x_right, y_bottom), texture_coords: (one, one) });
        proof {
            assert(out@ =~= spec_quad(aspect_ratios.0, aspect_ratios.1));
        }
        out
    }
}

/// Builds the four quad vertices for a frame of pixel size `frame`
/// letterboxed into a viewport of pixel size `viewport`.
pub fn vertices_for(frame: Pair<u32>, viewport: Pair<u32>) -> (r: Vec<Vertex>)
    requires
        frame.0 > 0,
        frame.1 > 0,
        viewport.0 > 0,
        viewport.1 > 0,
    ensures
        r@ == spec_quad_for(frame, viewport),
        r@.len() == 4,
{
    Vertex::get_vertices((aspect_of(frame), aspect_of(viewport)))
}

/// The quad of any fit is exactly four vertices; every position lies within
/// `[-1, 1]` on both axes; and the texture coordinates are exactly the four
/// unit-square corners in the fixed winding: top-left `(0,0)`, top-right
/// `(1,0)`, bottom-left `(0,1)`, bottom-right `(1,1)`.
pub proof fn lemma_quad_in_unit_square(object: Ratio, viewport: Ratio)
    requires
        object.size_bounded(),
        viewport.size_bounded(),
    ensures
        spec_quad(object, viewport).len() == 4,
        forall|i: int|
            0 <= i < 4 ==> (#[trigger] spec_quad(object, viewport)[i]).position.0.within_unit()
                && spec_quad(object, viewport)[i].position.1.within_unit(),
        spec_quad(object, viewport)[0].texture_coords == (ratio_zero(), ratio_zero()),
        spec_quad(object, viewport)[1].texture_coords == (ratio_one(), ratio_zero()),
        spec_quad(object, viewport)[2].texture_coords == (ratio_zero(), ratio_one()),
        spec_quad(object, viewport)[3].texture_coords == (ratio_one(), ratio_one()),
{
    lemma_fit_margins_bounded(object, viewport);
}

} // verus!
