//! The data-model vocabulary: sizes and positions as pairs, the capability
//! traits a frame must offer, and the contract a render context fulfils.

use vstd::prelude::*;

verus! {

/// An ordered pair, used for pixel sizes `(width, height)` and positions.
pub type Pair<Type> = (Type, Type);

/// Something with a pixel size `(width, height)`.
pub trait HasSize<Type> {
    fn size(&self) -> Pair<Type>;
}

/// Something with a placement position `(x, y)`.
pub trait HasPosition<Type> {
    fn position(&self) -> Pair<Type>;
}

/// Something exposing a read-only byte view of its pixel data.
pub trait HasData {
    fn data(&self) -> &[u8];
}

/// The contract a render context fulfils: it is built from its init data,
/// reports its current drawable size, can be reconfigured to a new positive
/// size, and draws at most one pulled frame per call, classifying any
/// failure for its caller.
///
/// The trait itself carries no ghost items, so a backend outside the
/// verified world can still implement it; each verified implementation
/// states the full meaning of these methods as `ensures` on its own impl.
pub trait FrameRenderContext: From<Self::Init> + HasSize<u32> {
    /// What the context is built from: a surface handle, an initial size,
    /// whatever the backend needs.
    type Init;

    /// The classified failure a draw attempt can report.
    type RenderError;

    /// Builds the context and configures it once at its initial size.
    /// A context whose initial size is degenerate is left as built, to be
    /// configured on the first real resize.
    fn init(init: Self::Init) -> Self {
        let mut instance = Self::from(init);
        let size = instance.size();
        if size.0 > 0 && size.1 > 0 {
            instance.configure(size);
        }
        instance
    }

    /// Rebinds the drawable surface to `size` and rebuilds whatever
    /// geometry depends on the viewport.
    fn configure(&mut self, size: Pair<u32>)
        requires
            size.0 > 0,
            size.1 > 0,
    ;

    /// Draws one pulled frame, or succeeds as a no-op when none is
    /// available now.
    fn draw_frame<F: HasSize<u32> + HasPosition<u32> + HasData>(&mut self, frame: Option<F>)
        -> Result<(), Self::RenderError>;
}

/// One unit of pixel data pulled from a frame source: its size in pixels,
/// its placement (always the origin in the current design), and a tightly
/// packed RGBA8 buffer of `4 * width * height` bytes.
pub struct Frame {
    pub size: Pair<u32>,
    pub position: Pair<u32>,
    pub data: Vec<u8>,
}

impl HasSize<u32> for Frame {
    fn size(&self) -> (s: Pair<u32>)
        ensures
            s == self.size,
    {
        self.size
    }
}

impl HasPosition<u32> for Frame {
    fn position(&self) -> (p: Pair<u32>)
        ensures
            p == self.position,
    {
        self.position
    }
}

impl HasData for Frame {
    fn data(&self) -> (d: &[u8])
        ensures
            d@ == self.data@,
    {
        self.data.as_slice()
    }
}

} // verus!
