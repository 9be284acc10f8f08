//! The frame-rendering context as a state machine over plain values.
//!
//! The context owns the logical render state: the surface's drawable size,
//! and the image-dependent resources that are created lazily when the first
//! frame arrives and are never re-created afterwards. Each call decides
//! exactly what a graphics backend must do — reconfigure, allocate once,
//! upload, draw, or skip — so a host can carry those decisions out against
//! a real device while every decision itself is checked here.

use crate::types::{Frame, FrameRenderContext, HasData, HasPosition, HasSize, Pair};
use crate::vertex::{spec_quad_for, vertices_for, Vertex};
use vstd::prelude::*;

verus! {

/// The classified outcome of a failed draw attempt.
#[derive(Clone, Copy, Debug, PartialEq, Eq, Structural)]
pub enum RenderError {
    /// The presentation target became temporarily invalid (for example
    /// outdated after an external resize race). The caller should
    /// reconfigure at the current size and retry on the next redraw.
    RecoverableSurface,
    /// The backend cannot allocate the memory it needs. Fatal: the caller
    /// must terminate the render loop.
    ResourceExhausted,
    /// Any other backend failure for a single frame: the frame is dropped,
    /// no state changes, the loop continues.
    Transient,
    /// The pulled frame breaks the frame-source contract: a zero dimension,
    /// or a pixel buffer whose length is not `4 * width * height`.
    MalformedFrame,
    /// The pulled frame's size differs from the size the texture was
    /// created with. Rejected explicitly: the texture keeps its size and
    /// the frame is not uploaded.
    FrameSizeMismatch,
}

/// What a presentation surface reported when acquiring or presenting a
/// frame failed. A host maps its backend's error onto this.
#[derive(Clone, Copy, Debug, PartialEq, Eq, Structural)]
pub enum SurfaceIssue {
    /// Waiting for the next presentable frame timed out.
    Timeout,
    /// The surface no longer matches the presentation target.
    Outdated,
    /// The underlying swap chain was lost and must be rebuilt.
    Lost,
    /// No memory is left for another frame.
    OutOfMemory,
}

/// What the host loop should do after a draw attempt failed.
#[derive(Clone, Copy, Debug, PartialEq, Eq, Structural)]
pub enum LoopDirective {
    /// Reconfigure the context at the current size and retry next redraw.
    Reconfigure,
    /// Terminate the render loop.
    Terminate,
    /// Drop this frame and continue.
    SkipFrame,
}

/// The drawing decided on for one `draw_frame` call that found a frame, or
/// the decision that there was nothing to do.
#[derive(Clone, Copy, Debug, PartialEq, Eq, Structural)]
pub enum DrawPlan {
    /// No frame was available now: success, nothing is uploaded or drawn,
    /// and the last-rendered image stays on screen.
    Skip,
    /// Upload the frame's pixels into the texture and submit one indexed
    /// draw of the quad. When `allocate` is true this is the first frame:
    /// the texture (sized to this frame), sampler, bind group and pipeline
    /// must be created first.
    Render { allocate: bool },
}

/// The image-dependent render resources, created at most once per context.
pub struct RenderResources {
    /// The pixel size of the first frame; the texture keeps this size for
    /// the rest of the context's lifetime.
    pub frame_size: Pair<u32>,
    /// The current quad vertices: the only piece rebuilt on resize.
    pub vertices: Vec<Vertex>,
}

/// The ghost image of `RenderResources`.
#[verifier::ext_equal]
pub struct ResourcesView {
    pub frame_size: Pair<u32>,
    pub vertices: Seq<Vertex>,
}

/// The ghost image of a `RenderContext`: what every contract speaks about.
#[verifier::ext_equal]
pub struct ContextView {
    pub surface_size: Pair<u32>,
    pub resources: Option<ResourcesView>,
    pub allocations: u32,
}

impl View for RenderResources {
    type V = ResourcesView;

    open spec fn view(&self) -> ResourcesView {
        ResourcesView { frame_size: self.frame_size, vertices: self.vertices@ }
    }
}

impl ResourcesView {
    /// Well-formed against the surface size `surface`: the frame has
    /// positive dimensions and the vertices are exactly the quad for the
    /// frame letterboxed into `surface` — geometry is never stale.
    pub open spec fn wf_for(self, surface: Pair<u32>) -> bool {
        &&& 0 < self.frame_size.0
        &&& 0 < self.frame_size.1
        &&& self.vertices == spec_quad_for(self.frame_size, surface)
    }
}

impl ContextView {
    /// The context invariant: a positive surface size, resources (when
    /// present) well-formed against it, and an allocation count that is 1
    /// exactly when resources exist — they are created at most once.
    pub open spec fn wf(self) -> bool {
        &&& 0 < self.surface_size.0
        &&& 0 < self.surface_size.1
        &&& match self.resources {
            Some(r) => r.wf_for(self.surface_size) && self.allocations == 1,
            None => self.allocations == 0,
        }
    }
}

/// A pulled frame honours the frame-source contract: positive dimensions
/// and a tightly packed RGBA8 buffer of `4 * width * height` bytes.
pub open spec fn spec_frame_ok(size: Pair<u32>, data: Seq<u8>) -> bool {
    &&& 0 < size.0
    &&& 0 < size.1
    &&& data.len() == 4 * size.0 * size.1
}

/// The state after `configure(size)`: the surface size is replaced and,
/// when resources exist, the vertices are rebuilt for the existing frame
/// size against the new viewport. Texture size and allocation count are
/// untouched: a resize never reallocates anything but the vertex data.
pub open spec fn spec_configure(s: ContextView, size: Pair<u32>) -> ContextView {
    ContextView {
        surface_size: size,
        resources: match s.resources {
            Some(r) => Some(
                ResourcesView {
                    frame_size: r.frame_size,
                    vertices: spec_quad_for(r.frame_size, size),
                },
            ),
            None => None,
        },
        allocations: s.allocations,
    }
}

/// The state after the one-time resource creation for a first frame of
/// size `frame_size`: the texture takes the frame's size, the vertices are
/// the quad for it against the current surface, and the allocation count
/// rises by one.
pub open spec fn spec_allocate(s: ContextView, frame_size: Pair<u32>) -> ContextView {
    ContextView {
        surface_size: s.surface_size,
        resources: Some(
            ResourcesView {
                frame_size,
                vertices: spec_quad_for(frame_size, s.surface_size),
            },
        ),
        allocations: (s.allocations + 1) as u32,
    }
}

/// The frame-rendering context: surface size plus lazily created
/// resources. `allocations` counts resource creations, so that "created at
/// most once" is part of the contract, not a comment.
pub struct RenderContext {
    pub surface_size: Pair<u32>,
    pub resources: Option<RenderResources>,
    pub allocations: u32,
}

impl View for RenderContext {
    type V = ContextView;

    open spec fn view(&self) -> ContextView {
        ContextView {
            surface_size: self.surface_size,
            resources: match self.resources {
                Some(r) => Some(r@),
                None => None,
            },
            allocations: self.allocations,
        }
    }
}

impl RenderContext {
    /// A freshly configured context: bound to a surface of the given
    /// positive size, with no image-dependent resources yet.
    pub fn new(surface_size: Pair<u32>) -> (r: Self)
        requires
            0 < surface_size.0,
            0 < surface_size.1,
        ensures
            r@ == (ContextView { surface_size, resources: None, allocations: 0 }),
            r@.wf(),
    {
        RenderContext { surface_size, resources: None, allocations: 0 }
    }

    /// Reconfigures the context to a new drawable size. When resources
    /// exist, only the vertices are rebuilt — against the existing frame
    /// size and the new viewport; texture, sampler, bind group and
    /// pipeline are untouched.
    pub fn configure(&mut self, size: Pair<u32>)
        requires
            0 < size.0,
            0 < size.1,
            old(self)@.resources matches Some(r) ==> 0 < r.frame_size.0 && 0 < r.frame_size.1,
        ensures
            final(self)@ == spec_configure(old(self)@, size),
            old(self)@.wf() ==> final(self)@.wf(),
    {
        self.surface_size = size;
        if self.resources.is_some() {
            let frame_size = self.resources.as_ref().unwrap().frame_size;
            let vertices = vertices_for(frame_size, size);
            self.resources = Some(RenderResources { frame_size, vertices });
        }
        proof {
            assert(self@ =~~= spec_configure(old(self)@, size));
        }
    }

    /// Decides the drawing for one frame pull.
    ///
    /// No frame: a no-op success. A malformed frame, or one whose size
    /// differs from the texture's, is rejected without any state change.
    /// Otherwise the decision is to render — allocating the resources
    /// first if and only if this is the first frame.
    pub fn plan_draw(&mut self, frame: Option<&Frame>) -> (r: Result<DrawPlan, RenderError>)
        requires
            0 < old(self)@.surface_size.0,
            0 < old(self)@.surface_size.1,
            old(self)@.allocations < 0xffff_ffff,
        ensures
            old(self)@.wf() ==> final(self)@.wf(),
            final(self)@.surface_size == old(self)@.surface_size,
            frame is None ==> r == Ok::<DrawPlan, RenderError>(DrawPlan::Skip) && final(self)@
                == old(self)@,
            frame matches Some(f) ==> ({
                let ok = spec_frame_ok(f.size, f.data@);
                &&& !ok ==> r == Err::<DrawPlan, RenderError>(RenderError::MalformedFrame)
                    && final(self)@ == old(self)@
                &&& ok ==> ({
                    &&& old(self)@.resources is None ==> r == Ok::<DrawPlan, RenderError>(
                        DrawPlan::Render { allocate: true },
                    ) && final(self)@ == spec_allocate(old(self)@, f.size)
                    &&& old(self)@.resources matches Some(res) ==> ({
                        &&& res.frame_size == f.size ==> r == Ok::<DrawPlan, RenderError>(
                            DrawPlan::Render { allocate: false },
                        ) && final(self)@ == old(self)@
                        &&& res.frame_size != f.size ==> r == Err::<DrawPlan, RenderError>(
                            RenderError::FrameSizeMismatch,
                        ) && final(self)@ == old(self)@
                    })
                })
            }),
    {
        match frame {
            None => Ok(DrawPlan::Skip),
            Some(f) => {
                let (width, height) = f.size;
                proof {
                    assert((4 * (width as int)) * (height as int) < 0x1_0000_0000_0000_0000_0000)
                        by (nonlinear_arith)
                        requires
                            width <= 0xffff_ffffu32,
                            height <= 0xffff_ffffu32,
                    ;
                }
                let bytes_needed = 4u128 * (width as u128) * (height as u128);
                if width == 0 || height == 0 || (f.data.len() as u128) != bytes_needed {
                    Err(RenderError::MalformedFrame)
                } else if self.resources.is_none() {
                    let vertices = vertices_for((width, height), self.surface_size);
                    self.resources = Some(
                        RenderResources { frame_size: (width, height), vertices },
                    );
                    self.allocations = self.allocations + 1;
                    proof {
                        assert(self@ =~~= spec_allocate(old(self)@, f.size));
                    }
                    Ok(DrawPlan::Render { allocate: true })
                } else {
                    let existing = self.resources.as_ref().unwrap().frame_size;
                    if existing.0 == width && existing.1 == height {
                        Ok(DrawPlan::Render { allocate: false })
                    } else {
                        Err(RenderError::FrameSizeMismatch)
                    }
                }
            },
        }
    }
}

impl HasSize<u32> for RenderContext {
    fn size(&self) -> (s: Pair<u32>)
        ensures
            s == self.surface_size,
    {
        self.surface_size
    }
}

/// The classification of a surface report (the fixed error taxonomy): a
/// temporarily invalid target is recoverable, memory exhaustion is fatal,
/// a timeout is a transient single-frame failure.
pub open spec fn spec_classify(issue: SurfaceIssue) -> RenderError {
    match issue {
        SurfaceIssue::Timeout => RenderError::Transient,
        SurfaceIssue::Outdated => RenderError::RecoverableSurface,
        SurfaceIssue::Lost => RenderError::RecoverableSurface,
        SurfaceIssue::OutOfMemory => RenderError::ResourceExhausted,
    }
}

/// Classifies what the presentation surface reported into the error the
/// draw call returns to its caller.
pub fn classify_surface_issue(issue: SurfaceIssue) -> (r: RenderError)
    ensures
        r == spec_classify(issue),
{
    match issue {
        SurfaceIssue::Timeout => RenderError::Transient,
        SurfaceIssue::Outdated => RenderError::RecoverableSurface,
        SurfaceIssue::Lost => RenderError::RecoverableSurface,
        SurfaceIssue::OutOfMemory => RenderError::ResourceExhausted,
    }
}

/// What the host loop does for each error: reconfigure on a recoverable
/// surface, terminate on exhaustion, and otherwise drop the frame and go
/// on.
pub open spec fn spec_directive(error: RenderError) -> LoopDirective {
    match error {
        RenderError::RecoverableSurface => LoopDirective::Reconfigure,
        RenderError::ResourceExhausted => LoopDirective::Terminate,
        RenderError::Transient => LoopDirective::SkipFrame,
        RenderError::MalformedFrame => LoopDirective::SkipFrame,
        RenderError::FrameSizeMismatch => LoopDirective::SkipFrame,
    }
}

/// The host loop's reaction to a failed draw attempt.
pub fn directive_for(error: RenderError) -> (r: LoopDirective)
    ensures
        r == spec_directive(error),
{
    match error {
        RenderError::RecoverableSurface => LoopDirective::Reconfigure,
        RenderError::ResourceExhausted => LoopDirective::Terminate,
        RenderError::Transient => LoopDirective::SkipFrame,
        RenderError::MalformedFrame => LoopDirective::SkipFrame,
        RenderError::FrameSizeMismatch => LoopDirective::SkipFrame,
    }
}

/// Picks which of the surface's supported formats the context uses:
/// the first sRGB-capable one, or the first format of all when none is.
/// `srgb[i]` says whether the backend's i-th supported format is sRGB.
pub fn select_format_index(srgb: &Vec<bool>) -> (r: usize)
    requires
        srgb@.len() > 0,
    ensures
        r < srgb@.len(),
        (exists|i: int| 0 <= i < srgb@.len() && srgb@[i]) ==> srgb@[r as int] && (forall|j: int|
            0 <= j < r ==> !srgb@[j]),
        (forall|i: int| 0 <= i < srgb@.len() ==> !srgb@[i]) ==> r == 0,
{
    let mut i: usize = 0;
    while i < srgb.len()
        invariant
            i <= srgb@.len(),
            forall|j: int| 0 <= j < i ==> !srgb@[j],
        decreases srgb@.len() - i,
    {
        if srgb[i] {
            return i;
        }
        i = i + 1;
    }
    0
}

/// The upload layout for a tightly packed RGBA8 frame of the given size:
/// `4 * width` bytes per row and `height` rows per image, with no padding.
pub fn data_layout(size: Pair<u32>) -> (r: (u32, u32))
    requires
        size.0 <= 0x3fff_ffff,
    ensures
        r.0 == 4 * size.0,
        r.1 == size.1,
{
    (4 * size.0, size.1)
}

/// Calling `configure` twice in a row with the same size produces the same
/// state — in particular, bit-for-bit the same vertices — as calling it
/// once.
pub proof fn lemma_configure_idempotent(s: ContextView, size: Pair<u32>)
    ensures
        spec_configure(spec_configure(s, size), size) == spec_configure(s, size),
{
    assert(spec_configure(spec_configure(s, size), size) =~~= spec_configure(s, size));
}

/// The state after a sequence of `configure` calls, applied left to right.
pub open spec fn spec_configure_all(s: ContextView, sizes: Seq<Pair<u32>>) -> ContextView
    decreases sizes.len(),
{
    if sizes.len() == 0 {
        s
    } else {
        spec_configure_all(spec_configure(s, sizes[0]), sizes.subrange(1, sizes.len() as int))
    }
}

/// Resize-only invariant: any number of consecutive `configure` calls
/// never creates or drops resources. The allocation count is untouched,
/// resources exist afterwards exactly if they existed before, and the
/// texture's frame size is preserved; only the surface size and the
/// vertices change.
pub proof fn lemma_configure_never_reallocates(s: ContextView, sizes: Seq<Pair<u32>>)
    ensures
        spec_configure_all(s, sizes).allocations == s.allocations,
        spec_configure_all(s, sizes).resources is Some <==> s.resources is Some,
        s.resources matches Some(r) ==> spec_configure_all(s, sizes).resources matches Some(r2)
            && r2.frame_size == r.frame_size,
    decreases sizes.len(),
{
    if sizes.len() > 0 {
        lemma_configure_never_reallocates(
            spec_configure(s, sizes[0]),
            sizes.subrange(1, sizes.len() as int),
        );
    }
}

impl FrameRenderContext for RenderContext {
    type Init = Pair<u32>;

    type RenderError = RenderError;

    /// Overrides the default to pin the built context exactly: the given
    /// surface size, no resources yet, nothing allocated. Configuring a
    /// resource-less context only rebinds its size, so the one `configure`
    /// the default performs leaves the same state.
    fn init(init: Pair<u32>) -> (r: Self)
        ensures
            r@ == (ContextView { surface_size: init, resources: None, allocations: 0 }),
            init.0 > 0 && init.1 > 0 ==> r@.wf(),
    {
        let mut instance = RenderContext::from(init);
        let size = instance.size();
        if size.0 > 0 && size.1 > 0 {
            RenderContext::configure(&mut instance, size);
        }
        instance
    }

    fn configure(&mut self, size: Pair<u32>)
        ensures
            final(self)@.surface_size == size,
            old(self)@.wf() ==> final(self)@ == spec_configure(old(self)@, size),
            old(self)@.wf() ==> final(self)@.wf(),
    {
        let frame_size_ok = match self.resources.as_ref() {
            Some(r) => r.frame_size.0 > 0 && r.frame_size.1 > 0,
            None => true,
        };
        if frame_size_ok {
            RenderContext::configure(self, size);
        } else {
            self.surface_size = size;
        }
    }

    fn draw_frame<F: HasSize<u32> + HasPosition<u32> + HasData>(
        &mut self,
        frame: Option<F>,
    ) -> (r: Result<(), RenderError>)
        ensures
            final(self)@.surface_size == old(self)@.surface_size,
            old(self)@.wf() ==> final(self)@.wf(),
            old(self)@.wf() && frame is None ==> r == Ok::<(), RenderError>(()) && final(self)@
                == old(self)@,
            old(self)@.resources is Some ==> final(self)@.resources == old(self)@.resources,
            !(0 < old(self)@.surface_size.0 && 0 < old(self)@.surface_size.1 && old(
                self,
            )@.allocations < 0xffff_ffff) ==> r == Err::<(), RenderError>(RenderError::Transient)
                && final(self)@ == old(self)@,
    {
        if self.surface_size.0 == 0 || self.surface_size.1 == 0 || self.allocations
            == 0xffff_ffff {
            return Err(RenderError::Transient);
        }
        let converted = match frame {
            Some(f) => {
                let size = f.size();
                let position = f.position();
                let mut data: Vec<u8> = Vec::new();
                data.extend_from_slice(f.data());
                Some(Frame { size, position, data })
            },
            None => None,
        };
        match self.plan_draw(converted.as_ref()) {
            Ok(_) => Ok(()),
            Err(e) => Err(e),
        }
    }
}

impl From<Pair<u32>> for RenderContext {
    fn from(surface_size: Pair<u32>) -> (r: Self) {
        RenderContext { surface_size, resources: None, allocations: 0 }
    }
}

impl vstd::std_specs::convert::FromSpecImpl<Pair<u32>> for RenderContext {
    open spec fn obeys_from_spec() -> bool {
        true
    }

    open spec fn from_spec(surface_size: Pair<u32>) -> RenderContext {
        RenderContext { surface_size, resources: None, allocations: 0 }
    }
}

} // verus!
