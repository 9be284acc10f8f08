use egami::render::{
    classify_surface_issue, data_layout, directive_for, select_format_index, DrawPlan,
    LoopDirective, RenderContext, RenderError, SurfaceIssue,
};
use egami::types::{Frame, FrameRenderContext, HasSize};

fn rgba_frame(width: u32, height: u32) -> Frame {
    Frame {
        size: (width, height),
        position: (0, 0),
        data: vec![0u8; (4 * width * height) as usize],
    }
}

#[test]
fn draw_with_no_frame_is_a_noop_success() {
    let mut ctx = RenderContext::new((1600, 900));
    let outcome = ctx.plan_draw(None);
    assert_eq!(outcome, Ok(DrawPlan::Skip));
    assert!(ctx.resources.is_none());
    assert_eq!(ctx.allocations, 0);
}

#[test]
fn first_frame_allocates_once_and_second_size_is_rejected() {
    let mut ctx = RenderContext::new((1600, 900));
    let first = rgba_frame(100, 50);
    let outcome = ctx.plan_draw(Some(&first));
    assert_eq!(outcome, Ok(DrawPlan::Render { allocate: true }));
    assert_eq!(ctx.resources.as_ref().unwrap().frame_size, (100, 50));
    assert_eq!(ctx.allocations, 1);

    // A frame of another size is rejected explicitly: the texture keeps
    // its size and nothing changes.
    let second = rgba_frame(200, 50);
    let outcome = ctx.plan_draw(Some(&second));
    assert_eq!(outcome, Err(RenderError::FrameSizeMismatch));
    assert_eq!(ctx.resources.as_ref().unwrap().frame_size, (100, 50));
    assert_eq!(ctx.allocations, 1);

    // A frame of the first size only re-uploads; nothing is allocated.
    let again = rgba_frame(100, 50);
    let outcome = ctx.plan_draw(Some(&again));
    assert_eq!(outcome, Ok(DrawPlan::Render { allocate: false }));
    assert_eq!(ctx.allocations, 1);
}

#[test]
fn malformed_frames_are_rejected_without_state_change() {
    let mut ctx = RenderContext::new((640, 480));
    let zero_width = Frame { size: (0, 5), position: (0, 0), data: vec![] };
    assert_eq!(ctx.plan_draw(Some(&zero_width)), Err(RenderError::MalformedFrame));
    let short_buffer = Frame { size: (2, 2), position: (0, 0), data: vec![0u8; 15] };
    assert_eq!(ctx.plan_draw(Some(&short_buffer)), Err(RenderError::MalformedFrame));
    assert!(ctx.resources.is_none());
    assert_eq!(ctx.allocations, 0);
}

#[test]
fn configure_twice_with_same_size_gives_identical_vertices() {
    let mut ctx = RenderContext::new((1600, 900));
    let frame = rgba_frame(800, 600);
    ctx.plan_draw(Some(&frame)).unwrap();

    let mut once = RenderContext::new((1600, 900));
    once.plan_draw(Some(&rgba_frame(800, 600))).unwrap();
    once.configure((1024, 768));
    ctx.configure((1024, 768));
    ctx.configure((1024, 768));
    assert_eq!(
        ctx.resources.as_ref().unwrap().vertices,
        once.resources.as_ref().unwrap().vertices
    );
}

#[test]
fn configure_storm_never_reallocates() {
    let mut ctx = RenderContext::new((1600, 900));
    ctx.plan_draw(Some(&rgba_frame(100, 50))).unwrap();
    let sizes = [(10u32, 10u32), (1600, 900), (3, 7), (1024, 768), (1, 1), (500, 500)];
    for size in sizes.iter() {
        ctx.configure(*size);
        assert_eq!(ctx.allocations, 1);
        assert_eq!(ctx.resources.as_ref().unwrap().frame_size, (100, 50));
    }
    assert_eq!(ctx.surface_size, (500, 500));
}

#[test]
fn configure_rebuilds_vertices_for_new_viewport() {
    let mut ctx = RenderContext::new((100, 100));
    ctx.plan_draw(Some(&rgba_frame(100, 50))).unwrap();
    let square_viewport = ctx.resources.as_ref().unwrap().vertices.clone();
    ctx.configure((200, 100));
    let wide_viewport = ctx.resources.as_ref().unwrap().vertices.clone();
    assert_ne!(square_viewport, wide_viewport);
}

#[test]
fn surface_issues_classify_per_taxonomy() {
    assert_eq!(classify_surface_issue(SurfaceIssue::Outdated), RenderError::RecoverableSurface);
    assert_eq!(classify_surface_issue(SurfaceIssue::Lost), RenderError::RecoverableSurface);
    assert_eq!(classify_surface_issue(SurfaceIssue::OutOfMemory), RenderError::ResourceExhausted);
    assert_eq!(classify_surface_issue(SurfaceIssue::Timeout), RenderError::Transient);
}

#[test]
fn loop_directives_per_error() {
    assert_eq!(directive_for(RenderError::RecoverableSurface), LoopDirective::Reconfigure);
    assert_eq!(directive_for(RenderError::ResourceExhausted), LoopDirective::Terminate);
    assert_eq!(directive_for(RenderError::Transient), LoopDirective::SkipFrame);
    assert_eq!(directive_for(RenderError::MalformedFrame), LoopDirective::SkipFrame);
    assert_eq!(directive_for(RenderError::FrameSizeMismatch), LoopDirective::SkipFrame);
}

#[test]
fn format_selection_prefers_first_srgb() {
    assert_eq!(select_format_index(&vec![false, true, true]), 1);
    assert_eq!(select_format_index(&vec![true, false]), 0);
    assert_eq!(select_format_index(&vec![false, false, false]), 0);
}

#[test]
fn upload_layout_is_tightly_packed() {
    assert_eq!(data_layout((100, 50)), (400, 50));
}

#[test]
fn context_fulfils_the_render_contract() {
    let mut ctx = RenderContext::init((640, 480));
    assert_eq!(ctx.size(), (640, 480));
    assert_eq!(ctx.draw_frame::<Frame>(None), Ok(()));
    assert_eq!(ctx.draw_frame(Some(rgba_frame(32, 16))), Ok(()));
    assert_eq!(ctx.draw_frame(Some(rgba_frame(64, 16))), Err(RenderError::FrameSizeMismatch));
    FrameRenderContext::configure(&mut ctx, (800, 600));
    assert_eq!(ctx.size(), (800, 600));
    assert_eq!(ctx.allocations, 1);
}
