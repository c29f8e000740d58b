use render_core::command::{GlCommand, Rgba, UsageHint};
use render_core::frame::{FrameOp, FrameRenderer, FrameSettings, Uniform};
use render_core::layout::{Attribute, AttributeLayout, ElementType};
use render_core::vertex::Vertex;

fn frame_geometry(array: u32, buffer: u32, vertices: i32) -> Vertex {
    let layout = AttributeLayout::new(vec![Attribute {
        element_type: ElementType::Float,
        element_count: 3,
    }])
    .unwrap();
    let data = vec![0u32; 3 * vertices as usize];
    Vertex::new(array, buffer, data, UsageHint::StaticDraw, layout, vertices).unwrap().0
}

#[test]
fn uniform_names_match_the_shader_contract() {
    assert_eq!(Uniform::Model.name(), "uModel");
    assert_eq!(Uniform::View.name(), "uView");
    assert_eq!(Uniform::Projection.name(), "uProjection");
}

#[test]
fn frame_is_the_exact_operation_sequence() {
    let renderer = FrameRenderer::new(640, 480, 144).unwrap();
    let geometry = frame_geometry(1, 2, 3);
    assert_eq!(
        renderer.render(&geometry),
        vec![
            FrameOp::Gpu(GlCommand::Viewport { x: 0, y: 0, width: 640, height: 480 }),
            FrameOp::Gpu(GlCommand::ClearColor {
                color: Rgba { red: 255, green: 255, blue: 255, alpha: 255 },
            }),
            FrameOp::Gpu(GlCommand::ClearColorBuffer),
            FrameOp::ComputeTransforms { width: 640, height: 480 },
            FrameOp::UseShader,
            FrameOp::SetUniform(Uniform::Model),
            FrameOp::SetUniform(Uniform::View),
            FrameOp::SetUniform(Uniform::Projection),
            FrameOp::Gpu(GlCommand::BindVertexArray { array: 1 }),
            FrameOp::Gpu(GlCommand::DrawTriangles { first: 0, count: 3 }),
            FrameOp::Gpu(GlCommand::BindVertexArray { array: 0 }),
            FrameOp::OverlayBegin,
            FrameOp::OverlayBuild,
            FrameOp::OverlayRender,
            FrameOp::Present,
            FrameOp::Sleep { nanos: 6_944_444 },
        ]
    );
}

#[test]
fn frame_embeds_the_draw_of_its_geometry() {
    let renderer = FrameRenderer::new(800, 600, 60).unwrap();
    let geometry = frame_geometry(41, 42, 6);
    let ops = renderer.render(&geometry);
    let drawn: Vec<FrameOp> = geometry.draw().into_iter().map(FrameOp::Gpu).collect();
    assert_eq!(&ops[8..11], &drawn[..]);
    assert_eq!(ops[0], FrameOp::Gpu(GlCommand::Viewport { x: 0, y: 0, width: 800, height: 600 }));
    assert_eq!(ops[3], FrameOp::ComputeTransforms { width: 800, height: 600 });
    assert_eq!(ops[15], FrameOp::Sleep { nanos: 16_666_666 });
}

#[test]
fn frame_is_the_same_every_time() {
    let renderer = FrameRenderer::new(640, 480, 144).unwrap();
    let geometry = frame_geometry(1, 2, 3);
    let first = renderer.render(&geometry);
    assert_eq!(renderer.render(&geometry), first);
    assert_eq!(renderer.render(&geometry), first);
}

#[test]
fn overlay_render_is_the_last_gpu_operation() {
    let renderer = FrameRenderer::new(640, 480, 144).unwrap();
    let ops = renderer.render(&frame_geometry(1, 2, 3));
    let render_at = ops.iter().position(|op| *op == FrameOp::OverlayRender).unwrap();
    let draw_at = ops
        .iter()
        .position(|op| matches!(op, FrameOp::Gpu(GlCommand::DrawTriangles { .. })))
        .unwrap();
    let present_at = ops.iter().position(|op| *op == FrameOp::Present).unwrap();
    assert!(draw_at < render_at);
    assert!(render_at < present_at);
    for op in &ops[render_at + 1..] {
        assert!(matches!(op, FrameOp::Present | FrameOp::Sleep { .. }));
    }
    assert!(matches!(ops[ops.len() - 1], FrameOp::Sleep { .. }));
}

#[test]
fn renderer_keeps_its_settings() {
    let renderer = FrameRenderer::new(1920, 1080, 75).unwrap();
    assert_eq!(renderer.settings(), FrameSettings { width: 1920, height: 1080, rate_hz: 75 });
}

#[test]
fn renderer_takes_the_largest_viewport() {
    let renderer = FrameRenderer::new(2_147_483_647, 2_147_483_647, 1).unwrap();
    let ops = renderer.render(&frame_geometry(1, 2, 3));
    assert_eq!(
        ops[0],
        FrameOp::Gpu(GlCommand::Viewport { x: 0, y: 0, width: i32::MAX, height: i32::MAX })
    );
    assert_eq!(ops[15], FrameOp::Sleep { nanos: 1_000_000_000 });
}

#[test]
fn renderer_refuses_settings_out_of_range() {
    assert_eq!(FrameRenderer::new(640, 480, 0), None);
    assert_eq!(FrameRenderer::new(2_147_483_648, 480, 144), None);
    assert_eq!(FrameRenderer::new(640, 2_147_483_648, 144), None);
    assert_eq!(FrameRenderer::new(u32::MAX, u32::MAX, 0), None);
    assert!(FrameRenderer::new(0, 0, 1).is_some());
    assert!(FrameRenderer::new(640, 480, u32::MAX).is_some());
}
