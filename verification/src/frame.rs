//! The frame: what one pass of the renderer does, step by step.
//!
//! A frame is not stored anywhere. It is the order of its operations that
//! matters, and [`frame_ops`] fixes that order.

use vstd::prelude::*;
use crate::command::{GlCommand, Rgba};
use crate::pacing::{frame_interval, frame_interval_nanos};
use crate::vertex::{draw_commands, Vertex, VertexView};

verus! {

/// One of the three matrices that the shader program takes.
#[derive(Clone, Copy, Debug, PartialEq, Eq, Structural)]
pub enum Uniform {
    Model,
    View,
    Projection,
}

impl Uniform {
    /// Name of the uniform in the shader source.
    pub open spec fn name_spec(self) -> Seq<char> {
        match self {
            Uniform::Model => "uModel"@,
            Uniform::View => "uView"@,
            Uniform::Projection => "uProjection"@,
        }
    }

    /// Name of the uniform in the shader source.
    pub fn name(self) -> (name: &'static str)
        ensures
            name@ == self.name_spec(),
    {
        match self {
            Uniform::Model => "uModel",
            Uniform::View => "uView",
            Uniform::Projection => "uProjection",
        }
    }
}

/// One operation of a frame.
#[derive(Clone, Debug, PartialEq, Eq)]
pub enum FrameOp {
    /// Issue one GPU command.
    Gpu(GlCommand),
    /// Recompute the transforms: the model matrix is the identity, the view
    /// matrix looks from the eye at the target, and the projection is a
    /// perspective whose aspect ratio is `width / height`.
    ComputeTransforms { width: u32, height: u32 },
    /// Activate the shader program.
    UseShader,
    /// Upload the matrix of this name to the active shader program.
    SetUniform(Uniform),
    /// Begin the overlay's frame with the current input state.
    OverlayBegin,
    /// Build the overlay's content.
    OverlayBuild,
    /// Render the overlay on top of what has been drawn.
    OverlayRender,
    /// Present the frame: swap the buffers.
    Present,
    /// Sleep for `nanos` nanoseconds.
    Sleep { nanos: u32 },
}

impl FrameOp {
    /// Whether this operation issues GPU commands.
    pub open spec fn touches_gpu(self) -> bool {
        self is Gpu || self is UseShader || self is SetUniform || self is OverlayRender
    }

    /// Whether this operation is a draw call of the core's own.
    pub open spec fn is_draw_call(self) -> bool {
        self matches FrameOp::Gpu(command) && command.is_draw_call()
    }
}

/// Window size in pixels and target frame rate in frames per second.
#[derive(Clone, Copy, Debug, PartialEq, Eq, Structural)]
pub struct FrameSettings {
    pub width: u32,
    pub height: u32,
    pub rate_hz: u32,
}

impl FrameSettings {
    /// The window's sides fit the viewport's signed 32 bits, and the rate is
    /// not zero.
    pub open spec fn valid(self) -> bool {
        &&& self.width <= i32::MAX
        &&& self.height <= i32::MAX
        &&& self.rate_hz > 0
    }
}

/// The colour that every frame is cleared to: opaque white.
pub open spec fn background() -> Rgba {
    Rgba { red: 255, green: 255, blue: 255, alpha: 255 }
}

/// Each command as a frame operation, in the same order.
pub open spec fn gpu_ops(commands: Seq<GlCommand>) -> Seq<FrameOp> {
    Seq::new(commands.len(), |i: int| FrameOp::Gpu(commands[i]))
}

/// The operations of one frame, in order: set the viewport to the window,
/// clear to the background, recompute the transforms, activate the shader
/// and upload the three matrices, draw the geometry, run the overlay's
/// begin, build and render, present, sleep for the frame interval.
pub open spec fn frame_ops(settings: FrameSettings, geometry: VertexView) -> Seq<FrameOp> {
    seq![
        FrameOp::Gpu(
            GlCommand::Viewport {
                x: 0,
                y: 0,
                width: settings.width as i32,
                height: settings.height as i32,
            },
        ),
        FrameOp::Gpu(GlCommand::ClearColor { color: background() }),
        FrameOp::Gpu(GlCommand::ClearColorBuffer),
        FrameOp::ComputeTransforms { width: settings.width, height: settings.height },
        FrameOp::UseShader,
        FrameOp::SetUniform(Uniform::Model),
        FrameOp::SetUniform(Uniform::View),
        FrameOp::SetUniform(Uniform::Projection),
    ] + gpu_ops(draw_commands(geometry)) + seq![
        FrameOp::OverlayBegin,
        FrameOp::OverlayBuild,
        FrameOp::OverlayRender,
        FrameOp::Present,
        FrameOp::Sleep { nanos: frame_interval(settings.rate_hz as int) as u32 },
    ]
}

/// Plans the frames of one window at one target rate.
#[derive(Debug, PartialEq, Eq)]
pub struct FrameRenderer {
    settings: FrameSettings,
}

impl View for FrameRenderer {
    type V = FrameSettings;

    closed spec fn view(&self) -> FrameSettings {
        self.settings
    }
}

impl FrameRenderer {
    #[verifier::type_invariant]
    spec fn settings_valid(&self) -> bool {
        self.settings.valid()
    }

    /// A renderer for a window of `width` by `height` pixels, paced to
    /// `rate_hz` frames per second; nothing if these settings are not valid.
    pub fn new(width: u32, height: u32, rate_hz: u32) -> (renderer: Option<FrameRenderer>)
        ensures
            renderer is Some <==> (FrameSettings { width, height, rate_hz }).valid(),
            renderer matches Some(r) ==> r@ == (FrameSettings { width, height, rate_hz }),
    {
        if width > 0x7fff_ffff || height > 0x7fff_ffff || rate_hz == 0 {
            None
        } else {
            Some(FrameRenderer { settings: FrameSettings { width, height, rate_hz } })
        }
    }

    /// The window size and target rate that this renderer plans for.
    pub fn settings(&self) -> (settings: FrameSettings)
        ensures
            settings == self@,
            settings.valid(),
    {
        proof {
            use_type_invariant(self);
        }
        self.settings
    }

    /// Plans one frame that draws `geometry`.
    pub fn render(&self, geometry: &Vertex) -> (ops: Vec<FrameOp>)
        ensures
            ops@ == frame_ops(self@, geometry@),
    {
        proof {
            use_type_invariant(self);
        }
        let width: u32 = self.settings.width;
        let height: u32 = self.settings.height;
        let mut ops: Vec<FrameOp> = Vec::new();
        ops.push(
            FrameOp::Gpu(
                GlCommand::Viewport { x: 0, y: 0, width: width as i32, height: height as i32 },
            ),
        );
        ops.push(
            FrameOp::Gpu(
                GlCommand::ClearColor {
                    color: Rgba { red: 255, green: 255, blue: 255, alpha: 255 },
                },
            ),
        );
        ops.push(FrameOp::Gpu(GlCommand::ClearColorBuffer));
        ops.push(FrameOp::ComputeTransforms { width, height });
        ops.push(FrameOp::UseShader);
        ops.push(FrameOp::SetUniform(Uniform::Model));
        ops.push(FrameOp::SetUniform(Uniform::View));
        ops.push(FrameOp::SetUniform(Uniform::Projection));
        let ghost head = ops@;
        let commands: Vec<GlCommand> = geometry.draw();
        for command in iter: commands
            invariant
                iter.seq() == draw_commands(geometry@),
                ops@ == head + gpu_ops(draw_commands(geometry@).take(iter.index() as int)),
        {
            ops.push(FrameOp::Gpu(command));
            assert(ops@ =~= head + gpu_ops(
                draw_commands(geometry@).take(iter.index() as int + 1),
            ));
        }
        assert(draw_commands(geometry@).take(3) =~= draw_commands(geometry@));
        ops.push(FrameOp::OverlayBegin);
        ops.push(FrameOp::OverlayBuild);
        ops.push(FrameOp::OverlayRender);
        ops.push(FrameOp::Present);
        ops.push(FrameOp::Sleep { nanos: frame_interval_nanos(self.settings.rate_hz) });
        assert(ops@ =~= frame_ops(self@, geometry@));
        ops
    }
}

/// A frame is sixteen operations. Its one draw call covers all the vertices
/// of the geometry, after the three uniforms are set; the overlay renders
/// after the draw and is the last operation that touches the GPU; then the
/// frame is presented once, and the one sleep, of one frame interval, ends
/// it.
pub proof fn frame_is_one_full_sequence(settings: FrameSettings, geometry: VertexView)
    requires
        settings.valid(),
    ensures
        ({
            let ops = frame_ops(settings, geometry);
            &&& ops.len() == 16
            &&& ops[0] matches FrameOp::Gpu(GlCommand::Viewport { x, y, width, height })
            &&& x == 0
            &&& y == 0
            &&& width == settings.width
            &&& height == settings.height
            &&& ops[7] == FrameOp::SetUniform(Uniform::Projection)
            &&& ops[9] == FrameOp::Gpu(
                GlCommand::DrawTriangles { first: 0, count: geometry.vertex_count },
            )
            &&& ops[13] == FrameOp::OverlayRender
            &&& ops[15] matches FrameOp::Sleep { nanos }
            &&& nanos == frame_interval(settings.rate_hz as int)
            &&& forall|i: int|
                0 <= i < ops.len() ==> {
                    &&& (#[trigger] ops[i]).is_draw_call() <==> i == 9
                    &&& ops[i] is Present <==> i == 14
                    &&& ops[i] is Sleep <==> i == 15
                    &&& ops[i].touches_gpu() ==> i <= 13
                }
        }),
{
    let ops = frame_ops(settings, geometry);
    assert(0 <= frame_interval(settings.rate_hz as int) <= 1_000_000_000) by (nonlinear_arith)
        requires
            frame_interval(settings.rate_hz as int) == 1_000_000_000int / (settings.rate_hz as int),
            settings.rate_hz > 0,
    ;
    assert(ops.len() == 16);
    assert forall|i: int| 0 <= i < ops.len() implies {
        &&& (#[trigger] ops[i]).is_draw_call() <==> i == 9
        &&& ops[i] is Present <==> i == 14
        &&& ops[i] is Sleep <==> i == 15
        &&& ops[i].touches_gpu() ==> i <= 13
    } by {
        if i < 8 {
        } else if i < 11 {
            assert(ops[i] == FrameOp::Gpu(draw_commands(geometry)[i - 8]));
        } else {
        }
    }
}

} // verus!
