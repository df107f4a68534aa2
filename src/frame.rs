use vstd::prelude::*;
use web_sys::WebGlRenderingContext;
use crate::geometry::{cube_edge_data, COMPONENTS_PER_VERTEX, VERTEX_COUNT};
use crate::rotation::{angles, next_angles, RotationState};

verus! {

/// The WebGL enumerant `COLOR_BUFFER_BIT`.
pub const GL_COLOR_BUFFER_BIT: u32 = 0x4000;

/// The WebGL enumerant `DEPTH_BUFFER_BIT`.
pub const GL_DEPTH_BUFFER_BIT: u32 = 0x0100;

/// The WebGL enumerant `LINES`.
pub const GL_LINES: u32 = 0x0001;

/// One step of drawing a frame.
#[derive(Clone, Copy, Debug, PartialEq, Eq, Structural)]
pub enum FrameCommand {
    /// Clear the buffers whose bits are set in `mask`.
    Clear { mask: u32 },
    /// Upload the model-view matrix at these angles (hundredths of a radian).
    SetModelView { angle_x_centirad: u64, angle_y_centirad: u64 },
    /// Upload the projection matrix.
    SetProjection,
    /// Draw `count` vertices from `first` as primitives of kind `mode`.
    DrawArrays { mode: u32, first: i32, count: i32 },
    /// Ask the host to run the next tick before the next frame.
    RequestNextFrame,
}

/// The commands of the frame drawn at angles `a`, in order.
pub open spec fn frame_commands(a: (int, int)) -> Seq<FrameCommand> {
    seq![
        FrameCommand::Clear { mask: GL_COLOR_BUFFER_BIT | GL_DEPTH_BUFFER_BIT },
        FrameCommand::SetModelView { angle_x_centirad: a.0 as u64, angle_y_centirad: a.1 as u64 },
        FrameCommand::SetProjection,
        FrameCommand::DrawArrays { mode: GL_LINES, first: 0, count: VERTEX_COUNT as i32 },
        FrameCommand::RequestNextFrame,
    ]
}

/// Drives the animation: owns the rotation state and, at each tick, says
/// what to draw.
#[derive(Clone, Copy, Debug, PartialEq, Eq)]
pub struct FrameDriver {
    pub rotation: RotationState,
}

impl FrameDriver {
    /// A driver whose angles are both zero.
    pub fn new() -> (r: FrameDriver)
        ensures
            angles(r.rotation) == (0int, 0int),
    {
        FrameDriver { rotation: RotationState::new() }
    }

    /// Advances the angles by one step and returns the frame to draw at the
    /// new angles: clear colour and depth, upload both matrices, draw the 24
    /// vertices as a line list, and schedule the next tick.
    pub fn tick(&mut self) -> (r: Vec<FrameCommand>)
        requires
            old(self).rotation.can_tick(),
        ensures
            angles(final(self).rotation) == next_angles(angles(old(self).rotation)),
            r@ == frame_commands(angles(final(self).rotation)),
    {
        self.rotation.tick();
        let r = vec![
            FrameCommand::Clear { mask: GL_COLOR_BUFFER_BIT | GL_DEPTH_BUFFER_BIT },
            FrameCommand::SetModelView {
                angle_x_centirad: self.rotation.angle_x_centirad,
                angle_y_centirad: self.rotation.angle_y_centirad,
            },
            FrameCommand::SetProjection,
            FrameCommand::DrawArrays { mode: GL_LINES, first: 0, count: VERTEX_COUNT as i32 },
            FrameCommand::RequestNextFrame,
        ];
        assert(r@ =~= frame_commands(angles(self.rotation)));
        r
    }
}

/// Relies on WebGlRenderingContext::clear: clears the buffers in `mask`.
#[verifier::external_body]
fn gl_clear(gl: &WebGlRenderingContext, mask: u32) {
    gl.clear(mask)
}

/// Relies on WebGlRenderingContext::draw_arrays: draws from the bound buffer.
#[verifier::external_body]
fn gl_draw_arrays(gl: &WebGlRenderingContext, mode: u32, first: i32, count: i32) {
    gl.draw_arrays(mode, first, count)
}

/// Carries out `command` on the context where it needs nothing but the
/// context (a clear or a draw), and says whether it did; the matrix uploads
/// and the scheduling are left to the host.
pub fn perform(gl: &WebGlRenderingContext, command: &FrameCommand) -> (done: bool)
    ensures
        done <==> (command matches FrameCommand::Clear { .. } || command matches FrameCommand::DrawArrays { .. }),
{
    match *command {
        FrameCommand::Clear { mask } => {
            gl_clear(gl, mask);
            true
        },
        FrameCommand::DrawArrays { mode, first, count } => {
            gl_draw_arrays(gl, mode, first, count);
            true
        },
        _ => false,
    }
}

/// Every frame, at any angles, draws exactly the uploaded vertices as a
/// line list: 24 vertices, which are the 72 coordinates of the edge data.
pub proof fn lemma_every_frame_draws_the_wireframe(a: (int, int))
    ensures
        frame_commands(a)[3] == (FrameCommand::DrawArrays {
            mode: GL_LINES,
            first: 0,
            count: VERTEX_COUNT as i32,
        }),
        VERTEX_COUNT * COMPONENTS_PER_VERTEX == cube_edge_data().len(),
        cube_edge_data().len() == 72,
{
}

} // verus!
