//! A rotating wireframe cube: the fixed edge geometry, the rotation state,
//! the layout of the two matrices, the per-frame command plan and the
//! shader pipeline set-up over a WebGL context.

pub mod error;
pub mod frame;
pub mod geometry;
pub mod matrix;
pub mod pipeline;
pub mod rotation;

pub use error::RenderError;
pub use frame::{perform, FrameCommand, FrameDriver};
pub use geometry::{cube_edge_vertices, COMPONENTS_PER_VERTEX, EDGE_COUNT, VERTEX_COUNT};
pub use matrix::{model_view_layout, projection_layout, Entry, Factor, FixedTrig};
pub use pipeline::{
    attribute_index, bind_inputs, build_program, compile_shader, create_vertex_buffer,
    failure_message, link_program, program_outcome, shader_outcome, ShaderInputs, ShaderStage,
};
pub use rotation::RotationState;
