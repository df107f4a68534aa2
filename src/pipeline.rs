use vstd::prelude::*;
use web_sys::{WebGlBuffer, WebGlProgram, WebGlRenderingContext, WebGlShader, WebGlUniformLocation};
use crate::error::RenderError;

verus! {

#[verifier::external_type_specification]
#[verifier::external_body]
pub struct ExWebGlRenderingContext(WebGlRenderingContext);

#[verifier::external_type_specification]
#[verifier::external_body]
pub struct ExWebGlShader(WebGlShader);

#[verifier::external_type_specification]
#[verifier::external_body]
pub struct ExWebGlProgram(WebGlProgram);

#[verifier::external_type_specification]
#[verifier::external_body]
pub struct ExWebGlBuffer(WebGlBuffer);

#[verifier::external_type_specification]
#[verifier::external_body]
pub struct ExWebGlUniformLocation(WebGlUniformLocation);

/// The WebGL enumerant `VERTEX_SHADER`.
pub const GL_VERTEX_SHADER: u32 = 0x8B31;

/// The WebGL enumerant `FRAGMENT_SHADER`.
pub const GL_FRAGMENT_SHADER: u32 = 0x8B30;

/// The WebGL enumerant `ARRAY_BUFFER`.
pub const GL_ARRAY_BUFFER: u32 = 0x8892;

/// The WebGL enumerant `FLOAT`.
pub const GL_FLOAT: u32 = 0x1406;

/// Source of the vertex shader: positions transformed by the projection and
/// model-view matrices.
pub const VERTEX_SHADER_SOURCE: &'static str = "
        attribute vec4 a_position;
        uniform mat4 u_model_view_matrix;
        uniform mat4 u_projection_matrix;
        void main() {
            gl_Position = u_projection_matrix * u_model_view_matrix * a_position;
        }
    ";

/// Source of the fragment shader: a solid green.
pub const FRAGMENT_SHADER_SOURCE: &'static str = "
        precision mediump float;
        void main() {
            gl_FragColor = vec4(0.0, 1.0, 0.0, 1.0);
        }
    ";

/// Name of the position attribute.
pub const POSITION_ATTRIBUTE: &'static str = "a_position";

/// Name of the model-view matrix uniform.
pub const MODEL_VIEW_UNIFORM: &'static str = "u_model_view_matrix";

/// Name of the projection matrix uniform.
pub const PROJECTION_UNIFORM: &'static str = "u_projection_matrix";

/// Where the program reads its per-frame inputs.
pub struct ShaderInputs {
    pub position_attribute: u32,
    pub model_view: WebGlUniformLocation,
    pub projection: WebGlUniformLocation,
}

/// The stage a shader object is compiled for.
#[derive(Clone, Copy, Debug, PartialEq, Eq, Structural)]
pub enum ShaderStage {
    Vertex,
    Fragment,
}

/// Fallback message of a shader that failed without a log.
pub const SHADER_FALLBACK: &'static str = "Unknown error creating shader";

/// Fallback message of a program that failed without a log.
pub const PROGRAM_FALLBACK: &'static str = "Unknown error creating program object";

/// Message of a failed buffer allocation.
pub const BUFFER_FAILURE: &'static str = "failed to create buffer";

/// Message of a missing vertex attribute.
pub const ATTRIBUTE_MISSING: &'static str = "attribute a_position not found";

/// Message of a missing model-view uniform.
pub const MODEL_VIEW_MISSING: &'static str = "uniform u_model_view_matrix not found";

/// Message of a missing projection uniform.
pub const PROJECTION_MISSING: &'static str = "uniform u_projection_matrix not found";

/// The message of a failure: the driver's log where it gave a non-empty one,
/// else `fallback`.
pub open spec fn failure_message_spec(log: Option<String>, fallback: Seq<char>) -> Seq<char> {
    match log {
        Some(s) => if s@.len() > 0 {
            s@
        } else {
            fallback
        },
        None => fallback,
    }
}

/// The message of a failure, from the driver's log (if any) and a fallback.
pub fn failure_message(log: Option<String>, fallback: &str) -> (r: String)
    ensures
        r@ == failure_message_spec(log, fallback@),
        fallback@.len() > 0 ==> r@.len() > 0,
{
    match log {
        Some(s) => if !s.as_str().is_empty() {
            s
        } else {
            fallback.to_owned()
        },
        None => fallback.to_owned(),
    }
}

/// Decides a shader's fate from its compile status and info log: the shader
/// when the status is `true`, else a compile error with a non-empty message.
pub fn shader_outcome(shader: WebGlShader, status: Option<bool>, log: Option<String>) -> (r: Result<
    WebGlShader,
    RenderError,
>)
    ensures
        status == Some(true) ==> r == Ok::<WebGlShader, RenderError>(shader),
        status != Some(true) ==> (r matches Err(RenderError::ShaderCompile { message })
            && message@ == failure_message_spec(log, SHADER_FALLBACK@) && message@.len() > 0),
{
    match status {
        Some(true) => Ok(shader),
        _ => {
            proof {
                reveal_strlit("Unknown error creating shader");
            }
            Err(RenderError::ShaderCompile { message: failure_message(log, SHADER_FALLBACK) })
        },
    }
}

/// Decides a program's fate from its link status and info log: the program
/// when the status is `true`, else a link error with a non-empty message.
pub fn program_outcome(program: WebGlProgram, status: Option<bool>, log: Option<String>) -> (r: Result<
    WebGlProgram,
    RenderError,
>)
    ensures
        status == Some(true) ==> r == Ok::<WebGlProgram, RenderError>(program),
        status != Some(true) ==> (r matches Err(RenderError::ProgramLink { message })
            && message@ == failure_message_spec(log, PROGRAM_FALLBACK@) && message@.len() > 0),
{
    match status {
        Some(true) => Ok(program),
        _ => {
            proof {
                reveal_strlit("Unknown error creating program object");
            }
            Err(RenderError::ProgramLink { message: failure_message(log, PROGRAM_FALLBACK) })
        },
    }
}


impl ShaderStage {
    /// The GL enumerant of this stage: `VERTEX_SHADER` or `FRAGMENT_SHADER`.
    pub fn gl_kind(self) -> (r: u32)
        ensures
            self == ShaderStage::Vertex ==> r == GL_VERTEX_SHADER,
            self == ShaderStage::Fragment ==> r == GL_FRAGMENT_SHADER,
    {
        match self {
            ShaderStage::Vertex => GL_VERTEX_SHADER,
            ShaderStage::Fragment => GL_FRAGMENT_SHADER,
        }
    }
}

/// Relies on WebGlRenderingContext::create_shader: a new shader object, or
/// `None` where the context could not make one.
#[verifier::external_body]
fn gl_create_shader(gl: &WebGlRenderingContext, kind: u32) -> (r: Option<WebGlShader>) {
    gl.create_shader(kind)
}

/// Relies on WebGlRenderingContext::shader_source: sets a shader's source.
#[verifier::external_body]
fn gl_shader_source(gl: &WebGlRenderingContext, shader: &WebGlShader, source: &str) {
    gl.shader_source(shader, source)
}

/// Relies on WebGlRenderingContext::compile_shader.
#[verifier::external_body]
fn gl_compile_shader(gl: &WebGlRenderingContext, shader: &WebGlShader) {
    gl.compile_shader(shader)
}

/// Relies on WebGlRenderingContext::get_shader_parameter with COMPILE_STATUS,
/// read as a boolean by JsValue::as_bool (`None` where it is not one).
#[verifier::external_body]
fn gl_compile_status(gl: &WebGlRenderingContext, shader: &WebGlShader) -> (r: Option<bool>) {
    gl.get_shader_parameter(shader, WebGlRenderingContext::COMPILE_STATUS).as_bool()
}

/// Relies on WebGlRenderingContext::get_shader_info_log: the driver's log, if any.
#[verifier::external_body]
fn gl_shader_info_log(gl: &WebGlRenderingContext, shader: &WebGlShader) -> (r: Option<String>) {
    gl.get_shader_info_log(shader)
}

/// Relies on WebGlRenderingContext::create_program: a new program object, or
/// `None` where the context could not make one.
#[verifier::external_body]
fn gl_create_program(gl: &WebGlRenderingContext) -> (r: Option<WebGlProgram>) {
    gl.create_program()
}

/// Relies on WebGlRenderingContext::attach_shader.
#[verifier::external_body]
fn gl_attach_shader(gl: &WebGlRenderingContext, program: &WebGlProgram, shader: &WebGlShader) {
    gl.attach_shader(program, shader)
}

/// Relies on WebGlRenderingContext::link_program.
#[verifier::external_body]
fn gl_link_program(gl: &WebGlRenderingContext, program: &WebGlProgram) {
    gl.link_program(program)
}

/// Relies on WebGlRenderingContext::get_program_parameter with LINK_STATUS,
/// read as a boolean by JsValue::as_bool (`None` where it is not one).
#[verifier::external_body]
fn gl_link_status(gl: &WebGlRenderingContext, program: &WebGlProgram) -> (r: Option<bool>) {
    gl.get_program_parameter(program, WebGlRenderingContext::LINK_STATUS).as_bool()
}

/// Relies on WebGlRenderingContext::get_program_info_log: the driver's log, if any.
#[verifier::external_body]
fn gl_program_info_log(gl: &WebGlRenderingContext, program: &WebGlProgram) -> (r: Option<String>) {
    gl.get_program_info_log(program)
}

/// Compiles `source` as a shader of `stage`. On failure the error is a
/// compile error whose message is the driver's log, or the fallback text
/// where there is none; it is never empty.
pub fn compile_shader(gl: &WebGlRenderingContext, stage: ShaderStage, source: &str) -> (r: Result<
    WebGlShader,
    RenderError,
>)
    ensures
        r matches Err(e) ==> (e matches RenderError::ShaderCompile { message }
            && message@.len() > 0),
{
    match gl_create_shader(gl, stage.gl_kind()) {
        None => {
            proof {
                reveal_strlit("Unknown error creating shader");
            }
            Err(RenderError::ShaderCompile { message: failure_message(None, SHADER_FALLBACK) })
        },
        Some(shader) => {
            gl_shader_source(gl, &shader, source);
            gl_compile_shader(gl, &shader);
            let status = gl_compile_status(gl, &shader);
            let log = match status {
                Some(true) => None,
                _ => gl_shader_info_log(gl, &shader),
            };
            shader_outcome(shader, status, log)
        },
    }
}

/// Links a vertex and a fragment shader into a program. On failure the error
/// is a link error whose message is the driver's log, or the fallback text
/// where there is none; it is never empty.
pub fn link_program(
    gl: &WebGlRenderingContext,
    vert_shader: &WebGlShader,
    frag_shader: &WebGlShader,
) -> (r: Result<WebGlProgram, RenderError>)
    ensures
        r matches Err(e) ==> (e matches RenderError::ProgramLink { message }
            && message@.len() > 0),
{
    match gl_create_program(gl) {
        None => {
            proof {
                reveal_strlit("Unknown error creating program object");
            }
            Err(RenderError::ProgramLink { message: failure_message(None, PROGRAM_FALLBACK) })
        },
        Some(program) => {
            gl_attach_shader(gl, &program, vert_shader);
            gl_attach_shader(gl, &program, frag_shader);
            gl_link_program(gl, &program);
            let status = gl_link_status(gl, &program);
            let log = match status {
                Some(true) => None,
                _ => gl_program_info_log(gl, &program),
            };
            program_outcome(program, status, log)
        },
    }
}


/// Relies on WebGlRenderingContext::use_program: makes `program` the active one.
#[verifier::external_body]
fn gl_use_program(gl: &WebGlRenderingContext, program: &WebGlProgram) {
    gl.use_program(Some(program))
}

/// Relies on WebGlRenderingContext::create_buffer: a new buffer, or `None`
/// where the context could not make one.
#[verifier::external_body]
fn gl_create_buffer(gl: &WebGlRenderingContext) -> (r: Option<WebGlBuffer>) {
    gl.create_buffer()
}

/// Relies on WebGlRenderingContext::bind_buffer: binds `buffer` to `target`.
#[verifier::external_body]
fn gl_bind_buffer(gl: &WebGlRenderingContext, target: u32, buffer: &WebGlBuffer) {
    gl.bind_buffer(target, Some(buffer))
}

/// Relies on WebGlRenderingContext::get_attrib_location: the attribute's
/// index, negative where the program has no such attribute.
#[verifier::external_body]
fn gl_attrib_location(gl: &WebGlRenderingContext, program: &WebGlProgram, name: &str) -> (r: i32) {
    gl.get_attrib_location(program, name)
}

/// Relies on WebGlRenderingContext::vertex_attrib_pointer_with_i32: how an
/// attribute reads the bound array buffer.
#[verifier::external_body]
fn gl_vertex_attrib_pointer(
    gl: &WebGlRenderingContext,
    index: u32,
    size: i32,
    kind: u32,
    normalized: bool,
    stride: i32,
    offset: i32,
) {
    gl.vertex_attrib_pointer_with_i32(index, size, kind, normalized, stride, offset)
}

/// Relies on WebGlRenderingContext::enable_vertex_attrib_array.
#[verifier::external_body]
fn gl_enable_vertex_attrib_array(gl: &WebGlRenderingContext, index: u32) {
    gl.enable_vertex_attrib_array(index)
}

/// Relies on WebGlRenderingContext::get_uniform_location: the uniform's
/// location, or `None` where the program has no such uniform.
#[verifier::external_body]
fn gl_uniform_location(gl: &WebGlRenderingContext, program: &WebGlProgram, name: &str) -> (r:
    Option<WebGlUniformLocation>) {
    gl.get_uniform_location(program, name)
}

/// Compiles the two shaders, links them and makes the program the active
/// one. The first failure is returned: a compile error or a link error.
pub fn build_program(gl: &WebGlRenderingContext, vert_source: &str, frag_source: &str) -> (r:
    Result<WebGlProgram, RenderError>)
    ensures
        r matches Err(e) ==> (e matches RenderError::ShaderCompile { .. } || e matches RenderError::ProgramLink { .. }),
        r matches Err(e) ==> e.message_view().len() > 0,
{
    let vert_shader = match compile_shader(gl, ShaderStage::Vertex, vert_source) {
        Ok(s) => s,
        Err(e) => return Err(e),
    };
    let frag_shader = match compile_shader(gl, ShaderStage::Fragment, frag_source) {
        Ok(s) => s,
        Err(e) => return Err(e),
    };
    let program = match link_program(gl, &vert_shader, &frag_shader) {
        Ok(p) => p,
        Err(e) => return Err(e),
    };
    gl_use_program(gl, &program);
    Ok(program)
}

/// Makes a buffer and binds it as the array buffer, ready for the vertex data.
pub fn create_vertex_buffer(gl: &WebGlRenderingContext) -> (r: Result<WebGlBuffer, RenderError>)
    ensures
        r matches Err(e) ==> (e matches RenderError::BufferAllocation { message } && message@
            == BUFFER_FAILURE@),
{
    match gl_create_buffer(gl) {
        None => Err(RenderError::BufferAllocation { message: BUFFER_FAILURE.to_owned() }),
        Some(buffer) => {
            gl_bind_buffer(gl, GL_ARRAY_BUFFER, &buffer);
            Ok(buffer)
        },
    }
}

/// The index of an attribute from the location the driver reported: a
/// negative location means the attribute is missing.
pub fn attribute_index(location: i32) -> (r: Result<u32, RenderError>)
    ensures
        location >= 0 ==> r == Ok::<u32, RenderError>(location as u32),
        location < 0 ==> (r matches Err(RenderError::UniformLookup { message }) && message@
            == ATTRIBUTE_MISSING@),
{
    if location >= 0 {
        Ok(location as u32)
    } else {
        Err(RenderError::UniformLookup { message: ATTRIBUTE_MISSING.to_owned() })
    }
}

/// Points the position attribute at the bound buffer, three floats per
/// vertex, tightly packed, and looks up the two matrix uniforms. A missing
/// attribute or uniform is a lookup error.
pub fn bind_inputs(gl: &WebGlRenderingContext, program: &WebGlProgram) -> (r: Result<
    ShaderInputs,
    RenderError,
>)
    ensures
        r matches Err(e) ==> e matches RenderError::UniformLookup { .. },
{
    let position_attribute = match attribute_index(
        gl_attrib_location(gl, program, POSITION_ATTRIBUTE),
    ) {
        Ok(i) => i,
        Err(e) => return Err(e),
    };
    gl_vertex_attrib_pointer(gl, position_attribute, 3, GL_FLOAT, false, 0, 0);
    gl_enable_vertex_attrib_array(gl, position_attribute);
    let model_view = match gl_uniform_location(gl, program, MODEL_VIEW_UNIFORM) {
        Some(l) => l,
        None => return Err(RenderError::UniformLookup { message: MODEL_VIEW_MISSING.to_owned() }),
    };
    let projection = match gl_uniform_location(gl, program, PROJECTION_UNIFORM) {
        Some(l) => l,
        None => return Err(RenderError::UniformLookup { message: PROJECTION_MISSING.to_owned() }),
    };
    Ok(ShaderInputs { position_attribute, model_view, projection })
}

} // verus!
