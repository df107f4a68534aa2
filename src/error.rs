use vstd::prelude::*;

verus! {

/// Why setting up the rendering pipeline failed. Each variant carries a
/// message: the driver's log where it gave one, else a fixed text.
#[derive(Clone, Debug, PartialEq, Eq)]
pub enum RenderError {
    ShaderCompile { message: String },
    ProgramLink { message: String },
    BufferAllocation { message: String },
    UniformLookup { message: String },
}

impl RenderError {
    pub open spec fn message_view(&self) -> Seq<char> {
        match self {
            RenderError::ShaderCompile { message } => message@,
            RenderError::ProgramLink { message } => message@,
            RenderError::BufferAllocation { message } => message@,
            RenderError::UniformLookup { message } => message@,
        }
    }

    /// The message carried by this error.
    pub fn message(&self) -> (r: String)
        ensures
            r@ == self.message_view(),
    {
        match self {
            RenderError::ShaderCompile { message } => message.clone(),
            RenderError::ProgramLink { message } => message.clone(),
            RenderError::BufferAllocation { message } => message.clone(),
            RenderError::UniformLookup { message } => message.clone(),
        }
    }
}

} // verus!
