//! Shader modules and the errors of creating them.

use vstd::prelude::*;
use vstd::string::StringExecFns;
use crate::backend::{classify_shader_error, shader_failure, ShaderFailure};
use crate::droppable::Droppable;

verus! {

/// Programmable stage of the graphics pipeline that a shader runs in.
#[derive(Debug, Clone, Copy, PartialEq, Eq, Structural)]
pub enum ShaderStage {
    Vertex,
    Hull,
    Domain,
    Geometry,
    Fragment,
    Compute,
}

/// Kind of shader that the compiler can translate.
#[derive(Debug, Clone, Copy, PartialEq, Eq, Structural)]
pub enum ShaderKind {
    Vertex,
    Fragment,
}

/// Name of the function at which every shader module is entered.
pub open spec fn entry_name() -> Seq<char> {
    seq!['m', 'a', 'i', 'n']
}

/// Where the device enters a shader module.
pub struct EntryPoint {
    pub entry: &'static str,
    pub module: u64,
}

/// A compiled shader on the device.
pub struct Module {
    pub shader: Droppable<u64>,
}

impl Module {
    /// Wraps a shader module that the device created.
    pub fn new(shader: u64) -> (res: Self)
        ensures
            res.shader.value == Some(shader),
    {
        Module { shader: Droppable::new(shader) }
    }

    /// The entry point of the module: its function `main`.
    pub fn backend_entrypoint(&self) -> (res: EntryPoint)
        requires
            !self.shader.dropped(),
        ensures
            res.entry@ == entry_name(),
            Some(res.module) == self.shader.value,
    {
        proof {
            reveal_strlit("main");
        }
        EntryPoint { entry: "main", module: *self.shader.get() }
    }

    /// Gives up the device's module: returns its handle the first time,
    /// for the device to destroy, and `None` from then on.
    pub fn destroy(&mut self) -> (res: Option<u64>)
        ensures
            res == old(self).shader.value,
            final(self).shader.dropped(),
            old(self).shader.dropped() ==> *final(self) == *old(self),
    {
        self.shader.take()
    }
}

/// The kind of shader to compile for a pipeline stage: only vertex and
/// fragment shaders can be compiled.
pub fn compiled_kind(stage: ShaderStage) -> (res: Option<ShaderKind>)
    ensures
        res == match stage {
            ShaderStage::Vertex => Some(ShaderKind::Vertex),
            ShaderStage::Fragment => Some(ShaderKind::Fragment),
            _ => None::<ShaderKind>,
        },
{
    match stage {
        ShaderStage::Vertex => Some(ShaderKind::Vertex),
        ShaderStage::Fragment => Some(ShaderKind::Fragment),
        _ => None,
    }
}

/// An error that occurred while creating a shader module.
#[derive(Debug)]
pub enum CreationError {
    /// The shader failed to compile.
    CompilationFailed(String),
    /// Out of either host or device memory.
    OutOfMemory,
}

impl CreationError {
    /// The creation error that a device failure stands for, where there is
    /// one: a failed compilation keeps its message, and running out of
    /// memory is reported as such.
    pub open spec fn of_failure(failure: ShaderFailure) -> Option<CreationError> {
        match failure {
            ShaderFailure::CompilationFailed(reason) => Some(CreationError::CompilationFailed(reason)),
            ShaderFailure::OutOfMemory => Some(CreationError::OutOfMemory),
            _ => None,
        }
    }

    /// Maps a classified device failure to a creation error; `None` for
    /// the failures that creation from valid byte code cannot run into.
    pub fn from_failure(failure: ShaderFailure) -> (res: Option<CreationError>)
        ensures
            res == Self::of_failure(failure),
    {
        match failure {
            ShaderFailure::CompilationFailed(reason) => Some(CreationError::CompilationFailed(reason)),
            ShaderFailure::OutOfMemory => Some(CreationError::OutOfMemory),
            _ => None,
        }
    }

    /// Maps the device's shader error to a creation error; `None` for the
    /// errors that creation from valid byte code cannot run into.
    pub fn from_backend(err: gfx_hal::device::ShaderError) -> (res: Option<CreationError>)
        ensures
            res == Self::of_failure(shader_failure(err)),
    {
        Self::from_failure(classify_shader_error(err))
    }

    /// What `to_string` returns for the error.
    pub open spec fn description(&self) -> Seq<char> {
        match self {
            CreationError::OutOfMemory => "out of memory"@,
            CreationError::CompilationFailed(reason) => "shader compilation failed: "@ + reason@,
        }
    }

    /// Describes the error, with the compiler's message where there is one.
    pub fn to_string(&self) -> (res: String)
        ensures
            res@ == self.description(),
    {
        match self {
            CreationError::OutOfMemory => String::from_str("out of memory"),
            CreationError::CompilationFailed(reason) => {
                String::from_str("shader compilation failed: ").concat(reason.as_str())
            },
        }
    }
}

} // verus!
