//! Plain values shared by the command, queue and resource modules.

use vstd::prelude::*;

verus! {

/// Width and height in pixels.
#[derive(Debug, Clone, Copy, PartialEq, Eq, Structural)]
pub struct Size {
    pub width: u32,
    pub height: u32,
}

impl Size {
    /// A size of the given width and height.
    pub fn new(width: u32, height: u32) -> (res: Self)
        ensures
            res == (Size { width, height }),
    {
        Size { width, height }
    }
}

/// Point of the device's pipeline at which work waits or becomes visible.
#[derive(Debug, Clone, Copy, PartialEq, Eq, Structural)]
pub enum Stage {
    TopOfPipe,
    VertexInput,
    VertexShader,
    FragmentShader,
    ColorAttachmentOutput,
    Transfer,
    BottomOfPipe,
}

/// Kind of access to an image that a barrier orders.
#[derive(Debug, Clone, Copy, PartialEq, Eq, Structural)]
pub enum ImageAccess {
    Empty,
    ShaderRead,
    ColorAttachmentWrite,
    TransferRead,
    TransferWrite,
}

/// Arrangement of an image's memory on the device.
#[derive(Debug, Clone, Copy, PartialEq, Eq, Structural)]
pub enum ImageLayout {
    Undefined,
    General,
    ColorAttachmentOptimal,
    ShaderReadOnlyOptimal,
    TransferSrcOptimal,
    TransferDstOptimal,
    Present,
}

/// What a buffer is used for, which decides the memory it is placed in.
#[derive(Debug, Clone, Copy, PartialEq, Eq, Structural)]
pub enum BufferKind {
    Vertex,
    Index,
    Uniform,
    Staging,
}

} // verus!
