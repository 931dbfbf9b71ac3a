//! Device objects that are created once and destroyed explicitly.

use vstd::prelude::*;
use vstd::string::StringExecFns;
use crate::backend::{allocation_failure, classify_allocation_error, AllocationFailure};
use crate::droppable::Droppable;
use crate::types::{BufferKind, Size};

verus! {

/// A block of device memory that holds elements of one size.
pub struct Buffer {
    pub raw: Droppable<u64>,
    pub kind: BufferKind,
    pub len: u64,
    pub elem_size: u64,
}

impl Buffer {
    /// Wraps a buffer that the device created for `len` elements of
    /// `elem_size` bytes each.
    pub fn new(handle: u64, kind: BufferKind, len: u64, elem_size: u64) -> (res: Self)
        ensures
            res.raw.value == Some(handle),
            res.kind == kind,
            res.len == len,
            res.elem_size == elem_size,
    {
        Buffer { raw: Droppable::new(handle), kind, len, elem_size }
    }

    /// The device's handle of the buffer.
    pub fn as_backend(&self) -> (res: u64)
        requires
            !self.raw.dropped(),
        ensures
            Some(res) == self.raw.value,
    {
        *self.raw.get()
    }

    /// Number of elements in the buffer.
    pub fn len(&self) -> (res: u64)
        ensures
            res == self.len,
    {
        self.len
    }

    /// Gives up the device's buffer: returns its handle the first time,
    /// for the allocator to take back, and `None` from then on.
    pub fn destroy(&mut self) -> (res: Option<u64>)
        ensures
            res == old(self).raw.value,
            final(self).raw.dropped(),
            final(self).kind == old(self).kind,
            final(self).len == old(self).len,
            final(self).elem_size == old(self).elem_size,
            old(self).raw.dropped() ==> *final(self) == *old(self),
    {
        self.raw.take()
    }
}

/// The memory behind an image.
#[derive(Debug, Clone, Copy, PartialEq, Eq, Structural)]
pub enum Backing {
    /// Owned by a swapchain, which destroys it.
    Swapchain(u64),
    /// Allocated for the image, which destroys it.
    Allocated(u64),
}

impl Backing {
    /// The device's handle of the image memory.
    pub fn as_backend(&self) -> (res: u64)
        ensures
            res == match *self {
                Backing::Swapchain(image) => image,
                Backing::Allocated(image) => image,
            },
    {
        match *self {
            Backing::Swapchain(image) => image,
            Backing::Allocated(image) => image,
        }
    }

    /// The allocation to hand back when the image goes: none for an image
    /// of a swapchain.
    pub fn destroy(self) -> (res: Option<u64>)
        ensures
            res == match self {
                Backing::Swapchain(_) => None::<u64>,
                Backing::Allocated(image) => Some(image),
            },
    {
        match self {
            Backing::Swapchain(_) => None,
            Backing::Allocated(image) => Some(image),
        }
    }
}

/// What the device has to destroy when an image goes: first the view,
/// then the allocation.
#[derive(Debug, Clone, Copy, PartialEq, Eq, Structural)]
pub struct ImageTeardown {
    pub view: Option<u64>,
    pub allocation: Option<u64>,
}

/// A two-dimensional image on the device with a view for shaders and
/// framebuffers.
pub struct Image {
    pub backing: Droppable<Backing>,
    pub view: Droppable<u64>,
    pub size: Size,
}

impl Image {
    /// Wraps image memory and the view that the device created on it.
    pub fn from_raw(backing: Backing, view: u64, size: Size) -> (res: Self)
        ensures
            res.backing.value == Some(backing),
            res.view.value == Some(view),
            res.size == size,
    {
        Image { backing: Droppable::new(backing), view: Droppable::new(view), size }
    }

    /// Size of the image in pixels.
    pub fn size(&self) -> (res: Size)
        ensures
            res == self.size,
    {
        self.size
    }

    /// The device's handle of the image view.
    pub fn as_backend(&self) -> (res: u64)
        requires
            !self.view.dropped(),
        ensures
            Some(res) == self.view.value,
    {
        *self.view.get()
    }

    /// The device's handle of the image memory.
    pub fn backing_handle(&self) -> (res: u64)
        requires
            !self.backing.dropped(),
        ensures
            self.backing.value is Some,
            res == match self.backing.value->0 {
                Backing::Swapchain(image) => image,
                Backing::Allocated(image) => image,
            },
    {
        self.backing.get().as_backend()
    }

    /// What is left to destroy of the image.
    pub open spec fn remains(&self) -> ImageTeardown {
        ImageTeardown {
            view: self.view.value,
            allocation: match self.backing.value {
                Some(Backing::Allocated(image)) => Some(image),
                _ => None,
            },
        }
    }

    /// What is left to destroy of the image.
    pub fn remaining(&self) -> (res: ImageTeardown)
        ensures
            res == self.remains(),
    {
        let allocation = match self.backing.value {
            Some(Backing::Allocated(image)) => Some(image),
            _ => None,
        };
        ImageTeardown { view: self.view.value, allocation }
    }

    /// Gives up the view and the memory: returns what the device has to
    /// destroy, which is nothing from the second call on.
    pub fn destroy(&mut self) -> (res: ImageTeardown)
        ensures
            res == old(self).remains(),
            final(self).view.dropped(),
            final(self).backing.dropped(),
            final(self).size == old(self).size,
            final(self).remains() == (ImageTeardown { view: None, allocation: None }),
            old(self).view.dropped() && old(self).backing.dropped() ==> *final(self) == *old(self),
    {
        let view = self.view.take();
        let allocation = match self.backing.take() {
            Some(backing) => backing.destroy(),
            None => None,
        };
        ImageTeardown { view, allocation }
    }
}

/// Identifies an image in the engine's image store.
#[derive(Debug, Copy, Clone, Eq, PartialEq, Structural)]
pub struct ImageId(pub u64);

/// How a sampler reads between the pixels of an image.
#[derive(Debug, Clone, Copy, PartialEq, Eq, Structural)]
pub enum SamplerFilter {
    Nearest,
    Linear,
}

/// Reads pixels of an image for a shader.
pub struct Sampler {
    pub sampler: Droppable<u64>,
    pub filter: SamplerFilter,
}

impl Sampler {
    /// Wraps a sampler that the device created with the given filter.
    pub fn new(handle: u64, filter: SamplerFilter) -> (res: Self)
        ensures
            res.sampler.value == Some(handle),
            res.filter == filter,
    {
        Sampler { sampler: Droppable::new(handle), filter }
    }

    /// The device's handle of the sampler.
    pub fn as_backend(&self) -> (res: u64)
        requires
            !self.sampler.dropped(),
        ensures
            Some(res) == self.sampler.value,
    {
        *self.sampler.get()
    }

    /// Gives up the device's sampler: returns its handle the first time,
    /// for the device to destroy, and `None` from then on.
    pub fn destroy(&mut self) -> (res: Option<u64>)
        ensures
            res == old(self).sampler.value,
            final(self).sampler.dropped(),
            final(self).filter == old(self).filter,
            old(self).sampler.dropped() ==> *final(self) == *old(self),
    {
        self.sampler.take()
    }
}

/// An error that occurred while creating a `Sampler`.
#[derive(Debug, Clone, Copy, PartialEq, Eq, Structural)]
pub enum SamplerCreationError {
    /// Out of either host or device memory.
    OutOfMemory,
    /// Too many samplers have been allocated.
    TooManyBlocks,
}

impl SamplerCreationError {
    /// The creation error that an allocation failure stands for.
    pub open spec fn of_failure(failure: AllocationFailure) -> SamplerCreationError {
        match failure {
            AllocationFailure::OutOfMemory => SamplerCreationError::OutOfMemory,
            AllocationFailure::TooManyObjects => SamplerCreationError::TooManyBlocks,
        }
    }

    /// Maps a classified allocation failure to a creation error.
    pub fn from_failure(failure: AllocationFailure) -> (res: Self)
        ensures
            res == Self::of_failure(failure),
    {
        match failure {
            AllocationFailure::OutOfMemory => SamplerCreationError::OutOfMemory,
            AllocationFailure::TooManyObjects => SamplerCreationError::TooManyBlocks,
        }
    }

    /// What `to_string` returns for the error.
    pub open spec fn description(&self) -> Seq<char> {
        match self {
            SamplerCreationError::OutOfMemory => "out of memory"@,
            SamplerCreationError::TooManyBlocks => "too many samplers allocated"@,
        }
    }

    /// Describes the error.
    pub fn to_string(&self) -> (res: String)
        ensures
            res@ == self.description(),
    {
        match self {
            SamplerCreationError::OutOfMemory => String::from_str("out of memory"),
            SamplerCreationError::TooManyBlocks => String::from_str("too many samplers allocated"),
        }
    }
}

impl From<gfx_hal::device::AllocationError> for SamplerCreationError {
    fn from(error: gfx_hal::device::AllocationError) -> (res: Self) {
        Self::from_failure(classify_allocation_error(error))
    }
}

impl vstd::std_specs::convert::FromSpecImpl<gfx_hal::device::AllocationError> for SamplerCreationError {
    open spec fn obeys_from_spec() -> bool {
        true
    }

    open spec fn from_spec(error: gfx_hal::device::AllocationError) -> Self {
        Self::of_failure(allocation_failure(error))
    }
}

/// A render pass on the device.
pub struct RenderPass {
    pub raw: Droppable<u64>,
}

impl RenderPass {
    /// Wraps a render pass that the device created.
    pub fn new(handle: u64) -> (res: Self)
        ensures
            res.raw.value == Some(handle),
    {
        RenderPass { raw: Droppable::new(handle) }
    }

    /// The device's handle of the render pass.
    pub fn as_backend(&self) -> (res: u64)
        requires
            !self.raw.dropped(),
        ensures
            Some(res) == self.raw.value,
    {
        *self.raw.get()
    }

    /// Gives up the device's render pass: returns its handle the first
    /// time, for the device to destroy, and `None` from then on.
    pub fn destroy(&mut self) -> (res: Option<u64>)
        ensures
            res == old(self).raw.value,
            final(self).raw.dropped(),
            old(self).raw.dropped() ==> *final(self) == *old(self),
    {
        self.raw.take()
    }
}

/// The images that a render pass draws into, with the pass they were
/// set up for.
pub struct Framebuffer {
    pub raw: Droppable<u64>,
    pub render_pass: Option<u64>,
    pub attachment: Option<u64>,
    pub size: Size,
}

impl Framebuffer {
    /// A framebuffer with no render pass, no attachment and nothing
    /// created on the device yet.
    pub fn new() -> (res: Self)
        ensures
            res.raw.dropped(),
            res.render_pass is None,
            res.attachment is None,
            res.size == (Size { width: 0, height: 0 }),
    {
        Framebuffer {
            raw: Droppable::empty(),
            render_pass: None,
            attachment: None,
            size: Size { width: 0, height: 0 },
        }
    }

    /// Whether the device's framebuffer has to be created before the next
    /// render pass.
    pub fn needs_creation(&self) -> (res: bool)
        ensures
            res == self.raw.dropped(),
    {
        self.raw.is_dropped()
    }

    /// Sets the render pass that the framebuffer is used with. Returns the
    /// device's framebuffer to destroy where the pass has changed, since
    /// a framebuffer is bound to one pass.
    pub fn set_render_pass(&mut self, render_pass: &RenderPass) -> (res: Option<u64>)
        requires
            !render_pass.raw.dropped(),
        ensures
            final(self).render_pass == render_pass.raw.value,
            final(self).attachment == old(self).attachment,
            final(self).size == old(self).size,
            old(self).render_pass == render_pass.raw.value ==> res is None && final(self).raw
                == old(self).raw,
            old(self).render_pass != render_pass.raw.value ==> res == old(self).raw.value
                && final(self).raw.dropped(),
    {
        let pass = render_pass.as_backend();
        let same = match self.render_pass {
            Some(current) => current == pass,
            None => false,
        };
        if same {
            None
        } else {
            self.render_pass = Some(pass);
            self.raw.take()
        }
    }

    /// Attaches an image view of the given size. Returns the device's
    /// framebuffer to destroy where the attachment has changed.
    pub fn set_attachment(&mut self, view: u64, size: Size) -> (res: Option<u64>)
        ensures
            final(self).attachment == Some(view),
            final(self).size == size,
            final(self).render_pass == old(self).render_pass,
            old(self).attachment == Some(view) && old(self).size == size ==> res is None
                && final(self).raw == old(self).raw,
            !(old(self).attachment == Some(view) && old(self).size == size) ==> res == old(self).raw.value && final(self).raw.dropped(),
    {
        let same = match self.attachment {
            Some(current) => current == view && self.size == size,
            None => false,
        };
        if same {
            None
        } else {
            self.attachment = Some(view);
            self.size = size;
            self.raw.take()
        }
    }

    /// Notes the framebuffer that the device created for the current pass
    /// and attachment.
    pub fn created(&mut self, handle: u64)
        requires
            old(self).raw.dropped(),
        ensures
            final(self).raw.value == Some(handle),
            final(self).render_pass == old(self).render_pass,
            final(self).attachment == old(self).attachment,
            final(self).size == old(self).size,
    {
        self.raw = Droppable::new(handle);
    }

    /// The render pass that the framebuffer is used with.
    pub fn render_pass(&self) -> (res: Option<u64>)
        ensures
            res == self.render_pass,
    {
        self.render_pass
    }

    /// Size of the attached image in pixels.
    pub fn size(&self) -> (res: Size)
        ensures
            res == self.size,
    {
        self.size
    }

    /// The device's handle of the framebuffer.
    pub fn as_backend(&self) -> (res: u64)
        requires
            !self.raw.dropped(),
        ensures
            Some(res) == self.raw.value,
    {
        *self.raw.get()
    }

    /// Gives up the device's framebuffer: returns its handle the first
    /// time, for the device to destroy, and `None` from then on.
    pub fn destroy(&mut self) -> (res: Option<u64>)
        ensures
            res == old(self).raw.value,
            final(self).raw.dropped(),
            final(self).render_pass == old(self).render_pass,
            final(self).attachment == old(self).attachment,
            final(self).size == old(self).size,
            old(self).raw.dropped() ==> *final(self) == *old(self),
    {
        self.raw.take()
    }
}

} // verus!
