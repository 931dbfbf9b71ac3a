//! Descriptor layouts and graphics pipelines.

use vstd::prelude::*;
use core::ops::Range;
use crate::droppable::Droppable;
use crate::shader::Module;

verus! {

/// One of the possible bindings in a descriptor layout.
#[derive(Debug, Clone, Copy, PartialEq, Eq, Structural)]
pub enum DescriptorBinding {
    /// A combination of an image and a sampler.
    Texture,
}

/// Kind of data that the device finds at a binding.
#[derive(Debug, Clone, Copy, PartialEq, Eq, Structural)]
pub enum DescriptorType {
    CombinedImageSampler,
}

/// A numbered binding as the device is told of it.
#[derive(Debug, Clone, Copy, PartialEq, Eq, Structural)]
pub struct LayoutBinding {
    pub binding: u32,
    pub ty: DescriptorType,
    pub count: usize,
    pub vertex_stage: bool,
    pub fragment_stage: bool,
    pub immutable_samplers: bool,
}

/// The binding number for a position in a layout: the position's low
/// 32 bits.
pub open spec fn binding_number(index: usize) -> u32 {
    (index as int % 0x1_0000_0000) as u32
}

impl DescriptorBinding {
    /// What the device is told of this binding at the given position.
    pub open spec fn hal(self, index: usize) -> LayoutBinding {
        LayoutBinding {
            binding: binding_number(index),
            ty: DescriptorType::CombinedImageSampler,
            count: 1,
            vertex_stage: true,
            fragment_stage: true,
            immutable_samplers: false,
        }
    }

    /// Converts this binding into what the device is told of it, using the
    /// given binding index: a texture is one combined image and sampler
    /// that the vertex and the fragment stage can read.
    pub fn into_hal(self, index: usize) -> (res: LayoutBinding)
        ensures
            res == self.hal(index),
    {
        let binding = (index as u64 % 0x1_0000_0000u64) as u32;
        match self {
            DescriptorBinding::Texture => LayoutBinding {
                binding,
                ty: DescriptorType::CombinedImageSampler,
                count: 1,
                vertex_stage: true,
                fragment_stage: true,
                immutable_samplers: false,
            },
        }
    }
}

/// What the device is told of a list of bindings: each with its position
/// as its number.
pub open spec fn layout_of(bindings: Seq<DescriptorBinding>) -> Seq<LayoutBinding> {
    Seq::new(bindings.len(), |i: int| bindings[i].hal(i as usize))
}

/// Numbers the bindings of a layout by their position.
pub fn raw_bindings_of(bindings: &Vec<DescriptorBinding>) -> (res: Vec<LayoutBinding>)
    ensures
        res@ == layout_of(bindings@),
{
    let mut out: Vec<LayoutBinding> = Vec::new();
    let mut i: usize = 0;
    while i < bindings.len()
        invariant
            i <= bindings.len(),
            out@.len() == i,
            forall|j: int| 0 <= j < i ==> out@[j] == bindings@[j].hal(j as usize),
        decreases bindings.len() - i,
    {
        out.push(bindings[i].into_hal(i));
        i += 1;
    }
    proof {
        assert(out@ =~= layout_of(bindings@));
    }
    out
}

/// An object that describes the layout of a descriptor set: a list of
/// numbered bindings of different types of data.
pub struct DescriptorLayout {
    pub raw: Droppable<u64>,
    pub bindings: Vec<LayoutBinding>,
}

impl DescriptorLayout {
    /// Wraps the layout that the device created for the given bindings.
    pub fn new(handle: u64, bindings: &Vec<DescriptorBinding>) -> (res: Self)
        ensures
            res.raw.value == Some(handle),
            res.bindings@ == layout_of(bindings@),
    {
        DescriptorLayout { raw: Droppable::new(handle), bindings: raw_bindings_of(bindings) }
    }

    /// Gets the raw list of bindings in the descriptor layout.
    pub fn raw_bindings(&self) -> (res: &Vec<LayoutBinding>)
        ensures
            res@ == self.bindings@,
    {
        &self.bindings
    }

    /// The device's handle of the layout.
    pub fn as_backend(&self) -> (res: u64)
        requires
            !self.raw.dropped(),
        ensures
            Some(res) == self.raw.value,
    {
        *self.raw.get()
    }

    /// Gives up the device's layout: returns its handle the first time,
    /// for the device to destroy, and `None` from then on.
    pub fn destroy(&mut self) -> (res: Option<u64>)
        ensures
            res == old(self).raw.value,
            final(self).raw.dropped(),
            final(self).bindings == old(self).bindings,
            old(self).raw.dropped() ==> *final(self) == *old(self),
    {
        self.raw.take()
    }
}

/// What a graphics pipeline is built from.
pub struct PipelineOptions {
    pub vertex_shader: Module,
    pub fragment_shader: Module,
    pub size_of_push_constants: usize,
}

impl PipelineOptions {
    /// Whether a pipeline can be built from the options: push constants
    /// come in words of four bytes.
    pub open spec fn valid(&self) -> bool {
        self.size_of_push_constants % 4 == 0
    }

    /// Number of 32-bit words in the push constants.
    pub open spec fn word_count(&self) -> usize {
        (self.size_of_push_constants / 4) as usize
    }

    /// The words of push constants that the pipeline layout declares for
    /// all stages: none where there are no push constants.
    pub open spec fn constant_words(&self) -> Option<Range<u32>> {
        if self.size_of_push_constants > 0 {
            Some(
                Range {
                    start: 0u32,
                    end: ((self.size_of_push_constants as int % 0x1_0000_0000) / 4) as u32,
                },
            )
        } else {
            None
        }
    }

    /// Whether a pipeline can be built from the options.
    pub fn is_valid(&self) -> (res: bool)
        ensures
            res == self.valid(),
    {
        self.size_of_push_constants % 4 == 0
    }

    /// What the device is asked to build: the vertex stage runs the vertex
    /// shader of the options, the fragment stage their fragment shader.
    pub fn description(&self) -> (res: PipelineDescription)
        requires
            self.valid(),
            !self.vertex_shader.shader.dropped(),
            !self.fragment_shader.shader.dropped(),
        ensures
            Some(res.vertex) == self.vertex_shader.shader.value,
            Some(res.fragment) == self.fragment_shader.shader.value,
            res.constants == self.constant_words(),
    {
        PipelineDescription {
            vertex: *self.vertex_shader.shader.get(),
            fragment: *self.fragment_shader.shader.get(),
            constants: self.push_constant_range(),
        }
    }

    /// The range of push constant words to declare in the pipeline layout.
    pub fn push_constant_range(&self) -> (res: Option<Range<u32>>)
        requires
            self.valid(),
        ensures
            res == self.constant_words(),
    {
        if self.size_of_push_constants > 0 {
            let low = (self.size_of_push_constants as u64 % 0x1_0000_0000u64) as u32;
            Some(Range { start: 0, end: low / 4 })
        } else {
            None
        }
    }
}

/// What the device is asked to build a graphics pipeline from: the shader
/// module of each stage, and the words of push constants that the layout
/// declares for all stages.
pub struct PipelineDescription {
    pub vertex: u64,
    pub fragment: u64,
    pub constants: Option<Range<u32>>,
}

/// What the device has to destroy when a pipeline goes, in this order.
#[derive(Debug, Clone, Copy, PartialEq, Eq, Structural)]
pub struct PipelineTeardown {
    pub pipeline: Option<u64>,
    pub layout: Option<u64>,
    pub vertex_shader: Option<u64>,
    pub fragment_shader: Option<u64>,
}

/// A graphics pipeline with the layout and the shaders it was built from.
pub struct Pipeline {
    pub pipeline: Droppable<u64>,
    pub layout: Droppable<u64>,
    pub options: PipelineOptions,
}

impl Pipeline {
    /// Wraps the pipeline and the layout that the device created from the
    /// options.
    pub fn new(pipeline: u64, layout: u64, options: PipelineOptions) -> (res: Self)
        requires
            options.valid(),
        ensures
            res.pipeline.value == Some(pipeline),
            res.layout.value == Some(layout),
            res.options == options,
    {
        Pipeline { pipeline: Droppable::new(pipeline), layout: Droppable::new(layout), options }
    }

    /// Number of 32-bit words of push constants that the pipeline takes.
    pub fn push_constant_count(&self) -> (res: usize)
        ensures
            res == self.options.word_count(),
    {
        self.options.size_of_push_constants / 4
    }

    /// The device's handle of the pipeline.
    pub fn as_backend(&self) -> (res: u64)
        requires
            !self.pipeline.dropped(),
        ensures
            Some(res) == self.pipeline.value,
    {
        *self.pipeline.get()
    }

    /// The device's handle of the pipeline's layout.
    pub fn backend_layout(&self) -> (res: u64)
        requires
            !self.layout.dropped(),
        ensures
            Some(res) == self.layout.value,
    {
        *self.layout.get()
    }

    /// What is left to destroy of the pipeline.
    pub open spec fn remains(&self) -> PipelineTeardown {
        PipelineTeardown {
            pipeline: self.pipeline.value,
            layout: self.layout.value,
            vertex_shader: self.options.vertex_shader.shader.value,
            fragment_shader: self.options.fragment_shader.shader.value,
        }
    }

    /// Gives up the pipeline, its layout and both shaders: returns what
    /// the device has to destroy, which is nothing from the second call
    /// on.
    pub fn destroy(&mut self) -> (res: PipelineTeardown)
        ensures
            res == old(self).remains(),
            final(self).remains() == (PipelineTeardown {
                pipeline: None,
                layout: None,
                vertex_shader: None,
                fragment_shader: None,
            }),
            final(self).options.size_of_push_constants == old(self).options.size_of_push_constants,
            old(self).remains() == final(self).remains() ==> *final(self) == *old(self),
    {
        let pipeline = self.pipeline.take();
        let layout = self.layout.take();
        let vertex_shader = self.options.vertex_shader.destroy();
        let fragment_shader = self.options.fragment_shader.destroy();
        PipelineTeardown { pipeline, layout, vertex_shader, fragment_shader }
    }
}

} // verus!
