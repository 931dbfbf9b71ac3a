use gfx_hal::device::{AllocationError, OutOfMemory, ShaderError};
use gfx_hal::pso::Stage as BackendStage;
use nova_gfx::backend::{AllocationFailure, ShaderFailure};
use nova_gfx::droppable::Droppable;
use nova_gfx::pipeline::{
    raw_bindings_of, DescriptorBinding, DescriptorLayout, DescriptorType, LayoutBinding, Pipeline,
    PipelineOptions, PipelineTeardown,
};
use nova_gfx::resources::{
    Backing, Buffer, Framebuffer, Image, ImageTeardown, RenderPass, Sampler, SamplerCreationError,
    SamplerFilter,
};
use nova_gfx::shader::{compiled_kind, CreationError, Module, ShaderKind, ShaderStage};
use nova_gfx::sync::{Fence, FenceState, Semaphore};
use nova_gfx::types::{BufferKind, Size};

#[test]
fn droppable_gives_its_handle_once() {
    let mut holder = Droppable::new(5u64);
    assert!(!holder.is_dropped());
    assert_eq!(*holder.get(), 5);
    assert_eq!(holder.take(), Some(5));
    assert!(holder.is_dropped());
    assert_eq!(holder.take(), None);
    assert!(holder.is_dropped());
    let mut empty = Droppable::<u64>::empty();
    assert!(empty.is_dropped());
    assert_eq!(empty.take(), None);
}

#[test]
fn destroy_twice_is_a_no_op() {
    let mut fence = Fence::new(1, true);
    assert_eq!(fence.destroy(), Some(1));
    assert_eq!(fence.destroy(), None);
    assert_eq!(fence.state(), FenceState::Signaled);

    let mut semaphore = Semaphore::new(2);
    assert_eq!(semaphore.destroy(), Some(2));
    assert_eq!(semaphore.destroy(), None);

    let mut buffer = Buffer::new(3, BufferKind::Index, 10, 2);
    assert_eq!(buffer.destroy(), Some(3));
    assert_eq!(buffer.destroy(), None);
    assert_eq!(buffer.len(), 10);

    let mut sampler = Sampler::new(4, SamplerFilter::Linear);
    assert_eq!(sampler.destroy(), Some(4));
    assert_eq!(sampler.destroy(), None);

    let mut module = Module::new(5);
    assert_eq!(module.destroy(), Some(5));
    assert_eq!(module.destroy(), None);

    let mut pass = RenderPass::new(6);
    assert_eq!(pass.destroy(), Some(6));
    assert_eq!(pass.destroy(), None);

    let mut layout = DescriptorLayout::new(7, &vec![DescriptorBinding::Texture]);
    assert_eq!(layout.destroy(), Some(7));
    assert_eq!(layout.destroy(), None);
    assert_eq!(layout.raw_bindings().len(), 1);

    let mut framebuffer = Framebuffer::new();
    assert_eq!(framebuffer.destroy(), None);
    framebuffer.created(8);
    assert_eq!(framebuffer.destroy(), Some(8));
    assert_eq!(framebuffer.destroy(), None);
}

#[test]
fn fence_goes_through_its_states() {
    let mut fence = Fence::new(1, false);
    assert_eq!(fence.state(), FenceState::Unsignaled);
    assert_eq!(fence.as_backend(), 1);
    assert!(!fence.can_wait());
    assert!(fence.can_reset());
    fence.mark_submitted();
    assert_eq!(fence.state(), FenceState::Pending);
    assert!(fence.can_wait());
    assert!(!fence.can_reset());
    fence.wait();
    assert_eq!(fence.state(), FenceState::Signaled);
    assert!(fence.can_reset());
    fence.reset();
    assert_eq!(fence.state(), FenceState::Unsignaled);
    fence.mark_submitted();
    fence.wait_and_reset();
    assert_eq!(fence.state(), FenceState::Unsignaled);

    let mut signaled = Fence::new(2, true);
    assert_eq!(signaled.state(), FenceState::Signaled);
    assert!(signaled.can_wait());
    signaled.wait_and_reset();
    assert_eq!(signaled.state(), FenceState::Unsignaled);
}

#[test]
fn image_of_a_swapchain_leaves_its_memory_to_the_swapchain() {
    let mut image = Image::from_raw(Backing::Swapchain(10), 11, Size::new(4, 2));
    assert_eq!(image.size(), Size::new(4, 2));
    assert_eq!(image.as_backend(), 11);
    assert_eq!(image.backing_handle(), 10);
    assert_eq!(image.destroy(), ImageTeardown { view: Some(11), allocation: None });
    assert_eq!(image.destroy(), ImageTeardown { view: None, allocation: None });
}

#[test]
fn allocated_image_gives_its_memory_back() {
    let mut image = Image::from_raw(Backing::Allocated(10), 11, Size::new(4, 2));
    assert_eq!(image.backing_handle(), 10);
    assert_eq!(image.destroy(), ImageTeardown { view: Some(11), allocation: Some(10) });
    assert_eq!(image.destroy(), ImageTeardown { view: None, allocation: None });
    assert_eq!(Backing::Allocated(3).destroy(), Some(3));
    assert_eq!(Backing::Swapchain(3).destroy(), None);
    assert_eq!(Backing::Swapchain(3).as_backend(), 3);
}

#[test]
fn sampler_errors_come_from_allocation_errors() {
    assert_eq!(
        SamplerCreationError::from(AllocationError::TooManyObjects),
        SamplerCreationError::TooManyBlocks
    );
    assert_eq!(
        SamplerCreationError::from(AllocationError::OutOfMemory(OutOfMemory::OutOfDeviceMemory)),
        SamplerCreationError::OutOfMemory
    );
    assert_eq!(
        SamplerCreationError::from(AllocationError::OutOfMemory(OutOfMemory::OutOfHostMemory)),
        SamplerCreationError::OutOfMemory
    );
    assert_eq!(
        SamplerCreationError::from_failure(AllocationFailure::TooManyObjects),
        SamplerCreationError::TooManyBlocks
    );
    assert_eq!(SamplerCreationError::OutOfMemory.to_string(), "out of memory");
    assert_eq!(SamplerCreationError::TooManyBlocks.to_string(), "too many samplers allocated");
}

#[test]
fn sampler_keeps_its_filter() {
    let sampler = Sampler::new(9, SamplerFilter::Nearest);
    assert_eq!(sampler.as_backend(), 9);
    assert_eq!(sampler.filter, SamplerFilter::Nearest);
}

#[test]
fn shader_module_is_entered_at_main() {
    let module = Module::new(12);
    let entry = module.backend_entrypoint();
    assert_eq!(entry.entry, "main");
    assert_eq!(entry.module, 12);
}

#[test]
fn only_vertex_and_fragment_shaders_are_compiled() {
    assert_eq!(compiled_kind(ShaderStage::Vertex), Some(ShaderKind::Vertex));
    assert_eq!(compiled_kind(ShaderStage::Fragment), Some(ShaderKind::Fragment));
    assert_eq!(compiled_kind(ShaderStage::Compute), None);
    assert_eq!(compiled_kind(ShaderStage::Geometry), None);
    assert_eq!(compiled_kind(ShaderStage::Hull), None);
    assert_eq!(compiled_kind(ShaderStage::Domain), None);
}

#[test]
fn shader_errors_keep_the_compilers_message() {
    match CreationError::from_backend(ShaderError::CompilationFailed("line 3: oops".to_string())) {
        Some(CreationError::CompilationFailed(reason)) => assert_eq!(reason, "line 3: oops"),
        other => panic!("unexpected error: {:?}", other),
    }
    assert!(matches!(
        CreationError::from_backend(ShaderError::OutOfMemory(OutOfMemory::OutOfHostMemory)),
        Some(CreationError::OutOfMemory)
    ));
    assert!(CreationError::from_backend(ShaderError::MissingEntryPoint("main".to_string())).is_none());
    assert!(CreationError::from_backend(ShaderError::InterfaceMismatch("x".to_string())).is_none());
    assert!(CreationError::from_backend(ShaderError::UnsupportedStage(BackendStage::Compute)).is_none());
    assert!(CreationError::from_failure(ShaderFailure::UnsupportedStage).is_none());
    assert_eq!(
        CreationError::CompilationFailed("bad".to_string()).to_string(),
        "shader compilation failed: bad"
    );
    assert_eq!(CreationError::OutOfMemory.to_string(), "out of memory");
}

#[test]
fn bindings_are_numbered_by_position() {
    let texture = LayoutBinding {
        binding: 0,
        ty: DescriptorType::CombinedImageSampler,
        count: 1,
        vertex_stage: true,
        fragment_stage: true,
        immutable_samplers: false,
    };
    assert_eq!(DescriptorBinding::Texture.into_hal(0), texture);
    assert_eq!(DescriptorBinding::Texture.into_hal(5), LayoutBinding { binding: 5, ..texture });
    let bindings = raw_bindings_of(&vec![DescriptorBinding::Texture; 3]);
    assert_eq!(
        bindings,
        vec![texture, LayoutBinding { binding: 1, ..texture }, LayoutBinding { binding: 2, ..texture }]
    );
    assert!(raw_bindings_of(&vec![]).is_empty());
    let layout = DescriptorLayout::new(4, &vec![DescriptorBinding::Texture; 2]);
    assert_eq!(layout.as_backend(), 4);
    assert_eq!(layout.raw_bindings()[1].binding, 1);
}

#[test]
fn binding_numbers_keep_the_low_32_bits() {
    let index = 0x1_0000_0003u64 as usize;
    assert_eq!(DescriptorBinding::Texture.into_hal(index).binding, index as u32);
    assert_eq!(DescriptorBinding::Texture.into_hal(u32::MAX as usize).binding, u32::MAX);
}

fn options(size: usize) -> PipelineOptions {
    PipelineOptions {
        vertex_shader: Module::new(20),
        fragment_shader: Module::new(21),
        size_of_push_constants: size,
    }
}

#[test]
fn push_constants_come_in_words() {
    assert!(options(0).is_valid());
    assert!(options(64).is_valid());
    assert!(!options(6).is_valid());
    assert_eq!(options(0).push_constant_range(), None);
    assert_eq!(options(4).push_constant_range(), Some(0..1));
    assert_eq!(options(64).push_constant_range(), Some(0..16));
    let pipeline = Pipeline::new(1, 2, options(64));
    assert_eq!(pipeline.push_constant_count(), 16);
    assert_eq!(pipeline.as_backend(), 1);
    assert_eq!(pipeline.backend_layout(), 2);
}

#[test]
fn each_stage_gets_its_own_shader() {
    let description = options(16).description();
    assert_eq!(description.vertex, 20);
    assert_eq!(description.fragment, 21);
    assert_eq!(description.constants, Some(0..4));
    let description = options(0).description();
    assert_eq!(description.vertex, 20);
    assert_eq!(description.fragment, 21);
    assert_eq!(description.constants, None);
}

#[test]
fn pipeline_goes_with_its_layout_and_shaders() {
    let mut pipeline = Pipeline::new(1, 2, options(16));
    assert_eq!(
        pipeline.destroy(),
        PipelineTeardown {
            pipeline: Some(1),
            layout: Some(2),
            vertex_shader: Some(20),
            fragment_shader: Some(21),
        }
    );
    assert_eq!(
        pipeline.destroy(),
        PipelineTeardown { pipeline: None, layout: None, vertex_shader: None, fragment_shader: None }
    );
}

#[test]
fn framebuffer_is_created_anew_when_pass_or_attachment_change() {
    let mut framebuffer = Framebuffer::new();
    assert!(framebuffer.needs_creation());
    assert_eq!(framebuffer.render_pass(), None);
    assert_eq!(framebuffer.set_render_pass(&RenderPass::new(1)), None);
    assert_eq!(framebuffer.render_pass(), Some(1));
    assert_eq!(framebuffer.set_attachment(5, Size::new(10, 10)), None);
    framebuffer.created(50);
    assert!(!framebuffer.needs_creation());
    assert_eq!(framebuffer.as_backend(), 50);
    assert_eq!(framebuffer.size(), Size::new(10, 10));

    assert_eq!(framebuffer.set_attachment(5, Size::new(10, 10)), None);
    assert!(!framebuffer.needs_creation());
    assert_eq!(framebuffer.set_render_pass(&RenderPass::new(1)), None);
    assert!(!framebuffer.needs_creation());

    assert_eq!(framebuffer.set_attachment(6, Size::new(10, 10)), Some(50));
    assert!(framebuffer.needs_creation());
    framebuffer.created(51);
    assert_eq!(framebuffer.set_attachment(6, Size::new(20, 10)), Some(51));
    framebuffer.created(52);
    assert_eq!(framebuffer.set_render_pass(&RenderPass::new(2)), Some(52));
    assert!(framebuffer.needs_creation());
}
