//! The values of gfx-hal and crossbeam-channel that pass through the
//! library, and what the library reads of them.
//!
//! Every item here is taken on trust: the types are opaque to the
//! verifier, and each function states what the named outside item does.

use vstd::prelude::*;

verus! {

/// gfx-hal's identifier of a queue family.
#[verifier::external_type_specification]
#[verifier::external_body]
pub struct ExQueueFamilyId(gfx_hal::queue::QueueFamilyId);

/// gfx-hal's error for a failed allocation of a device object.
#[verifier::external_type_specification]
#[verifier::external_body]
pub struct ExAllocationError(gfx_hal::device::AllocationError);

/// gfx-hal's error for a failed creation of a shader module.
#[verifier::external_type_specification]
#[verifier::external_body]
pub struct ExShaderError(gfx_hal::device::ShaderError);

/// gfx-hal's error for a failed presentation of a swapchain image.
#[verifier::external_type_specification]
#[verifier::external_body]
pub struct ExPresentError(gfx_hal::window::PresentError);

/// gfx-hal's error for a failed acquisition of a swapchain image.
#[verifier::external_type_specification]
#[verifier::external_body]
pub struct ExAcquireError(gfx_hal::window::AcquireError);

/// gfx-hal's marker for a swapchain that still presents but no longer
/// matches its surface exactly.
#[verifier::external_type_specification]
#[verifier::external_body]
pub struct ExSuboptimal(gfx_hal::window::Suboptimal);

/// crossbeam-channel's error for a receive on an empty channel whose
/// senders are all gone.
#[verifier::external_type_specification]
#[verifier::external_body]
pub struct ExRecvError(crossbeam_channel::RecvError);

/// crossbeam-channel's error for a receive that does not block.
#[verifier::external_type_specification]
#[verifier::external_body]
pub struct ExTryRecvError(crossbeam_channel::TryRecvError);

/// Why the device could not allocate an object.
#[derive(Debug, Clone, Copy, PartialEq, Eq, Structural)]
pub enum AllocationFailure {
    OutOfMemory,
    TooManyObjects,
}

/// Why the device could not create a shader module.
#[derive(Debug)]
pub enum ShaderFailure {
    CompilationFailed(String),
    MissingEntryPoint(String),
    InterfaceMismatch(String),
    UnsupportedStage,
    OutOfMemory,
}

/// Why the device could not present or acquire a swapchain image.
#[derive(Debug, Clone, Copy, PartialEq, Eq, Structural)]
pub enum SwapchainFailure {
    OutOfMemory,
    NotReady,
    OutOfDate,
    SurfaceLost,
    DeviceLost,
}

/// Why a receive that does not block came back without a message.
#[derive(Debug, Clone, Copy, PartialEq, Eq, Structural)]
pub enum TryRecvFailure {
    Empty,
    Disconnected,
}

/// The family number that a `gfx_hal::queue::QueueFamilyId` holds.
pub uninterp spec fn family_number(id: gfx_hal::queue::QueueFamilyId) -> usize;

/// The variant of a `gfx_hal::device::AllocationError`.
pub uninterp spec fn allocation_failure(err: gfx_hal::device::AllocationError) -> AllocationFailure;

/// The variant of a `gfx_hal::device::ShaderError`, with its message.
pub uninterp spec fn shader_failure(err: gfx_hal::device::ShaderError) -> ShaderFailure;

/// The variant of a `gfx_hal::window::PresentError`.
pub uninterp spec fn present_failure(err: gfx_hal::window::PresentError) -> SwapchainFailure;

/// The variant of a `gfx_hal::window::AcquireError`.
pub uninterp spec fn acquire_failure(err: gfx_hal::window::AcquireError) -> SwapchainFailure;

/// The variant of a `crossbeam_channel::TryRecvError`.
pub uninterp spec fn try_recv_failure(err: crossbeam_channel::TryRecvError) -> TryRecvFailure;

/// Builds gfx-hal's `QueueFamilyId`, a tuple struct around the family's
/// number, from that number.
#[verifier::external_body]
pub(crate) fn backend_family_id(number: usize) -> (res: gfx_hal::queue::QueueFamilyId)
    ensures
        family_number(res) == number,
{
    gfx_hal::queue::QueueFamilyId(number)
}

/// Tells the variants of `gfx_hal::device::AllocationError` apart.
#[verifier::external_body]
pub(crate) fn classify_allocation_error(err: gfx_hal::device::AllocationError) -> (res:
    AllocationFailure)
    ensures
        res == allocation_failure(err),
{
    match err {
        gfx_hal::device::AllocationError::OutOfMemory(_) => AllocationFailure::OutOfMemory,
        gfx_hal::device::AllocationError::TooManyObjects => AllocationFailure::TooManyObjects,
    }
}

/// Tells the variants of `gfx_hal::device::ShaderError` apart, moving the
/// message out of those that carry one.
#[verifier::external_body]
pub(crate) fn classify_shader_error(err: gfx_hal::device::ShaderError) -> (res: ShaderFailure)
    ensures
        res == shader_failure(err),
{
    match err {
        gfx_hal::device::ShaderError::CompilationFailed(msg) => ShaderFailure::CompilationFailed(msg),
        gfx_hal::device::ShaderError::MissingEntryPoint(msg) => ShaderFailure::MissingEntryPoint(msg),
        gfx_hal::device::ShaderError::InterfaceMismatch(msg) => ShaderFailure::InterfaceMismatch(msg),
        gfx_hal::device::ShaderError::UnsupportedStage(_) => ShaderFailure::UnsupportedStage,
        gfx_hal::device::ShaderError::OutOfMemory(_) => ShaderFailure::OutOfMemory,
    }
}

/// Tells the variants of `gfx_hal::window::PresentError` apart; it has no
/// variant for an image that is not ready.
#[verifier::external_body]
pub(crate) fn classify_present_error(err: gfx_hal::window::PresentError) -> (res: SwapchainFailure)
    ensures
        res == present_failure(err),
        res != SwapchainFailure::NotReady,
{
    match err {
        gfx_hal::window::PresentError::OutOfMemory(_) => SwapchainFailure::OutOfMemory,
        gfx_hal::window::PresentError::OutOfDate => SwapchainFailure::OutOfDate,
        gfx_hal::window::PresentError::SurfaceLost(_) => SwapchainFailure::SurfaceLost,
        gfx_hal::window::PresentError::DeviceLost(_) => SwapchainFailure::DeviceLost,
    }
}

/// Tells the variants of `gfx_hal::window::AcquireError` apart.
#[verifier::external_body]
pub(crate) fn classify_acquire_error(err: gfx_hal::window::AcquireError) -> (res: SwapchainFailure)
    ensures
        res == acquire_failure(err),
{
    match err {
        gfx_hal::window::AcquireError::OutOfMemory(_) => SwapchainFailure::OutOfMemory,
        gfx_hal::window::AcquireError::NotReady => SwapchainFailure::NotReady,
        gfx_hal::window::AcquireError::OutOfDate => SwapchainFailure::OutOfDate,
        gfx_hal::window::AcquireError::SurfaceLost(_) => SwapchainFailure::SurfaceLost,
        gfx_hal::window::AcquireError::DeviceLost(_) => SwapchainFailure::DeviceLost,
    }
}

/// Tells the variants of `crossbeam_channel::TryRecvError` apart: an empty
/// channel gives `None`, a disconnected one the error that a blocking
/// receive returns on it.
#[verifier::external_body]
pub(crate) fn disconnection(err: crossbeam_channel::TryRecvError) -> (res: Option<
    crossbeam_channel::RecvError,
>)
    ensures
        res is Some <==> try_recv_failure(err) == TryRecvFailure::Disconnected,
{
    match err {
        crossbeam_channel::TryRecvError::Empty => None,
        crossbeam_channel::TryRecvError::Disconnected => Some(crossbeam_channel::RecvError),
    }
}

} // verus!
