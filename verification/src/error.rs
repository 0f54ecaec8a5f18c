//! Error taxonomy of the rendering core.
//!
//! Every fallible operation reports one of these variants; `reason` gives the
//! short human-readable string that callers log.

use vstd::prelude::*;

verus! {

/// Everything that can go wrong while building or driving the render state.
///
/// Setup errors (adapter, device, resource creation) are fatal to the render
/// state instance being built; per-frame errors (acquire, fence, upload,
/// present) fail only the current frame.
#[derive(Clone, Copy, Debug, PartialEq, Eq, Structural)]
pub enum RenderError {
    /// No adapter exposes a queue family with graphics + presentation support.
    NoSuitableAdapter,
    /// Logical device creation failed.
    DeviceOpenFailed,
    /// The opened queue group holds no command queues.
    NoQueues,
    /// Creating a buffer handle failed.
    BufferCreateFailed,
    /// No memory type is both compatible with the buffer and CPU-visible.
    NoCompatibleMemoryType,
    /// Allocating buffer memory failed.
    AllocationFailed,
    /// Binding memory to a buffer failed.
    BindFailed,
    /// Mapping buffer memory for an upload failed; fatal for that frame only.
    MapFailed,
    /// Compiling a shader source to its binary form failed.
    ShaderCompileFailed,
    /// Creating a descriptor set layout failed.
    DescriptorLayoutFailed,
    /// Creating the pipeline layout failed.
    PipelineLayoutFailed,
    /// Creating the graphics pipeline failed.
    PipelineCreateFailed,
    /// Creating the swapchain failed.
    SwapchainCreateFailed,
    /// Creating the render pass failed.
    RenderPassCreateFailed,
    /// Creating a backbuffer image view failed.
    ImageViewCreateFailed,
    /// Creating a framebuffer failed.
    FramebufferCreateFailed,
    /// Creating a semaphore failed.
    SemaphoreCreateFailed,
    /// Creating a fence failed.
    FenceCreateFailed,
    /// Creating the command pool failed.
    CommandPoolCreateFailed,
    /// Acquiring the next presentable image failed.
    AcquireFailed,
    /// Waiting on an in-flight fence failed.
    FenceWaitFailed,
    /// Resetting an in-flight fence failed.
    FenceResetFailed,
    /// Presenting the rendered image failed.
    PresentFailed,
    /// The surface no longer matches the swapchain and the strict policy is on.
    SwapchainSuboptimal,
    /// The render state was already released.
    StateFreed,
    /// An outcome was reported that the current frame stage cannot accept.
    UnexpectedEvent,
}

/// The reason string of each failure, pinned character for character.
pub open spec fn spec_reason(e: RenderError) -> Seq<char> {
    match e {
        RenderError::NoSuitableAdapter => "No adapter supporting the backend"@,
        RenderError::DeviceOpenFailed => "Could not open physical device"@,
        RenderError::NoQueues => "Queue group contains no command queues"@,
        RenderError::BufferCreateFailed => "Failed to create a buffer"@,
        RenderError::NoCompatibleMemoryType => "Failed to find a memory type to support the buffer"@,
        RenderError::AllocationFailed => "Failed to allocate buffer memory"@,
        RenderError::BindFailed => "Failed to bind the buffer memory"@,
        RenderError::MapFailed => "Failed to memory map buffer"@,
        RenderError::ShaderCompileFailed => "Failed to compile shader program"@,
        RenderError::DescriptorLayoutFailed => "Failed to create a descriptor set layout"@,
        RenderError::PipelineLayoutFailed => "Failed to create a pipeline layout"@,
        RenderError::PipelineCreateFailed => "Failed to create graphics pipeline"@,
        RenderError::SwapchainCreateFailed => "Could not create swapchain"@,
        RenderError::RenderPassCreateFailed => "Could not create render pass"@,
        RenderError::ImageViewCreateFailed => "Could not create a backbuffer image view"@,
        RenderError::FramebufferCreateFailed => "Could not create framebuffer"@,
        RenderError::SemaphoreCreateFailed => "Could not create semaphore"@,
        RenderError::FenceCreateFailed => "Could not create fence"@,
        RenderError::CommandPoolCreateFailed => "Could not create command pool"@,
        RenderError::AcquireFailed => "Failed to acquire an image from the swapchain"@,
        RenderError::FenceWaitFailed => "Failed to wait on the fence"@,
        RenderError::FenceResetFailed => "Failed to reset the fence"@,
        RenderError::PresentFailed => "Failed to present into the swapchain"@,
        RenderError::SwapchainSuboptimal => "Swapchain no longer matches drawing surface"@,
        RenderError::StateFreed => "Use of freed render state"@,
        RenderError::UnexpectedEvent => "Outcome does not match the current frame stage"@,
    }
}

impl RenderError {
    /// The short human-readable reason carried by every failure.
    pub fn reason(&self) -> (r: &'static str)
        ensures
            r@ == spec_reason(*self),
    {
        match self {
            RenderError::NoSuitableAdapter => "No adapter supporting the backend",
            RenderError::DeviceOpenFailed => "Could not open physical device",
            RenderError::NoQueues => "Queue group contains no command queues",
            RenderError::BufferCreateFailed => "Failed to create a buffer",
            RenderError::NoCompatibleMemoryType => "Failed to find a memory type to support the buffer",
            RenderError::AllocationFailed => "Failed to allocate buffer memory",
            RenderError::BindFailed => "Failed to bind the buffer memory",
            RenderError::MapFailed => "Failed to memory map buffer",
            RenderError::ShaderCompileFailed => "Failed to compile shader program",
            RenderError::DescriptorLayoutFailed => "Failed to create a descriptor set layout",
            RenderError::PipelineLayoutFailed => "Failed to create a pipeline layout",
            RenderError::PipelineCreateFailed => "Failed to create graphics pipeline",
            RenderError::SwapchainCreateFailed => "Could not create swapchain",
            RenderError::RenderPassCreateFailed => "Could not create render pass",
            RenderError::ImageViewCreateFailed => "Could not create a backbuffer image view",
            RenderError::FramebufferCreateFailed => "Could not create framebuffer",
            RenderError::SemaphoreCreateFailed => "Could not create semaphore",
            RenderError::FenceCreateFailed => "Could not create fence",
            RenderError::CommandPoolCreateFailed => "Could not create command pool",
            RenderError::AcquireFailed => "Failed to acquire an image from the swapchain",
            RenderError::FenceWaitFailed => "Failed to wait on the fence",
            RenderError::FenceResetFailed => "Failed to reset the fence",
            RenderError::PresentFailed => "Failed to present into the swapchain",
            RenderError::SwapchainSuboptimal => "Swapchain no longer matches drawing surface",
            RenderError::StateFreed => "Use of freed render state",
            RenderError::UnexpectedEvent => "Outcome does not match the current frame stage",
        }
    }
}

} // verus!
