//! The teardown vocabulary: release is a plan of destroy steps in strict
//! dependency order, executed by the caller against the live device.

use vstd::prelude::*;

verus! {

/// Which of the two geometry buffers a step refers to.
#[derive(Clone, Copy, Debug, PartialEq, Eq, Structural)]
pub enum BufferId {
    Vertex,
    Index,
}

/// One resource-destruction step of a release plan.
///
/// A full plan starts by waiting for the device to go idle, then destroys in
/// dependency order: fences, semaphores, framebuffers, image views, buffer
/// resources, the pipeline resource, the command pool, the render pass, and
/// finally the swapchain.
#[derive(Clone, Copy, Debug, PartialEq, Eq, Structural)]
pub enum TeardownStep {
    /// Block until no submitted GPU work is still executing.
    WaitIdle,
    /// Destroy the in-flight fence of the given frame slot.
    DestroyFence { index: usize },
    /// Destroy the render-finished semaphore of the given frame slot.
    DestroyRenderFinishedSemaphore { index: usize },
    /// Destroy the image-available semaphore of the given frame slot.
    DestroyImageAvailableSemaphore { index: usize },
    /// Destroy the framebuffer of the given swapchain image.
    DestroyFramebuffer { index: usize },
    /// Destroy the image view of the given swapchain image.
    DestroyImageView { index: usize },
    /// Destroy a buffer handle; always precedes freeing its memory.
    DestroyBuffer { id: BufferId },
    /// Free the memory that backed a buffer.
    FreeMemory { id: BufferId },
    /// Destroy one descriptor set layout of the pipeline resource.
    DestroyDescriptorSetLayout { index: usize },
    /// Destroy the pipeline layout.
    DestroyPipelineLayout,
    /// Destroy the graphics pipeline handle.
    DestroyGraphicsPipeline,
    /// Destroy the command pool, and with it all command buffers.
    DestroyCommandPool,
    /// Destroy the render pass.
    DestroyRenderPass,
    /// Destroy the swapchain itself, last of all.
    DestroySwapchain,
}

/// A kind of per-index resource destroyed in a run of consecutive steps.
#[derive(Clone, Copy, Debug, PartialEq, Eq, Structural)]
pub enum StepRunKind {
    Fence,
    RenderFinishedSemaphore,
    ImageAvailableSemaphore,
    Framebuffer,
    ImageView,
}

/// The step destroying resource `i` of the given kind.
pub open spec fn spec_run_step(kind: StepRunKind, i: int) -> TeardownStep {
    match kind {
        StepRunKind::Fence => (TeardownStep::DestroyFence { index: i as usize }),
        StepRunKind::RenderFinishedSemaphore => (TeardownStep::DestroyRenderFinishedSemaphore {
            index: i as usize,
        }),
        StepRunKind::ImageAvailableSemaphore => (TeardownStep::DestroyImageAvailableSemaphore {
            index: i as usize,
        }),
        StepRunKind::Framebuffer => (TeardownStep::DestroyFramebuffer { index: i as usize }),
        StepRunKind::ImageView => (TeardownStep::DestroyImageView { index: i as usize }),
    }
}

/// The run destroying resources `0..count` of the given kind, in index order.
pub open spec fn spec_step_run(kind: StepRunKind, count: nat) -> Seq<TeardownStep> {
    Seq::new(count, |i: int| spec_run_step(kind, i))
}

/// Appends the run destroying resources `0..count` of the given kind.
pub fn push_step_run(steps: &mut Vec<TeardownStep>, kind: StepRunKind, count: usize)
    ensures
        final(steps)@ == old(steps)@ + spec_step_run(kind, count as nat),
{
    let mut i: usize = 0;
    while i < count
        invariant
            i <= count,
            steps@ == old(steps)@ + spec_step_run(kind, i as nat),
        decreases count - i,
    {
        let step = match kind {
            StepRunKind::Fence => TeardownStep::DestroyFence { index: i },
            StepRunKind::RenderFinishedSemaphore => TeardownStep::DestroyRenderFinishedSemaphore {
                index: i,
            },
            StepRunKind::ImageAvailableSemaphore => TeardownStep::DestroyImageAvailableSemaphore {
                index: i,
            },
            StepRunKind::Framebuffer => TeardownStep::DestroyFramebuffer { index: i },
            StepRunKind::ImageView => TeardownStep::DestroyImageView { index: i },
        };
        steps.push(step);
        proof {
            assert(steps@ =~= old(steps)@ + spec_step_run(kind, (i + 1) as nat));
        }
        i = i + 1;
    }
}

} // verus!
