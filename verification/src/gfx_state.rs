//! The render state aggregate and its per-frame synchronization machine.
//!
//! One frame is a fixed sequence of stages: pick a frame slot and advance the
//! rotation, acquire a presentable image, wait on and reset the in-flight
//! fence of the acquired image, rewrite the geometry buffers and record the
//! image's command buffer, submit, present. The caller performs the GPU calls
//! each stage asks for and reports their outcomes back as events; the machine
//! decides every transition and is what makes the synchronization rules hold.

use vstd::prelude::*;
use crate::FRAMES_IN_FLIGHT;
use crate::buffer_info::{BufferInfo, spec_upload};
use crate::drawing::{
    ClearColorBits, QUAD_INDEX_BYTES, QUAD_VERTEX_BYTES, RenderCommand, Vec2Bits,
    quad_index_bytes, quad_vertex_bytes, record_commands, spec_quad_index_bytes,
    spec_quad_vertex_bytes, spec_record_commands,
};
use crate::error::RenderError;
use crate::memory::{MemoryRequirements, MemoryType, spec_memory_type_supports};
use crate::pipeline_info::{PipelineInfo, RectArea, spec_desc_matches, spec_pipeline_teardown};
use crate::swapchain::{
    Extent2d, FrameTargets, SurfaceCaps, SwapchainConfig, spec_swapchain_config,
    spec_swapchain_extent, swapchain_config_from_caps,
};
use crate::teardown::{BufferId, StepRunKind, TeardownStep, push_step_run, spec_step_run};

verus! {

/// What to do when acquisition reports the surface no longer perfectly
/// matches the swapchain.
#[derive(Clone, Copy, Debug, PartialEq, Eq, Structural)]
pub enum SuboptimalPolicy {
    /// Keep drawing until an explicit resize arrives (the lazy policy).
    Ignore,
    /// Fail the frame so the caller recreates the render state at once.
    Strict,
}

/// Where the machine stands within the current frame.
#[derive(Clone, Copy, Debug, PartialEq, Eq, Structural)]
pub enum FramePhase {
    /// No frame is underway.
    Idle,
    /// An image acquisition signaling the slot's semaphore is outstanding.
    AwaitAcquire { slot: usize },
    /// Waiting on the in-flight fence of the acquired image.
    AwaitFence { slot: usize, image_index: usize },
    /// The upload, recording and submission of the frame are outstanding.
    AwaitSubmit { slot: usize, image_index: usize },
    /// The presentation request is outstanding.
    AwaitPresent { slot: usize, image_index: usize },
}

/// The outcome of the GPU work the machine last asked for.
#[derive(Clone, Copy, Debug, PartialEq, Eq, Structural)]
pub enum FrameEvent {
    /// The caller wants a new frame drawn.
    Begin,
    /// Acquisition returned an image index, possibly noting a mismatch
    /// between surface and swapchain.
    AcquireSucceeded { image_index: usize, suboptimal: bool },
    /// Acquisition failed.
    AcquireErrored,
    /// The in-flight fence was signaled and has been reset.
    FenceReady,
    /// Waiting on the in-flight fence failed.
    FenceWaitErrored,
    /// Resetting the in-flight fence failed.
    FenceResetErrored,
    /// Mapping a buffer for the per-frame upload failed. The frame's fence
    /// was already reset and nothing was submitted to signal it, so the next
    /// frame that acquires the same image will block in its fence wait; the
    /// release path's initial idle wait is unaffected, since no work is
    /// outstanding.
    UploadErrored,
    /// The command buffer was submitted to the queue.
    Submitted,
    /// Presentation completed, possibly noting a mismatch.
    PresentSucceeded { suboptimal: bool },
    /// Presentation failed.
    PresentErrored,
}

/// The GPU work the caller must perform next.
#[derive(Debug, PartialEq, Eq)]
pub enum FrameAction {
    /// Acquire the next presentable image, signaling the image-available
    /// semaphore of the given slot on completion.
    Acquire { slot: usize },
    /// Wait on the in-flight fence of the given image, then reset it.
    WaitAndResetFence { image_index: usize },
    /// Rewrite the vertex and index buffers, record the given commands into
    /// the command buffer of the image, and submit: waiting on the slot's
    /// image-available semaphore at the color-attachment-output stage,
    /// signaling the slot's render-finished semaphore, and signaling the
    /// image's in-flight fence on completion.
    UploadAndSubmit { slot: usize, image_index: usize, commands: Vec<RenderCommand> },
    /// Present the image on the queue, waiting on the slot's render-finished
    /// semaphore.
    Present { slot: usize, image_index: usize },
    /// The frame completed.
    FrameComplete,
    /// The frame failed; the rotation already advanced, so the next frame is
    /// unaffected.
    FrameFailed { error: RenderError },
}

/// The render state: it exclusively owns every resource it plans, and models
/// which command buffers still have submissions outstanding.
#[derive(Debug)]
pub struct GfxState {
    /// The rotating frame slot the next frame will use.
    pub current_frame: usize,
    /// Whether the state has been released.
    pub freed: bool,
    /// The swapchain configuration in force.
    pub config: SwapchainConfig,
    /// The per-image views and framebuffers.
    pub targets: FrameTargets,
    /// One flag per in-flight fence: true while a submission that signals it
    /// is outstanding (its fence unsignaled).
    pub in_flight: Vec<bool>,
    /// Where the machine stands within the current frame.
    pub phase: FramePhase,
    /// The pipeline resource.
    pub pipeline: PipelineInfo,
    /// The vertex buffer resource.
    pub vertices: BufferInfo,
    /// The index buffer resource.
    pub indices: BufferInfo,
    /// How suboptimal acquisitions are treated.
    pub policy: SuboptimalPolicy,
}

/// Number of true flags in a sequence: the command buffers with outstanding
/// (unsignaled) in-flight fences.
pub open spec fn count_true(s: Seq<bool>) -> nat
    decreases s.len(),
{
    if s.len() == 0 {
        0
    } else {
        count_true(s.drop_last()) + if s.last() {
            1nat
        } else {
            0nat
        }
    }
}

impl GfxState {
    /// The stage bookkeeping is consistent: every recorded slot is a valid
    /// frame slot and every recorded image index has a fence and a target.
    pub open spec fn phase_wf(self) -> bool {
        match self.phase {
            FramePhase::Idle => true,
            FramePhase::AwaitAcquire { slot } => slot < FRAMES_IN_FLIGHT,
            FramePhase::AwaitFence { slot, image_index } => slot < FRAMES_IN_FLIGHT
                && image_index < self.targets.image_count && image_index < FRAMES_IN_FLIGHT,
            FramePhase::AwaitSubmit { slot, image_index } => slot < FRAMES_IN_FLIGHT
                && image_index < self.targets.image_count && image_index < FRAMES_IN_FLIGHT,
            FramePhase::AwaitPresent { slot, image_index } => slot < FRAMES_IN_FLIGHT
                && image_index < self.targets.image_count && image_index < FRAMES_IN_FLIGHT,
        }
    }

    /// Submissions are only ever outstanding for command buffers of real
    /// swapchain images.
    pub open spec fn flight_confined(self) -> bool {
        forall|i: int| 0 <= i < self.in_flight@.len() && self.in_flight@[i]
            ==> i < self.targets.image_count
    }

    /// The aggregate invariant every operation preserves.
    pub open spec fn wf(self) -> bool {
        &&& self.current_frame < FRAMES_IN_FLIGHT
        &&& self.in_flight@.len() == FRAMES_IN_FLIGHT
        &&& self.targets.wf()
        &&& self.targets.image_count == self.config.image_count as usize
        &&& self.vertices.wf()
        &&& self.indices.wf()
        &&& self.vertices.contents@.len() == QUAD_VERTEX_BYTES
        &&& self.indices.contents@.len() == QUAD_INDEX_BYTES
        &&& (!self.freed ==> !self.vertices.freed && !self.indices.freed && !self.pipeline.freed)
        &&& (self.freed ==> self.phase == FramePhase::Idle)
        &&& self.phase_wf()
        &&& self.flight_confined()
    }
}

/// A failed frame: the stage returns to idle, the rotation and all resources
/// stay as they were, and the given error is reported.
pub open spec fn spec_frame_failed(
    pre: GfxState,
    post: GfxState,
    action: FrameAction,
    error: RenderError,
) -> bool {
    &&& post.phase == FramePhase::Idle
    &&& post.current_frame == pre.current_frame
    &&& post.in_flight@ == pre.in_flight@
    &&& post.vertices == pre.vertices
    &&& post.indices == pre.indices
    &&& action == (FrameAction::FrameFailed { error })
}

/// A stage transition that touches neither the rotation nor any resource.
pub open spec fn spec_frame_keeps(pre: GfxState, post: GfxState) -> bool {
    &&& post.current_frame == pre.current_frame
    &&& post.in_flight@ == pre.in_flight@
    &&& post.vertices == pre.vertices
    &&& post.indices == pre.indices
}

/// The full transition relation of one machine step on a live (not freed)
/// render state: for every stage and event, the next stage, the next action,
/// and exactly what changes.
pub open spec fn spec_frame_transition(
    pre: GfxState,
    post: GfxState,
    event: FrameEvent,
    clear: ClearColorBits,
    mouse: Vec2Bits,
    action: FrameAction,
) -> bool {
    match (pre.phase, event) {
        (FramePhase::Idle, FrameEvent::Begin) => {
            &&& post.current_frame == (pre.current_frame + 1) % (FRAMES_IN_FLIGHT as int)
            &&& post.in_flight@ == pre.in_flight@
            &&& post.vertices == pre.vertices
            &&& post.indices == pre.indices
            &&& post.phase == (FramePhase::AwaitAcquire { slot: pre.current_frame })
            &&& action == (FrameAction::Acquire { slot: pre.current_frame })
        },
        (FramePhase::AwaitAcquire { slot }, FrameEvent::AcquireSucceeded { image_index, suboptimal }) => {
            if image_index >= pre.targets.image_count || image_index >= FRAMES_IN_FLIGHT {
                spec_frame_failed(pre, post, action, RenderError::AcquireFailed)
            } else if suboptimal && pre.policy == SuboptimalPolicy::Strict {
                spec_frame_failed(pre, post, action, RenderError::SwapchainSuboptimal)
            } else {
                &&& spec_frame_keeps(pre, post)
                &&& post.phase == (FramePhase::AwaitFence { slot, image_index })
                &&& action == (FrameAction::WaitAndResetFence { image_index })
            }
        },
        (FramePhase::AwaitAcquire { slot }, FrameEvent::AcquireErrored) => spec_frame_failed(
            pre,
            post,
            action,
            RenderError::AcquireFailed,
        ),
        (FramePhase::AwaitFence { slot, image_index }, FrameEvent::FenceReady) => {
            &&& post.current_frame == pre.current_frame
            &&& post.in_flight@ == pre.in_flight@.update(image_index as int, false)
            &&& post.vertices == pre.vertices
            &&& post.indices == pre.indices
            &&& post.phase == (FramePhase::AwaitSubmit { slot, image_index })
            &&& match action {
                FrameAction::UploadAndSubmit { slot: aslot, image_index: aimage, commands } => {
                    &&& aslot == slot
                    &&& aimage == image_index
                    &&& commands@ == spec_record_commands(image_index, clear, mouse)
                },
                _ => false,
            }
        },
        (FramePhase::AwaitFence { slot, image_index }, FrameEvent::FenceWaitErrored) => spec_frame_failed(
            pre,
            post,
            action,
            RenderError::FenceWaitFailed,
        ),
        (FramePhase::AwaitFence { slot, image_index }, FrameEvent::FenceResetErrored) => spec_frame_failed(
            pre,
            post,
            action,
            RenderError::FenceResetFailed,
        ),
        (FramePhase::AwaitSubmit { slot, image_index }, FrameEvent::Submitted) => {
            &&& post.current_frame == pre.current_frame
            &&& post.in_flight@ == pre.in_flight@.update(image_index as int, true)
            &&& post.vertices.contents@ == spec_upload(
                pre.vertices.contents@,
                spec_quad_vertex_bytes(),
            )
            &&& post.vertices.requirements == pre.vertices.requirements
            &&& post.vertices.memory_type_id == pre.vertices.memory_type_id
            &&& post.vertices.freed == pre.vertices.freed
            &&& post.indices.contents@ == spec_upload(
                pre.indices.contents@,
                spec_quad_index_bytes(),
            )
            &&& post.indices.requirements == pre.indices.requirements
            &&& post.indices.memory_type_id == pre.indices.memory_type_id
            &&& post.indices.freed == pre.indices.freed
            &&& post.phase == (FramePhase::AwaitPresent { slot, image_index })
            &&& action == (FrameAction::Present { slot, image_index })
        },
        (FramePhase::AwaitSubmit { slot, image_index }, FrameEvent::UploadErrored) => spec_frame_failed(
            pre,
            post,
            action,
            RenderError::MapFailed,
        ),
        (FramePhase::AwaitPresent { slot, image_index }, FrameEvent::PresentSucceeded { suboptimal }) => {
            &&& spec_frame_keeps(pre, post)
            &&& post.phase == FramePhase::Idle
            &&& action == FrameAction::FrameComplete
        },
        (FramePhase::AwaitPresent { slot, image_index }, FrameEvent::PresentErrored) => spec_frame_failed(
            pre,
            post,
            action,
            RenderError::PresentFailed,
        ),
        _ => spec_frame_failed(pre, post, action, RenderError::UnexpectedEvent),
    }
}

impl GfxState {
    /// Plans a full render state for a window of the given extent: derives
    /// the swapchain configuration from the surface capabilities, plans one
    /// view and framebuffer per image, selects CPU-visible memory for the
    /// vertex and index buffers, and builds the pipeline description from the
    /// compiled shader binaries. The frame rotation starts at slot 0 with no
    /// submission outstanding.
    ///
    /// Fails with `NoCompatibleMemoryType` exactly when no memory type is
    /// both CPU-visible and compatible with one of the two buffers.
    pub fn new(
        caps: &SurfaceCaps,
        window_extent: Extent2d,
        memory_types: &Vec<MemoryType>,
        vertex_reqs: MemoryRequirements,
        index_reqs: MemoryRequirements,
        vert_shader: Vec<u32>,
        frag_shader: Vec<u32>,
        policy: SuboptimalPolicy,
    ) -> (r: Result<GfxState, RenderError>)
        requires
            caps.wf(),
            vertex_reqs.size >= QUAD_VERTEX_BYTES,
            index_reqs.size >= QUAD_INDEX_BYTES,
            spec_swapchain_extent(*caps, window_extent).width <= i16::MAX,
            spec_swapchain_extent(*caps, window_extent).height <= i16::MAX,
        ensures
            match r {
                Ok(s) => {
                    &&& s.wf()
                    &&& !s.freed
                    &&& s.current_frame == 0
                    &&& s.phase == FramePhase::Idle
                    &&& s.policy == policy
                    &&& s.config == spec_swapchain_config(*caps, window_extent)
                    &&& s.targets.image_count == s.config.image_count as usize
                    &&& s.targets.view_count == s.targets.image_count
                    &&& s.targets.framebuffer_count == s.targets.image_count
                    &&& forall|i: int| 0 <= i < s.in_flight@.len() ==> !s.in_flight@[i]
                    &&& s.vertices.contents@ == Seq::new(QUAD_VERTEX_BYTES as nat, |i: int| 0u8)
                    &&& s.indices.contents@ == Seq::new(QUAD_INDEX_BYTES as nat, |i: int| 0u8)
                    &&& s.vertices.requirements == vertex_reqs
                    &&& s.indices.requirements == index_reqs
                    &&& spec_memory_type_supports(
                        vertex_reqs.type_mask,
                        s.vertices.memory_type_id as int,
                        memory_types@[s.vertices.memory_type_id as int].cpu_visible,
                    )
                    &&& spec_memory_type_supports(
                        index_reqs.type_mask,
                        s.indices.memory_type_id as int,
                        memory_types@[s.indices.memory_type_id as int].cpu_visible,
                    )
                    &&& spec_desc_matches(
                        s.pipeline.desc,
                        vert_shader@,
                        frag_shader@,
                        0,
                        (RectArea {
                            x: 0,
                            y: 0,
                            w: spec_swapchain_extent(*caps, window_extent).width as i16,
                            h: spec_swapchain_extent(*caps, window_extent).height as i16,
                        }),
                    )
                },
                Err(e) => {
                    &&& e == RenderError::NoCompatibleMemoryType
                    &&& (forall|j: int| 0 <= j < memory_types@.len()
                        ==> !spec_memory_type_supports(
                            vertex_reqs.type_mask, j, memory_types@[j].cpu_visible))
                        || (forall|j: int| 0 <= j < memory_types@.len()
                        ==> !spec_memory_type_supports(
                            index_reqs.type_mask, j, memory_types@[j].cpu_visible))
                },
            },
    {
        let config = swapchain_config_from_caps(caps, window_extent);
        let targets = FrameTargets::new(config.image_count as usize);
        let vertices = BufferInfo::new(QUAD_VERTEX_BYTES, vertex_reqs, memory_types)?;
        let indices = BufferInfo::new(QUAD_INDEX_BYTES, index_reqs, memory_types)?;
        let viewport = RectArea {
            x: 0,
            y: 0,
            w: config.extent.width as i16,
            h: config.extent.height as i16,
        };
        let pipeline = PipelineInfo::new(vert_shader, frag_shader, 0, viewport);
        let mut in_flight: Vec<bool> = Vec::new();
        let mut i: usize = 0;
        while i < FRAMES_IN_FLIGHT
            invariant
                i <= FRAMES_IN_FLIGHT,
                in_flight@.len() == i,
                forall|j: int| 0 <= j < i ==> !in_flight@[j],
            decreases FRAMES_IN_FLIGHT - i,
        {
            in_flight.push(false);
            i = i + 1;
        }
        Ok(GfxState {
            current_frame: 0,
            freed: false,
            config,
            targets,
            in_flight,
            phase: FramePhase::Idle,
            pipeline,
            vertices,
            indices,
            policy,
        })
    }

    /// Runs one step of the frame machine: reports the outcome of the last
    /// requested GPU work and receives the next action, using the frame's
    /// clear color and mouse position when it records commands.
    ///
    /// On a released state every step fails with `StateFreed` and changes
    /// nothing. Otherwise a `Begin` on an idle state picks the current frame
    /// slot and advances the rotation immediately — before any outcome is
    /// known — so a failed frame does not stall it; no other step moves the
    /// rotation. Commands for a command buffer are only ever produced in the
    /// step that consumes the `FenceReady` attestation for that same image,
    /// so a command buffer is never re-recorded while its previous submission
    /// is outstanding. The byte model of the geometry buffers commits only on
    /// the `Submitted` outcome, once the uploads actually happened: a frame
    /// that fails with `MapFailed` leaves both buffers' contents exactly as
    /// they were.
    pub fn frame_step(&mut self, event: FrameEvent, clear: ClearColorBits, mouse: Vec2Bits) -> (action:
        FrameAction)
        requires
            old(self).wf(),
        ensures
            final(self).wf(),
            final(self).freed == old(self).freed,
            final(self).config == old(self).config,
            final(self).targets == old(self).targets,
            final(self).pipeline == old(self).pipeline,
            final(self).policy == old(self).policy,
            final(self).in_flight@.len() == old(self).in_flight@.len(),
            old(self).freed ==> *final(self) == *old(self) && action == (FrameAction::FrameFailed {
                error: RenderError::StateFreed,
            }),
            !old(self).freed ==> spec_frame_transition(
                *old(self),
                *final(self),
                event,
                clear,
                mouse,
                action,
            ),
            final(self).current_frame == if action matches FrameAction::Acquire { .. } {
                (old(self).current_frame + 1) % (FRAMES_IN_FLIGHT as int)
            } else {
                old(self).current_frame as int
            },
            match action {
                FrameAction::UploadAndSubmit { slot, image_index, commands } => {
                    &&& event == FrameEvent::FenceReady
                    &&& old(self).phase == (FramePhase::AwaitFence { slot, image_index })
                    &&& !final(self).in_flight@[image_index as int]
                    &&& commands@ == spec_record_commands(image_index, clear, mouse)
                },
                _ => true,
            },
    {
        if self.freed {
            return FrameAction::FrameFailed { error: RenderError::StateFreed };
        }
        let phase = self.phase;
        match (phase, event) {
            (FramePhase::Idle, FrameEvent::Begin) => {
                let slot = self.current_frame;
                self.current_frame = (self.current_frame + 1) % FRAMES_IN_FLIGHT;
                self.phase = FramePhase::AwaitAcquire { slot };
                FrameAction::Acquire { slot }
            },
            (FramePhase::AwaitAcquire { slot }, FrameEvent::AcquireSucceeded { image_index, suboptimal }) => {
                if image_index >= self.targets.image_count || image_index >= FRAMES_IN_FLIGHT {
                    self.phase = FramePhase::Idle;
                    FrameAction::FrameFailed { error: RenderError::AcquireFailed }
                } else if suboptimal && self.policy == SuboptimalPolicy::Strict {
                    self.phase = FramePhase::Idle;
                    FrameAction::FrameFailed { error: RenderError::SwapchainSuboptimal }
                } else {
                    self.phase = FramePhase::AwaitFence { slot, image_index };
                    FrameAction::WaitAndResetFence { image_index }
                }
            },
            (FramePhase::AwaitAcquire { slot }, FrameEvent::AcquireErrored) => {
                self.phase = FramePhase::Idle;
                FrameAction::FrameFailed { error: RenderError::AcquireFailed }
            },
            (FramePhase::AwaitFence { slot, image_index }, FrameEvent::FenceReady) => {
                self.in_flight[image_index] = false;
                let commands = record_commands(image_index, clear, mouse);
                self.phase = FramePhase::AwaitSubmit { slot, image_index };
                FrameAction::UploadAndSubmit { slot, image_index, commands }
            },
            (FramePhase::AwaitFence { slot, image_index }, FrameEvent::FenceWaitErrored) => {
                self.phase = FramePhase::Idle;
                FrameAction::FrameFailed { error: RenderError::FenceWaitFailed }
            },
            (FramePhase::AwaitFence { slot, image_index }, FrameEvent::FenceResetErrored) => {
                self.phase = FramePhase::Idle;
                FrameAction::FrameFailed { error: RenderError::FenceResetFailed }
            },
            (FramePhase::AwaitSubmit { slot, image_index }, FrameEvent::Submitted) => {
                self.in_flight[image_index] = true;
                let vertex_data = quad_vertex_bytes();
                let vertex_result = self.vertices.load_data(vertex_data.as_slice());
                let index_data = quad_index_bytes();
                let index_result = self.indices.load_data(index_data.as_slice());
                self.phase = FramePhase::AwaitPresent { slot, image_index };
                FrameAction::Present { slot, image_index }
            },
            (FramePhase::AwaitSubmit { slot, image_index }, FrameEvent::UploadErrored) => {
                self.phase = FramePhase::Idle;
                FrameAction::FrameFailed { error: RenderError::MapFailed }
            },
            (FramePhase::AwaitPresent { slot, image_index }, FrameEvent::PresentSucceeded { suboptimal }) => {
                self.phase = FramePhase::Idle;
                FrameAction::FrameComplete
            },
            (FramePhase::AwaitPresent { slot, image_index }, FrameEvent::PresentErrored) => {
                self.phase = FramePhase::Idle;
                FrameAction::FrameFailed { error: RenderError::PresentFailed }
            },
            _ => {
                self.phase = FramePhase::Idle;
                FrameAction::FrameFailed { error: RenderError::UnexpectedEvent }
            },
        }
    }

    /// Releases the render state exactly once: waits for the device to go
    /// idle — after which no submission is outstanding — then destroys
    /// everything in dependency order: fences, semaphores, framebuffers,
    /// image views, buffer resources, the pipeline resource, the command
    /// pool, the render pass, the swapchain. Asking again after release is a
    /// no-op with an empty plan.
    pub fn free(&mut self) -> (steps: Vec<TeardownStep>)
        requires
            old(self).wf(),
        ensures
            final(self).wf(),
            final(self).freed,
            old(self).freed ==> *final(self) == *old(self) && steps@ == Seq::<
                TeardownStep,
            >::empty(),
            !old(self).freed ==> {
                &&& steps@ == spec_teardown_plan(*old(self))
                &&& final(self).phase == FramePhase::Idle
                &&& final(self).current_frame == old(self).current_frame
                &&& final(self).config == old(self).config
                &&& final(self).targets == old(self).targets
                &&& final(self).policy == old(self).policy
                &&& final(self).in_flight@.len() == old(self).in_flight@.len()
                &&& forall|i: int| 0 <= i < final(self).in_flight@.len()
                    ==> !final(self).in_flight@[i]
                &&& final(self).vertices.freed
                &&& final(self).indices.freed
                &&& final(self).pipeline.freed
                &&& final(self).vertices.contents == old(self).vertices.contents
                &&& final(self).indices.contents == old(self).indices.contents
                &&& final(self).pipeline.desc == old(self).pipeline.desc
            },
    {
        let mut steps: Vec<TeardownStep> = Vec::new();
        if self.freed {
            return steps;
        }
        self.freed = true;
        self.phase = FramePhase::Idle;
        steps.push(TeardownStep::WaitIdle);
        push_step_run(&mut steps, StepRunKind::Fence, FRAMES_IN_FLIGHT);
        push_step_run(&mut steps, StepRunKind::RenderFinishedSemaphore, FRAMES_IN_FLIGHT);
        push_step_run(&mut steps, StepRunKind::ImageAvailableSemaphore, FRAMES_IN_FLIGHT);
        push_step_run(&mut steps, StepRunKind::Framebuffer, self.targets.framebuffer_count);
        push_step_run(&mut steps, StepRunKind::ImageView, self.targets.view_count);
        let mut i: usize = 0;
        while i < self.in_flight.len()
            invariant
                i <= self.in_flight@.len(),
                forall|j: int| 0 <= j < i ==> !self.in_flight@[j],
                self.in_flight@.len() == old(self).in_flight@.len(),
                self.freed,
                self.phase == FramePhase::Idle,
                self.current_frame == old(self).current_frame,
                self.config == old(self).config,
                self.targets == old(self).targets,
                self.policy == old(self).policy,
                self.vertices == old(self).vertices,
                self.indices == old(self).indices,
                self.pipeline == old(self).pipeline,
            decreases self.in_flight@.len() - i,
        {
            self.in_flight[i] = false;
            i = i + 1;
        }
        let mut vertex_steps = self.vertices.free(BufferId::Vertex);
        steps.append(&mut vertex_steps);
        let mut index_steps = self.indices.free(BufferId::Index);
        steps.append(&mut index_steps);
        let mut pipeline_steps = self.pipeline.free();
        steps.append(&mut pipeline_steps);
        steps.push(TeardownStep::DestroyCommandPool);
        steps.push(TeardownStep::DestroyRenderPass);
        steps.push(TeardownStep::DestroySwapchain);
        proof {
            assert(steps@ =~= spec_teardown_plan(*old(self)));
        }
        steps
    }
}

/// The release plan of a whole render state, in strict dependency order.
pub open spec fn spec_teardown_plan(s: GfxState) -> Seq<TeardownStep> {
    seq![TeardownStep::WaitIdle] + spec_step_run(StepRunKind::Fence, FRAMES_IN_FLIGHT as nat)
        + spec_step_run(StepRunKind::RenderFinishedSemaphore, FRAMES_IN_FLIGHT as nat)
        + spec_step_run(StepRunKind::ImageAvailableSemaphore, FRAMES_IN_FLIGHT as nat)
        + spec_step_run(StepRunKind::Framebuffer, s.targets.framebuffer_count as nat)
        + spec_step_run(StepRunKind::ImageView, s.targets.view_count as nat) + seq![
        (TeardownStep::DestroyBuffer { id: BufferId::Vertex }),
        (TeardownStep::FreeMemory { id: BufferId::Vertex }),
        (TeardownStep::DestroyBuffer { id: BufferId::Index }),
        (TeardownStep::FreeMemory { id: BufferId::Index }),
    ] + spec_pipeline_teardown(s.pipeline.desc.descriptor_layouts@.len()) + seq![
        TeardownStep::DestroyCommandPool,
        TeardownStep::DestroyRenderPass,
        TeardownStep::DestroySwapchain,
    ]
}

/// The next frame slot after one `Begin`.
pub open spec fn spec_next_slot(slot: int) -> int {
    (slot + 1) % (FRAMES_IN_FLIGHT as int)
}

/// The frame slot cycles with period exactly `FRAMES_IN_FLIGHT`: from any
/// valid slot, one and two advances land elsewhere, and three advances come
/// back — whatever became of the frames in between, since only `Begin` moves
/// the rotation.
pub proof fn lemma_slot_cycle_period(slot: int)
    requires
        0 <= slot < FRAMES_IN_FLIGHT,
    ensures
        0 <= spec_next_slot(slot) < FRAMES_IN_FLIGHT,
        spec_next_slot(slot) != slot,
        spec_next_slot(spec_next_slot(slot)) != slot,
        spec_next_slot(spec_next_slot(spec_next_slot(slot))) == slot,
{
}

/// Every true flag is below `len`, so the count of true flags is at most the
/// count of flags.
pub proof fn lemma_count_true_le_len(s: Seq<bool>)
    ensures
        count_true(s) <= s.len(),
    decreases s.len(),
{
    if s.len() > 0 {
        lemma_count_true_le_len(s.drop_last());
    }
}

/// When every true flag lies below `k`, at most `k` flags are true.
pub proof fn lemma_count_true_confined(s: Seq<bool>, k: int)
    requires
        0 <= k <= s.len(),
        forall|i: int| k <= i < s.len() ==> !s[i],
    ensures
        count_true(s) <= k,
    decreases s.len(),
{
    if s.len() == k {
        lemma_count_true_le_len(s);
    } else {
        assert(!s.last());
        lemma_count_true_confined(s.drop_last(), k);
    }
}

/// At any instant, the number of command buffers with outstanding
/// (unsignaled) in-flight fences never exceeds the swapchain image count.
pub proof fn lemma_outstanding_bounded(s: GfxState)
    requires
        s.wf(),
    ensures
        count_true(s.in_flight@) <= s.targets.image_count,
{
    if s.targets.image_count < FRAMES_IN_FLIGHT {
        lemma_count_true_confined(s.in_flight@, s.targets.image_count as int);
    } else {
        lemma_count_true_le_len(s.in_flight@);
    }
}

/// The frame slot a step hands out is always a valid slot, and the rotation
/// advances by exactly one slot on `Begin` and stands still on every other
/// event — acquire, fence, upload, submit and present outcomes included,
/// successes as much as failures.
pub proof fn lemma_frame_slot_rotation(
    pre: GfxState,
    post: GfxState,
    event: FrameEvent,
    clear: ClearColorBits,
    mouse: Vec2Bits,
    action: FrameAction,
)
    requires
        pre.wf(),
        !pre.freed,
        spec_frame_transition(pre, post, event, clear, mouse, action),
    ensures
        action matches FrameAction::Acquire { slot } ==> slot == pre.current_frame && slot
            < FRAMES_IN_FLIGHT && post.current_frame == spec_next_slot(pre.current_frame as int),
        !(event matches FrameEvent::Begin) ==> post.current_frame == pre.current_frame,
{
}

} // verus!
