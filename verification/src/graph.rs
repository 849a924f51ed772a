//! The frame scheduler: owns the handle table, the per-frame-slot state
//! machine, and the per-frame sequence of decisions — acquisition handling,
//! per-pass barrier synthesis, attachment derivation, submission and
//! presentation planning, and surface-recreation bookkeeping.
//!
//! The device and the presentation surface are collaborators: the
//! surrounding program performs their calls (fence waits, image acquisition,
//! command recording, submission, presentation) and feeds each outcome back
//! in. Every decision taken between those calls is made here.

use vstd::prelude::*;

use crate::FRAMES_IN_FLIGHT;
use crate::pass::{AttachmentInfo, RenderPass, RenderPassResource, ResolveMode};
use crate::resource::{
    ImageLayout, ImageRef, PhysicalResource, PipelineStage, ResourceHandle, ResourceType,
    ResourceUsage, QUEUE_FAMILY_IGNORED,
};
use crate::sync::{
    expand_pass_uses, spec_apply_uses, spec_barrier_count, spec_barriers, spec_pass_uses,
    synthesize_barriers, Barrier, ResolvedUse, SyncError,
};

verus! {

/// Lifecycle of one CPU frame slot. `Submitted` returns to `Idle` only
/// indirectly, when the next cycle reuses the slot after its fence wait.
#[derive(Clone, Copy, Debug, PartialEq, Eq, Structural)]
pub enum FrameSlotState {
    Idle,
    Recording,
    Submitted,
}

/// What the presentation engine reported for an acquisition.
#[derive(Clone, Copy, Debug, PartialEq, Eq, Structural)]
pub enum AcquireOutcome {
    /// An image was acquired, with its index in the surface's image list
    /// and the scheduler-visible description of the image.
    Acquired { image_index: usize, image: ImageRef },
    /// The surface is stale; the frame is degenerate and the surface must
    /// be recreated.
    Stale,
}

/// What the presentation engine reported for a present.
#[derive(Clone, Copy, Debug, PartialEq, Eq, Structural)]
pub enum PresentOutcome {
    Presented,
    /// The surface is stale; it must be recreated. The frame is still fully
    /// consumed, not retryable.
    Stale,
}

/// How one frame begins.
#[derive(Clone, Copy, Debug, PartialEq, Eq, Structural)]
pub enum FrameBegin {
    /// Staleness was reported: a degenerate, no-work frame. The slot index
    /// still advances; the surface must be recreated.
    Skipped,
    /// The frame records: the slot to record on and the acquired image's
    /// index, which keys the signal semaphore.
    Started { slot: usize, image_index: usize },
}

/// The submission the scheduler asks the surrounding program to make.
#[derive(Clone, Copy, Debug, PartialEq, Eq, Structural)]
pub struct SubmitPlan {
    /// Wait on this slot's acquire semaphore...
    pub acquire_wait_slot: usize,
    /// ...at this stage.
    pub acquire_wait_stage: PipelineStage,
    /// Whether a pending asynchronous transfer for this slot must also be
    /// waited on, at the all-commands stage.
    pub wait_transfer: bool,
    /// Signal the semaphore keyed by the acquired image's index — not by
    /// the CPU slot, since the surface may hold more images than there are
    /// slots.
    pub signal_semaphore_index: usize,
    /// Re-arm this slot's submission fence.
    pub fence_slot: usize,
}

/// The transfer submission the scheduler asks the surrounding program to
/// make on the transfer queue.
#[derive(Clone, Copy, Debug, PartialEq, Eq, Structural)]
pub struct TransferPlan {
    /// Wait for and reset this slot's previous transfer fence first.
    pub wait_fence_slot: usize,
    /// Signal this slot's transfer semaphore...
    pub signal_semaphore_slot: usize,
    /// ...and this slot's transfer fence.
    pub signal_fence_slot: usize,
}

/// A rendering scope derived from a pass's declared outputs: the color
/// attachments in declaration order, the depth attachment if any, and the
/// render-area extent taken from the first qualifying output.
pub struct RenderScope {
    pub color_attachments: Vec<AttachmentInfo>,
    pub depth_attachment: Option<AttachmentInfo>,
    pub width: u32,
    pub height: u32,
}

/// The per-frame GPU work scheduler: declared passes, the handle table with
/// recorded synchronization state, and the per-slot lifecycle.
pub struct BnanRenderGraph {
    /// Declared passes, executed in declaration order each frame.
    pub passes: Vec<RenderPass>,
    /// The handle table: an arena of physical resources, indexed by the
    /// handle's integer identity.
    pub resources: Vec<PhysicalResource>,
    /// The current CPU frame slot.
    pub current_frame: usize,
    /// Lifecycle state of each slot.
    pub slot_states: Vec<FrameSlotState>,
    /// Whether an asynchronous transfer submitted against each slot is
    /// pending, to be consumed by that slot's next graphics submission.
    pub pending_transfers: Vec<bool>,
    /// Size of the semaphore pool keyed by acquired image index; matches
    /// the surface's image count.
    pub render_finished_semaphores: usize,
    /// The presentation image's handle, bound anew at each acquisition.
    pub swapchain_resource_handle: ResourceHandle,
}

impl BnanRenderGraph {
    /// Structural well-formedness: slot bookkeeping matches the frames in
    /// flight, and every arena entry carries the handle of its own index.
    pub open spec fn wf(self) -> bool {
        &&& self.current_frame < FRAMES_IN_FLIGHT
        &&& self.slot_states@.len() == FRAMES_IN_FLIGHT
        &&& self.pending_transfers@.len() == FRAMES_IN_FLIGHT
        &&& self.resources@.len() >= 1
        &&& forall|j: int|
            0 <= j < self.resources@.len() ==> (#[trigger] self.resources@[j]).wf()
                && self.resources@[j].handle.0 == j
        &&& self.swapchain_resource_handle.0 == 0
    }

    /// Create a scheduler over a surface that currently holds
    /// `swapchain_image_count` images. The handle table starts with the
    /// presentation image's entry, state undefined; slots start idle.
    pub fn new(swapchain_image_count: usize) -> (r: Self)
        ensures
            r.wf(),
            r.passes@.len() == 0,
            r.resources@.len() == 1,
            r.resources@[0].state_undefined(),
            r.resources@[0].name@ == "Backbuffer"@,
            r.current_frame == 0,
            forall|j: int|
                0 <= j < FRAMES_IN_FLIGHT ==> r.slot_states@[j] == FrameSlotState::Idle
                    && r.pending_transfers@[j] == false,
            r.render_finished_semaphores == swapchain_image_count,
            r.swapchain_resource_handle == ResourceHandle(0),
    {
        let placeholder = ImageRef { image: 0, view: 0, mip_levels: 1, width: 0, height: 0 };
        let backbuffer = PhysicalResource::new_swapchain_image(
            ResourceHandle(0),
            "Backbuffer".to_string(),
            placeholder,
        );
        let mut resources: Vec<PhysicalResource> = Vec::new();
        resources.push(backbuffer);
        let mut slot_states: Vec<FrameSlotState> = Vec::new();
        let mut pending_transfers: Vec<bool> = Vec::new();
        let mut i: usize = 0;
        while i < FRAMES_IN_FLIGHT
            invariant
                i <= FRAMES_IN_FLIGHT,
                slot_states@.len() == i,
                pending_transfers@.len() == i,
                forall|j: int|
                    0 <= j < i ==> slot_states@[j] == FrameSlotState::Idle
                        && pending_transfers@[j] == false,
            decreases FRAMES_IN_FLIGHT - i,
        {
            slot_states.push(FrameSlotState::Idle);
            pending_transfers.push(false);
            i = i + 1;
        }
        Self {
            passes: Vec::new(),
            resources,
            current_frame: 0,
            slot_states,
            pending_transfers,
            render_finished_semaphores: swapchain_image_count,
            swapchain_resource_handle: ResourceHandle(0),
        }
    }

    /// The handle of the presentation image.
    pub fn get_backbuffer_handle(&self) -> (r: ResourceHandle)
        ensures
            r == self.swapchain_resource_handle,
    {
        self.swapchain_resource_handle
    }

    /// The backing image a handle resolves to for one frame slot: the
    /// per-slot copy of a multi-buffered image, or the presentation image
    /// itself. Empty — not an error — for an unknown handle or a buffer.
    pub open spec fn spec_get_image(self, handle: ResourceHandle, frame: usize) -> Option<
        ImageRef,
    > {
        if handle.0 < self.resources@.len() {
            match self.resources@[handle.0 as int].resource {
                ResourceType::SwapchainImage(img) => Some(img),
                ResourceType::Image(images) => if frame < images@.len() {
                    Some(images@[frame as int])
                } else {
                    None
                },
                ResourceType::Buffer(_) => None,
            }
        } else {
            None
        }
    }

    /// Resolve a handle to its backing image for the given frame slot.
    pub fn get_image(&self, handle: &ResourceHandle, frame: usize) -> (r: Option<ImageRef>)
        ensures
            r == self.spec_get_image(*handle, frame),
    {
        if handle.0 < self.resources.len() {
            match &self.resources[handle.0].resource {
                ResourceType::SwapchainImage(img) => Some(*img),
                ResourceType::Image(images) => {
                    if frame < images.len() {
                        Some(images[frame])
                    } else {
                        None
                    }
                },
                ResourceType::Buffer(_) => None,
            }
        } else {
            None
        }
    }

    /// Resolve a handle to all its per-frame backing images, for setting up
    /// descriptors for every frame in flight before the render loop. Empty
    /// for an unknown handle or one not backed by per-frame images.
    pub fn get_images(&self, handle: &ResourceHandle) -> (r: Option<Vec<ImageRef>>)
        ensures
            match r {
                Some(images) => {
                    &&& handle.0 < self.resources@.len()
                    &&& (self.resources@[handle.0 as int].resource matches ResourceType::Image(v)
                        && v@ == images@)
                },
                None => handle.0 >= self.resources@.len() || !(self.resources@[handle.0 as int].resource
                    is Image),
            },
    {
        if handle.0 < self.resources.len() {
            match &self.resources[handle.0].resource {
                ResourceType::Image(images) => {
                    let mut copy: Vec<ImageRef> = Vec::new();
                    let mut i: usize = 0;
                    while i < images.len()
                        invariant
                            i <= images@.len(),
                            copy@ == images@.take(i as int),
                        decreases images@.len() - i,
                    {
                        copy.push(images[i]);
                        proof {
                            assert(copy@ =~= images@.take(i + 1));
                        }
                        i = i + 1;
                    }
                    proof {
                        assert(copy@ =~= images@);
                    }
                    Some(copy)
                },
                _ => None,
            }
        } else {
            None
        }
    }

    /// Resolve a handle to the previous frame's backing image, slot
    /// `(current + FRAMES_IN_FLIGHT - 1) % FRAMES_IN_FLIGHT` — for temporal
    /// consumers reading last frame's copy.
    pub fn get_previous_frame_image(&self, handle: &ResourceHandle, current_frame: usize) -> (r:
        Option<ImageRef>)
        requires
            current_frame < FRAMES_IN_FLIGHT,
        ensures
            r == self.spec_get_image(
                *handle,
                crate::sync::spec_previous_slot(current_frame, FRAMES_IN_FLIGHT),
            ),
    {
        let prev = crate::sync::previous_slot(current_frame);
        self.get_image(handle, prev)
    }

    /// Import one multi-buffered image under a fresh handle; tracked state
    /// starts undefined. The handle is never reissued and survives surface
    /// recreation.
    pub fn import_render_image(&mut self, name: String, images: Vec<ImageRef>) -> (r:
        ResourceHandle)
        requires
            old(self).wf(),
            images@.len() == FRAMES_IN_FLIGHT,
            old(self).resources@.len() < usize::MAX,
        ensures
            final(self).wf(),
            r.0 == old(self).resources@.len(),
            final(self).resources@.len() == old(self).resources@.len() + 1,
            final(self).resources@[r.0 as int].handle == r,
            final(self).resources@[r.0 as int].name == name,
            final(self).resources@[r.0 as int].resource == ResourceType::Image(images),
            final(self).resources@[r.0 as int].state_undefined(),
            forall|j: int|
                0 <= j < old(self).resources@.len() ==> final(self).resources@[j] == old(
                    self,
                ).resources@[j],
            final(self).passes == old(self).passes,
            final(self).current_frame == old(self).current_frame,
            final(self).slot_states == old(self).slot_states,
            final(self).pending_transfers == old(self).pending_transfers,
            final(self).render_finished_semaphores == old(self).render_finished_semaphores,
            final(self).swapchain_resource_handle == old(self).swapchain_resource_handle,
    {
        let handle = ResourceHandle(self.resources.len());
        let physical = PhysicalResource::new_image(handle, name, images);
        self.resources.push(physical);
        handle
    }

    /// Swap in new backing images for an existing handle — after surface
    /// recreation — keeping the handle's identity and name; tracked layout
    /// and stage reset to undefined. A new handle is never issued here.
    /// Unknown handles are ignored.
    pub fn update_render_image(&mut self, handle: &ResourceHandle, images: Vec<ImageRef>) -> (updated:
        bool)
        requires
            old(self).wf(),
            images@.len() == FRAMES_IN_FLIGHT,
        ensures
            final(self).wf(),
            updated == (handle.0 < old(self).resources@.len()),
            final(self).resources@.len() == old(self).resources@.len(),
            forall|j: int|
                0 <= j < old(self).resources@.len() && j != handle.0 ==> final(self).resources@[j]
                    == old(self).resources@[j],
            handle.0 < old(self).resources@.len() ==> {
                let p = final(self).resources@[handle.0 as int];
                &&& p.handle == old(self).resources@[handle.0 as int].handle
                &&& p.name == old(self).resources@[handle.0 as int].name
                &&& p.current_queue_family == old(
                    self,
                ).resources@[handle.0 as int].current_queue_family
                &&& p.resource == ResourceType::Image(images)
                &&& p.current_layout == ImageLayout::Undefined
                &&& p.current_stage == PipelineStage::NoStage
            },
            final(self).passes == old(self).passes,
            final(self).current_frame == old(self).current_frame,
            final(self).slot_states == old(self).slot_states,
            final(self).pending_transfers == old(self).pending_transfers,
            final(self).render_finished_semaphores == old(self).render_finished_semaphores,
            final(self).swapchain_resource_handle == old(self).swapchain_resource_handle,
    {
        if handle.0 < self.resources.len() {
            let physical = &mut self.resources[handle.0];
            physical.resource = ResourceType::Image(images);
            physical.current_layout = ImageLayout::Undefined;
            physical.current_stage = PipelineStage::NoStage;
            true
        } else {
            false
        }
    }

    /// Append a declared pass; passes run in declaration order.
    pub fn add_pass(&mut self, pass: RenderPass)
        ensures
            final(self).passes@ == old(self).passes@.push(pass),
            final(self).resources == old(self).resources,
            final(self).current_frame == old(self).current_frame,
            final(self).slot_states == old(self).slot_states,
            final(self).pending_transfers == old(self).pending_transfers,
            final(self).render_finished_semaphores == old(self).render_finished_semaphores,
            final(self).swapchain_resource_handle == old(self).swapchain_resource_handle,
    {
        self.passes.push(pass);
    }

    /// Whether an asynchronous transfer is pending against a slot, to be
    /// consumed by that slot's next graphics submission.
    pub fn has_pending_transfers(&self, frame: usize) -> (r: bool)
        requires
            frame < FRAMES_IN_FLIGHT,
            self.wf(),
        ensures
            r == self.pending_transfers@[frame as int],
    {
        self.pending_transfers[frame]
    }

    /// The current CPU frame slot.
    pub fn get_current_frame(&self) -> (r: usize)
        ensures
            r == self.current_frame,
    {
        self.current_frame
    }

    /// Derive the rendering scope for one declared pass: one attachment
    /// descriptor per output whose usage is a color or depth attachment,
    /// bound to the image view of the slot in use, with its resolve binding
    /// if the output resolves. Passes with no qualifying output open no
    /// rendering scope.
    pub fn build_pass_attachments(&self, pass_index: usize) -> (r: Option<RenderScope>)
        requires
            self.wf(),
            pass_index < self.passes@.len(),
        ensures
            ({
                let scope = spec_build_scope(
                    self.resources@,
                    self.passes@[pass_index as int].outputs@,
                    self.current_frame,
                );
                &&& r is Some <==> (scope.0.len() > 0 || scope.1 is Some)
                &&& (r matches Some(s) ==> {
                    &&& s.color_attachments@ == scope.0
                    &&& s.depth_attachment == scope.1
                    &&& Some((s.width, s.height)) == scope.2
                })
            }),
    {
        let outputs = &self.passes[pass_index].outputs;
        let mut color_attachments: Vec<AttachmentInfo> = Vec::new();
        let mut depth_attachment: Option<AttachmentInfo> = None;
        let mut extent: Option<(u32, u32)> = None;
        let mut j: usize = 0;
        proof {
            assert(color_attachments@ =~= spec_build_scope(
                self.resources@,
                outputs@.take(0),
                self.current_frame,
            ).0);
        }
        while j < outputs.len()
            invariant
                self.wf(),
                pass_index < self.passes@.len(),
                outputs == &self.passes@[pass_index as int].outputs,
                j <= outputs@.len(),
                ({
                    let scope = spec_build_scope(
                        self.resources@,
                        outputs@.take(j as int),
                        self.current_frame,
                    );
                    &&& color_attachments@ == scope.0
                    &&& depth_attachment == scope.1
                    &&& extent == scope.2
                }),
            decreases outputs@.len() - j,
        {
            let out = outputs[j];
            let slot = if out.is_temporal {
                crate::sync::previous_slot(self.current_frame)
            } else {
                self.current_frame
            };
            let qualifying = match out.usage {
                ResourceUsage::ColorAttachment => true,
                ResourceUsage::DepthStencilAttachment => true,
                _ => false,
            };
            if qualifying {
                match self.get_image(&out.handle, slot) {
                    Some(img) => {
                        let resolve_view = match out.resolve_target {
                            Some(target) => match self.get_image(&target, self.current_frame) {
                                Some(rimg) => Some(rimg.view),
                                None => None,
                            },
                            None => None,
                        };
                        if extent.is_none() {
                            extent = Some((img.width, img.height));
                        }
                        match out.usage {
                            ResourceUsage::ColorAttachment => {
                                let a = out.create_color_attachment_info(img.view, resolve_view);
                                color_attachments.push(a);
                            },
                            _ => {
                                let a = out.create_depth_attachment_info(img.view, resolve_view);
                                depth_attachment = Some(a);
                            },
                        }
                    },
                    None => {},
                }
            }
            proof {
                assert(outputs@.take(j + 1).drop_last() =~= outputs@.take(j as int));
                assert(outputs@.take(j + 1).last() == outputs@[j as int]);
                assert(color_attachments@ =~= spec_build_scope(
                    self.resources@,
                    outputs@.take(j + 1),
                    self.current_frame,
                ).0);
            }
            j = j + 1;
        }
        proof {
            assert(outputs@.take(outputs@.len() as int) =~= outputs@);
            lemma_scope_with_attachment_has_extent(self.resources@, outputs@, self.current_frame);
        }
        if color_attachments.len() > 0 || depth_attachment.is_some() {
            let e = match extent {
                Some(e) => e,
                None => (0, 0),
            };
            assert(extent is Some);
            Some(
                RenderScope {
                    color_attachments,
                    depth_attachment,
                    width: e.0,
                    height: e.1,
                },
            )
        } else {
            None
        }
    }

    /// The resolved use the mandatory end-of-frame transition makes: the
    /// presentation image, required in the present layout.
    pub open spec fn spec_present_use(self) -> ResolvedUse {
        ResolvedUse {
            handle: self.swapchain_resource_handle,
            stage: ResourceUsage::Present.spec_stage_and_access().0,
            layout: ResourceUsage::Present.spec_layout(),
            slot: self.current_frame,
        }
    }

    /// Begin the frame on the current slot, after the slot's fence has been
    /// waited on and reset. A stale acquisition makes this a degenerate,
    /// no-work frame: the slot index still advances and the surface must be
    /// recreated. A successful acquisition binds the acquired image as the
    /// presentation-owned physical resource, tracked state reset to
    /// undefined, and moves the slot to `Recording`.
    pub fn begin_frame(&mut self, outcome: AcquireOutcome) -> (r: FrameBegin)
        requires
            old(self).wf(),
            old(self).slot_states@[old(self).current_frame as int] != FrameSlotState::Recording,
        ensures
            final(self).wf(),
            final(self).passes == old(self).passes,
            final(self).pending_transfers == old(self).pending_transfers,
            final(self).render_finished_semaphores == old(self).render_finished_semaphores,
            final(self).swapchain_resource_handle == old(self).swapchain_resource_handle,
            outcome == AcquireOutcome::Stale ==> {
                &&& r == FrameBegin::Skipped
                &&& final(self).current_frame == spec_next_slot(
                    old(self).current_frame,
                    FRAMES_IN_FLIGHT,
                )
                &&& final(self).resources == old(self).resources
                &&& final(self).slot_states == old(self).slot_states
            },
            outcome matches AcquireOutcome::Acquired { image_index, image } ==> {
                &&& r == (FrameBegin::Started { slot: old(self).current_frame, image_index })
                &&& final(self).current_frame == old(self).current_frame
                &&& final(self).slot_states@ == old(self).slot_states@.update(
                    old(self).current_frame as int,
                    FrameSlotState::Recording,
                )
                &&& final(self).resources@.len() == old(self).resources@.len()
                &&& forall|j: int|
                    0 < j < old(self).resources@.len() ==> final(self).resources@[j] == old(
                        self,
                    ).resources@[j]
                &&& final(self).resources@[0].handle == old(self).resources@[0].handle
                &&& final(self).resources@[0].name == old(self).resources@[0].name
                &&& final(self).resources@[0].resource == ResourceType::SwapchainImage(image)
                &&& final(self).resources@[0].state_undefined()
            },
    {
        match outcome {
            AcquireOutcome::Stale => {
                self.current_frame = next_slot(self.current_frame);
                FrameBegin::Skipped
            },
            AcquireOutcome::Acquired { image_index, image } => {
                let slot = self.current_frame;
                let entry = &mut self.resources[0];
                entry.resource = ResourceType::SwapchainImage(image);
                entry.current_layout = ImageLayout::Undefined;
                entry.current_stage = PipelineStage::NoStage;
                entry.current_queue_family = QUEUE_FAMILY_IGNORED;
                self.slot_states.set(slot, FrameSlotState::Recording);
                FrameBegin::Started { slot, image_index }
            },
        }
    }

    /// Synthesize the batched synchronization command for one declared
    /// pass, recorded before the pass body runs: exactly one barrier per
    /// declared use (inputs, then outputs with their resolve targets) whose
    /// required stage or layout differs from the recorded state, which is
    /// then updated to the required one.
    pub fn record_pass(&mut self, pass_index: usize) -> (r: Result<Vec<Barrier>, SyncError>)
        requires
            old(self).wf(),
            pass_index < old(self).passes@.len(),
            old(self).slot_states@[old(self).current_frame as int] == FrameSlotState::Recording,
        ensures
            final(self).wf(),
            ({
                let uses = spec_pass_uses(
                    old(self).passes@[pass_index as int].inputs@,
                    old(self).passes@[pass_index as int].outputs@,
                    old(self).current_frame,
                );
                &&& r is Ok <==> crate::sync::spec_all_supported(old(self).resources@, uses)
                &&& (r matches Ok(b) ==> {
                    &&& b@ == spec_barriers(old(self).resources@, uses)
                    &&& b@.len() == spec_barrier_count(old(self).resources@, uses)
                    &&& final(self).resources@ == spec_apply_uses(old(self).resources@, uses)
                })
                &&& (r is Err ==> final(self).resources@ == old(self).resources@)
            }),
            final(self).passes == old(self).passes,
            final(self).current_frame == old(self).current_frame,
            final(self).slot_states == old(self).slot_states,
            final(self).pending_transfers == old(self).pending_transfers,
            final(self).render_finished_semaphores == old(self).render_finished_semaphores,
            final(self).swapchain_resource_handle == old(self).swapchain_resource_handle,
    {
        let ghost res0 = self.resources@;
        let pass = &self.passes[pass_index];
        let uses = expand_pass_uses(&pass.inputs, &pass.outputs, self.current_frame);
        let r = synthesize_barriers(&mut self.resources, &uses);
        proof {
            crate::sync::lemma_apply_uses_preserves_static(res0, uses@);
        }
        r
    }

    /// Synthesize the mandatory end-of-frame transition of the presentation
    /// image to the present layout, after the last pass. The recorded state
    /// is updated, so the next use of the image finds it in the present
    /// layout.
    pub fn present_barrier(&mut self) -> (r: Result<Vec<Barrier>, SyncError>)
        requires
            old(self).wf(),
            old(self).slot_states@[old(self).current_frame as int] == FrameSlotState::Recording,
        ensures
            final(self).wf(),
            ({
                let uses = seq![old(self).spec_present_use()];
                &&& r is Ok <==> crate::sync::spec_all_supported(old(self).resources@, uses)
                &&& (r matches Ok(b) ==> {
                    &&& b@ == spec_barriers(old(self).resources@, uses)
                    &&& b@.len() == spec_barrier_count(old(self).resources@, uses)
                    &&& final(self).resources@ == spec_apply_uses(old(self).resources@, uses)
                })
                &&& (r is Err ==> final(self).resources@ == old(self).resources@)
            }),
            final(self).passes == old(self).passes,
            final(self).current_frame == old(self).current_frame,
            final(self).slot_states == old(self).slot_states,
            final(self).pending_transfers == old(self).pending_transfers,
            final(self).render_finished_semaphores == old(self).render_finished_semaphores,
            final(self).swapchain_resource_handle == old(self).swapchain_resource_handle,
    {
        let ghost res0 = self.resources@;
        let (stage, _access) = ResourceUsage::Present.get_stage_and_access();
        let layout = ResourceUsage::Present.get_layout();
        let mut uses: Vec<ResolvedUse> = Vec::new();
        uses.push(
            ResolvedUse {
                handle: self.swapchain_resource_handle,
                stage,
                layout,
                slot: self.current_frame,
            },
        );
        proof {
            assert(uses@ =~= seq![old(self).spec_present_use()]);
        }
        let r = synthesize_barriers(&mut self.resources, &uses);
        proof {
            crate::sync::lemma_apply_uses_preserves_static(res0, uses@);
        }
        r
    }

    /// Plan the frame's graphics submission: wait on this slot's acquire
    /// semaphore at the color-output stage, plus this slot's pending
    /// transfer if one is armed (which this consumes); signal the semaphore
    /// keyed by the acquired image's index — never by the CPU slot — and
    /// re-arm this slot's fence. The slot moves to `Submitted`.
    pub fn plan_submit(&mut self, image_index: usize) -> (r: SubmitPlan)
        requires
            old(self).wf(),
            old(self).slot_states@[old(self).current_frame as int] == FrameSlotState::Recording,
            image_index < old(self).render_finished_semaphores,
        ensures
            final(self).wf(),
            r == (SubmitPlan {
                acquire_wait_slot: old(self).current_frame,
                acquire_wait_stage: PipelineStage::ColorAttachmentOutput,
                wait_transfer: old(self).pending_transfers@[old(self).current_frame as int],
                signal_semaphore_index: image_index,
                fence_slot: old(self).current_frame,
            }),
            final(self).pending_transfers@ == old(self).pending_transfers@.update(
                old(self).current_frame as int,
                false,
            ),
            final(self).slot_states@ == old(self).slot_states@.update(
                old(self).current_frame as int,
                FrameSlotState::Submitted,
            ),
            final(self).passes == old(self).passes,
            final(self).resources == old(self).resources,
            final(self).current_frame == old(self).current_frame,
            final(self).render_finished_semaphores == old(self).render_finished_semaphores,
            final(self).swapchain_resource_handle == old(self).swapchain_resource_handle,
    {
        let slot = self.current_frame;
        let wait_transfer = self.pending_transfers[slot];
        self.pending_transfers.set(slot, false);
        self.slot_states.set(slot, FrameSlotState::Submitted);
        SubmitPlan {
            acquire_wait_slot: slot,
            acquire_wait_stage: PipelineStage::ColorAttachmentOutput,
            wait_transfer,
            signal_semaphore_index: image_index,
            fence_slot: slot,
        }
    }

    /// End the frame after presentation: the slot index advances by one,
    /// modulo the frames in flight. Returns whether presentation reported
    /// staleness, in which case the surface must be recreated; the frame is
    /// still fully consumed.
    pub fn end_frame(&mut self, present: PresentOutcome) -> (recreate: bool)
        requires
            old(self).wf(),
            old(self).slot_states@[old(self).current_frame as int] == FrameSlotState::Submitted,
        ensures
            final(self).wf(),
            recreate == (present == PresentOutcome::Stale),
            final(self).current_frame == spec_next_slot(old(self).current_frame, FRAMES_IN_FLIGHT),
            final(self).passes == old(self).passes,
            final(self).resources == old(self).resources,
            final(self).slot_states == old(self).slot_states,
            final(self).pending_transfers == old(self).pending_transfers,
            final(self).render_finished_semaphores == old(self).render_finished_semaphores,
            final(self).swapchain_resource_handle == old(self).swapchain_resource_handle,
    {
        self.current_frame = next_slot(self.current_frame);
        match present {
            PresentOutcome::Stale => true,
            PresentOutcome::Presented => false,
        }
    }

    /// Note a rebuilt surface: every previously imported handle keeps its
    /// identity — nothing in the handle table changes here; backing images
    /// are swapped in per handle via `update_render_image`. If the new
    /// image count differs from the image-indexed semaphore pool's size,
    /// that pool must be destroyed (after a device-idle wait) and rebuilt;
    /// returns whether that is needed.
    pub fn recreate_swapchain(&mut self, new_image_count: usize) -> (pool_rebuilt: bool)
        requires
            old(self).wf(),
        ensures
            final(self).wf(),
            pool_rebuilt == (new_image_count != old(self).render_finished_semaphores),
            final(self).render_finished_semaphores == new_image_count,
            final(self).passes == old(self).passes,
            final(self).resources == old(self).resources,
            final(self).current_frame == old(self).current_frame,
            final(self).slot_states == old(self).slot_states,
            final(self).pending_transfers == old(self).pending_transfers,
            final(self).swapchain_resource_handle == old(self).swapchain_resource_handle,
    {
        if new_image_count != self.render_finished_semaphores {
            self.render_finished_semaphores = new_image_count;
            true
        } else {
            false
        }
    }

    /// Plan asynchronous transfer work against a slot: the submission first
    /// waits on that slot's previous transfer fence, then signals the
    /// slot's transfer semaphore and fence; the pending flag arms the wait
    /// consumed by the slot's next graphics submission — so visibility is
    /// guaranteed at least one full cycle later, never sooner.
    pub fn submit_transfer_work(&mut self, frame: usize) -> (r: TransferPlan)
        requires
            old(self).wf(),
            frame < FRAMES_IN_FLIGHT,
        ensures
            final(self).wf(),
            r == (TransferPlan {
                wait_fence_slot: frame,
                signal_semaphore_slot: frame,
                signal_fence_slot: frame,
            }),
            final(self).pending_transfers@ == old(self).pending_transfers@.update(
                frame as int,
                true,
            ),
            final(self).passes == old(self).passes,
            final(self).resources == old(self).resources,
            final(self).current_frame == old(self).current_frame,
            final(self).slot_states == old(self).slot_states,
            final(self).render_finished_semaphores == old(self).render_finished_semaphores,
            final(self).swapchain_resource_handle == old(self).swapchain_resource_handle,
    {
        self.pending_transfers.set(frame, true);
        TransferPlan {
            wait_fence_slot: frame,
            signal_semaphore_slot: frame,
            signal_fence_slot: frame,
        }
    }
}

/// The backing image a handle resolves to in an arena, for one slot.
pub open spec fn spec_image_at(
    res: Seq<PhysicalResource>,
    handle: ResourceHandle,
    slot: usize,
) -> Option<ImageRef> {
    if handle.0 < res.len() {
        match res[handle.0 as int].resource {
            ResourceType::SwapchainImage(img) => Some(img),
            ResourceType::Image(images) => if slot < images@.len() {
                Some(images@[slot as int])
            } else {
                None
            },
            ResourceType::Buffer(_) => None,
        }
    } else {
        None
    }
}

/// The attachment descriptor one declared output derives, with the extent
/// of its primary image — or nothing, if the output's usage opens no
/// attachment or its image cannot be resolved.
pub open spec fn spec_attachment_of(
    res: Seq<PhysicalResource>,
    out: RenderPassResource,
    current: usize,
) -> Option<(AttachmentInfo, (u32, u32))> {
    let slot = if out.is_temporal {
        crate::sync::spec_previous_slot(current, FRAMES_IN_FLIGHT)
    } else {
        current
    };
    if out.usage == ResourceUsage::ColorAttachment || out.usage
        == ResourceUsage::DepthStencilAttachment {
        match spec_image_at(res, out.handle, slot) {
            Some(img) => {
                let resolve_view = match out.resolve_target {
                    Some(target) => match spec_image_at(res, target, current) {
                        Some(rimg) => Some(rimg.view),
                        None => None,
                    },
                    None => None,
                };
                if out.usage == ResourceUsage::ColorAttachment {
                    Some(
                        (
                            out.spec_color_attachment_info(img.view, resolve_view),
                            (img.width, img.height),
                        ),
                    )
                } else {
                    Some(
                        (
                            out.spec_depth_attachment_info(img.view, resolve_view),
                            (img.width, img.height),
                        ),
                    )
                }
            },
            None => None,
        }
    } else {
        None
    }
}

/// The rendering scope a pass's outputs derive: its color attachments in
/// declaration order, its depth attachment (the last qualifying one), and
/// the render-area extent, taken from the first qualifying output and never
/// cross-checked against later ones.
pub open spec fn spec_build_scope(
    res: Seq<PhysicalResource>,
    outputs: Seq<RenderPassResource>,
    current: usize,
) -> (Seq<AttachmentInfo>, Option<AttachmentInfo>, Option<(u32, u32)>)
    decreases outputs.len(),
{
    if outputs.len() == 0 {
        (Seq::empty(), None, None)
    } else {
        let prev = spec_build_scope(res, outputs.drop_last(), current);
        match spec_attachment_of(res, outputs.last(), current) {
            Some(attachment_extent) => {
                let extent = if prev.2 is Some {
                    prev.2
                } else {
                    Some(attachment_extent.1)
                };
                if outputs.last().usage == ResourceUsage::ColorAttachment {
                    (prev.0.push(attachment_extent.0), prev.1, extent)
                } else {
                    (prev.0, Some(attachment_extent.0), extent)
                }
            },
            None => prev,
        }
    }
}

/// A scope that holds any attachment took its render-area extent from the
/// first qualifying output.
pub proof fn lemma_scope_with_attachment_has_extent(
    res: Seq<PhysicalResource>,
    outputs: Seq<RenderPassResource>,
    current: usize,
)
    ensures
        ({
            let scope = spec_build_scope(res, outputs, current);
            (scope.0.len() > 0 || scope.1 is Some) ==> scope.2 is Some
        }),
    decreases outputs.len(),
{
    if outputs.len() == 0 {
    } else {
        lemma_scope_with_attachment_has_extent(res, outputs.drop_last(), current);
    }
}

/// Resolve descriptors always carry the usage-correct resolve mode: every
/// color attachment of a scope resolves by averaging, and the depth
/// attachment resolves by maximum; each is bound in its own layout.
pub proof fn lemma_resolve_modes_match_usage(
    res: Seq<PhysicalResource>,
    outputs: Seq<RenderPassResource>,
    current: usize,
)
    ensures
        forall|i: int|
            0 <= i < spec_build_scope(res, outputs, current).0.len() ==> {
                let a = #[trigger] spec_build_scope(res, outputs, current).0[i];
                &&& a.layout == ImageLayout::ColorAttachmentOptimal
                &&& (a.resolve matches Some(rb) ==> rb.mode == ResolveMode::Average
                    && rb.layout == ImageLayout::ColorAttachmentOptimal)
            },
        spec_build_scope(res, outputs, current).1 matches Some(d) ==> {
            &&& d.layout == ImageLayout::DepthStencilAttachmentOptimal
            &&& (d.resolve matches Some(rb) ==> rb.mode == ResolveMode::Max && rb.layout
                == ImageLayout::DepthStencilAttachmentOptimal)
        },
    decreases outputs.len(),
{
    if outputs.len() == 0 {
    } else {
        lemma_resolve_modes_match_usage(res, outputs.drop_last(), current);
    }
}

/// The slot the next frame records on.
pub open spec fn spec_next_slot(current: usize, n: usize) -> usize {
    (((current + 1) as int) % (n as int)) as usize
}

/// Advance the slot index: `(current + 1) % FRAMES_IN_FLIGHT`.
pub fn next_slot(current: usize) -> (r: usize)
    requires
        current < FRAMES_IN_FLIGHT,
    ensures
        r == spec_next_slot(current, FRAMES_IN_FLIGHT),
        r < FRAMES_IN_FLIGHT,
{
    (current + 1) % FRAMES_IN_FLIGHT
}

/// The slot reached after a number of begin/end cycles.
pub open spec fn spec_slot_after_cycles(start: usize, n: usize, cycles: nat) -> usize
    decreases cycles,
{
    if cycles == 0 {
        start
    } else {
        spec_next_slot(spec_slot_after_cycles(start, n, (cycles - 1) as nat), n)
    }
}

/// For every valid slot count and current slot, the temporal slot
/// `(current + n - 1) % n` — the previous frame's — is never the current
/// one: a temporal consumer never reads the copy being written this frame.
pub proof fn lemma_temporal_slot_differs(current: usize, n: usize)
    requires
        2 <= n,
        current < n,
    ensures
        crate::sync::spec_previous_slot(current, n) != current,
{
    if current == 0 {
        vstd::arithmetic::div_mod::lemma_small_mod((n - 1) as nat, n as nat);
    } else {
        vstd::arithmetic::div_mod::lemma_mod_multiples_vanish(1, current - 1, n as int);
        vstd::arithmetic::div_mod::lemma_small_mod((current - 1) as nat, n as nat);
    }
}

/// Cycling is plain modular addition: after `cycles` begin/end cycles the
/// slot is `(start + cycles) % n`.
pub proof fn lemma_slot_after_cycles_is_mod(start: usize, n: usize, cycles: nat)
    requires
        2 <= n,
        start < n,
    ensures
        spec_slot_after_cycles(start, n, cycles) == ((start + cycles) % (n as int)) as usize,
        spec_slot_after_cycles(start, n, cycles) < n,
    decreases cycles,
{
    if cycles == 0 {
        vstd::arithmetic::div_mod::lemma_small_mod(start as nat, n as nat);
    } else {
        lemma_slot_after_cycles_is_mod(start, n, (cycles - 1) as nat);
        let prev = (start + cycles - 1) as int % (n as int);
        vstd::arithmetic::div_mod::lemma_small_mod(1nat, n as nat);
        vstd::arithmetic::div_mod::lemma_add_mod_noop(
            (start + cycles - 1) as int,
            1int,
            n as int,
        );
    }
}

/// Slot cycling is periodic with period `n`: after exactly `n` begin/end
/// cycles with no resize, the slot index returns to its starting value.
pub proof fn lemma_slot_cycle_period(start: usize, n: usize)
    requires
        2 <= n,
        start < n,
    ensures
        spec_slot_after_cycles(start, n, n as nat) == start,
{
    lemma_slot_after_cycles_is_mod(start, n, n as nat);
    vstd::arithmetic::div_mod::lemma_mod_multiples_vanish(1, start as int, n as int);
    vstd::arithmetic::div_mod::lemma_small_mod(start as nat, n as nat);
}

} // verus!
