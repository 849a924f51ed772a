use bnanr::graph::{
    AcquireOutcome, BnanRenderGraph, FrameBegin, PresentOutcome, SubmitPlan, TransferPlan,
};
use bnanr::pass::{
    AttachmentLoadOp, AttachmentStoreOp, ClearValue, RenderPass, RenderPassResource, ResolveMode,
    DEFAULT_CLEAR_CHANNEL_BITS, ONE_BITS,
};
use bnanr::resource::{
    AccessKind, ImageLayout, ImageRef, PipelineStage, ResourceHandle, ResourceUsage,
};
use bnanr::resource::{BufferRef, PhysicalResource};
use bnanr::sync::{previous_slot, synthesize_barriers, ResolvedUse, SyncError};
use bnanr::FRAMES_IN_FLIGHT;

fn image(id: u64) -> ImageRef {
    ImageRef { image: id, view: id + 100, mip_levels: 1, width: 640, height: 480 }
}

fn two_copies(a: u64, b: u64) -> Vec<ImageRef> {
    vec![image(a), image(b)]
}

#[test]
fn usage_table_is_total_and_fixed() {
    let cases = [
        (
            ResourceUsage::ColorAttachment,
            PipelineStage::ColorAttachmentOutput,
            AccessKind::ColorAttachmentWrite,
            ImageLayout::ColorAttachmentOptimal,
        ),
        (
            ResourceUsage::DepthStencilAttachment,
            PipelineStage::EarlyFragmentTests,
            AccessKind::DepthStencilAttachmentWrite,
            ImageLayout::DepthStencilAttachmentOptimal,
        ),
        (
            ResourceUsage::DepthStencilResolve,
            PipelineStage::ColorAttachmentOutput,
            AccessKind::ColorAttachmentWrite,
            ImageLayout::DepthStencilAttachmentOptimal,
        ),
        (
            ResourceUsage::ShaderRead,
            PipelineStage::FragmentShader,
            AccessKind::ShaderRead,
            ImageLayout::ShaderReadOnlyOptimal,
        ),
        (
            ResourceUsage::StorageRead,
            PipelineStage::ComputeShader,
            AccessKind::ShaderStorageRead,
            ImageLayout::General,
        ),
        (
            ResourceUsage::StorageWrite,
            PipelineStage::ComputeShader,
            AccessKind::ShaderStorageWrite,
            ImageLayout::General,
        ),
        (
            ResourceUsage::TransferSrc,
            PipelineStage::Transfer,
            AccessKind::TransferRead,
            ImageLayout::TransferSrcOptimal,
        ),
        (
            ResourceUsage::TransferDst,
            PipelineStage::Transfer,
            AccessKind::TransferWrite,
            ImageLayout::TransferDstOptimal,
        ),
        (
            ResourceUsage::Present,
            PipelineStage::NoStage,
            AccessKind::NoAccess,
            ImageLayout::PresentSrc,
        ),
    ];
    for (usage, stage, access, layout) in cases {
        assert_eq!(usage.get_stage_and_access(), (stage, access));
        assert_eq!(usage.get_layout(), layout);
    }
}

#[test]
fn temporal_slot_is_never_current() {
    assert_eq!(FRAMES_IN_FLIGHT, 2);
    assert_eq!(previous_slot(0), 1);
    assert_eq!(previous_slot(1), 0);
    for c in 0..FRAMES_IN_FLIGHT {
        assert_ne!(previous_slot(c), c);
    }
}

#[test]
fn slot_cycling_is_periodic() {
    let mut graph = BnanRenderGraph::new(3);
    assert_eq!(graph.get_current_frame(), 0);
    // Degenerate (stale) frames advance the slot too.
    for _ in 0..FRAMES_IN_FLIGHT {
        let begun = graph.begin_frame(AcquireOutcome::Stale);
        assert_eq!(begun, FrameBegin::Skipped);
    }
    assert_eq!(graph.get_current_frame(), 0);
}

#[test]
fn import_issues_fresh_stable_handles() {
    let mut graph = BnanRenderGraph::new(3);
    let h1 = graph.import_render_image("color".to_string(), two_copies(1, 2));
    let h2 = graph.import_render_image("depth".to_string(), two_copies(3, 4));
    assert_ne!(h1, h2);
    assert_ne!(h1, graph.get_backbuffer_handle());
    assert_eq!(graph.get_image(&h1, 0), Some(image(1)));
    assert_eq!(graph.get_image(&h1, 1), Some(image(2)));
    assert_eq!(graph.get_previous_frame_image(&h1, 0), Some(image(2)));
    assert_eq!(graph.get_image(&ResourceHandle(99), 0), None);
    let all = graph.get_images(&h2).unwrap();
    assert_eq!(all, two_copies(3, 4));
}

#[test]
fn surface_recreation_preserves_handle_identity() {
    let mut graph = BnanRenderGraph::new(3);
    let handle = graph.import_render_image("color".to_string(), two_copies(1, 2));
    // The surface is rebuilt with a different image count: the semaphore
    // pool must be rebuilt, the handles must not change.
    assert!(graph.recreate_swapchain(4));
    assert!(!graph.recreate_swapchain(4));
    let updated = graph.update_render_image(&handle, two_copies(7, 8));
    assert!(updated);
    assert_eq!(graph.get_image(&handle, 0), Some(image(7)));
    assert_eq!(graph.get_image(&handle, 1), Some(image(8)));
    // No new handle was issued: the next import continues the sequence.
    let next = graph.import_render_image("extra".to_string(), two_copies(9, 10));
    assert_eq!(next, ResourceHandle(2));
    // Updating an unknown handle is ignored.
    assert!(!graph.update_render_image(&ResourceHandle(42), two_copies(11, 12)));
}

#[test]
fn first_pass_synthesizes_barriers_rerun_synthesizes_none() {
    let mut graph = BnanRenderGraph::new(2);
    let color = graph.import_render_image("color".to_string(), two_copies(1, 2));
    graph.add_pass(RenderPass::new(
        "main".to_string(),
        vec![],
        vec![RenderPassResource::new(color, ResourceUsage::ColorAttachment)],
        0,
    ));
    let begun = graph.begin_frame(AcquireOutcome::Acquired { image_index: 0, image: image(50) });
    assert_eq!(begun, FrameBegin::Started { slot: 0, image_index: 0 });
    // First run: the image is undefined, one barrier per declared use.
    let barriers = graph.record_pass(0).unwrap();
    assert_eq!(barriers.len(), 1);
    assert_eq!(barriers[0].image, 1);
    assert_eq!(barriers[0].old_layout, ImageLayout::Undefined);
    assert_eq!(barriers[0].new_layout, ImageLayout::ColorAttachmentOptimal);
    assert_eq!(barriers[0].src_access, AccessKind::NoAccess);
    assert_eq!(barriers[0].src_stage, PipelineStage::NoStage);
    assert_eq!(barriers[0].dst_access, AccessKind::ColorAttachmentWrite);
    assert_eq!(barriers[0].dst_stage, PipelineStage::ColorAttachmentOutput);
    // Identical re-run with no intervening state change: zero barriers.
    let rerun = graph.record_pass(0).unwrap();
    assert_eq!(rerun.len(), 0);
}

#[test]
fn temporal_input_consumes_previous_frame_copy() {
    let mut graph = BnanRenderGraph::new(2);
    let history = graph.import_render_image("history".to_string(), two_copies(1, 2));
    graph.add_pass(RenderPass::new(
        "read-history".to_string(),
        vec![RenderPassResource::temporal(history, ResourceUsage::ShaderRead)],
        vec![],
        0,
    ));
    let begun = graph.begin_frame(AcquireOutcome::Acquired { image_index: 0, image: image(50) });
    assert_eq!(begun, FrameBegin::Started { slot: 0, image_index: 0 });
    let barriers = graph.record_pass(0).unwrap();
    // On slot 0 the temporal slot is 1: the barrier covers that copy.
    assert_eq!(barriers.len(), 1);
    assert_eq!(barriers[0].image, 2);
}

#[test]
fn unsupported_source_layout_is_an_error() {
    let mut graph = BnanRenderGraph::new(2);
    let buf = graph.import_render_image("storage".to_string(), two_copies(1, 2));
    graph.add_pass(RenderPass::new(
        "write".to_string(),
        vec![],
        vec![RenderPassResource::new(buf, ResourceUsage::StorageWrite)],
        0,
    ));
    graph.add_pass(RenderPass::new(
        "sample".to_string(),
        vec![RenderPassResource::new(buf, ResourceUsage::ShaderRead)],
        vec![],
        1,
    ));
    graph.begin_frame(AcquireOutcome::Acquired { image_index: 0, image: image(50) });
    // Undefined -> general is supported.
    let first = graph.record_pass(0).unwrap();
    assert_eq!(first.len(), 1);
    assert_eq!(first[0].new_layout, ImageLayout::General);
    assert_eq!(first[0].dst_access, AccessKind::MemoryWrite);
    assert_eq!(first[0].dst_stage, PipelineStage::AllCommands);
    // The general layout has no entry in the source table: surfaced as an
    // error at synthesis time, and the recorded state is left untouched.
    let second = graph.record_pass(1);
    assert_eq!(second, Err(bnanr::sync::SyncError::UnsupportedTransition));
    let retry = graph.record_pass(1);
    assert_eq!(retry, Err(bnanr::sync::SyncError::UnsupportedTransition));
}

#[test]
fn buffer_state_changes_are_refused() {
    let buffers = vec![BufferRef { buffer: 1 }, BufferRef { buffer: 2 }];
    let mut resources = vec![PhysicalResource::new_buffer(
        ResourceHandle(0),
        "staging".to_string(),
        buffers,
    )];
    let uses = vec![ResolvedUse {
        handle: ResourceHandle(0),
        stage: PipelineStage::Transfer,
        layout: ImageLayout::TransferDstOptimal,
        slot: 0,
    }];
    let r = synthesize_barriers(&mut resources, &uses);
    assert_eq!(r, Err(SyncError::BufferBarrier));
}

#[test]
fn resolve_modes_follow_usage() {
    let mut graph = BnanRenderGraph::new(2);
    let color = graph.import_render_image("msaa-color".to_string(), two_copies(1, 2));
    let resolved = graph.import_render_image("resolved-color".to_string(), two_copies(3, 4));
    let depth = graph.import_render_image("msaa-depth".to_string(), two_copies(5, 6));
    let resolved_depth = graph.import_render_image("resolved-depth".to_string(), two_copies(7, 8));
    graph.add_pass(RenderPass::new(
        "main".to_string(),
        vec![],
        vec![
            RenderPassResource::with_resolve(color, ResourceUsage::ColorAttachment, resolved),
            RenderPassResource::with_resolve(
                depth,
                ResourceUsage::DepthStencilAttachment,
                resolved_depth,
            ),
        ],
        0,
    ));
    let scope = graph.build_pass_attachments(0).unwrap();
    assert_eq!(scope.color_attachments.len(), 1);
    let c = scope.color_attachments[0];
    assert_eq!(c.view, 101);
    assert_eq!(c.layout, ImageLayout::ColorAttachmentOptimal);
    let cr = c.resolve.unwrap();
    assert_eq!(cr.mode, ResolveMode::Average);
    assert_eq!(cr.layout, ImageLayout::ColorAttachmentOptimal);
    assert_eq!(cr.view, 103);
    let d = scope.depth_attachment.unwrap();
    assert_eq!(d.layout, ImageLayout::DepthStencilAttachmentOptimal);
    let dr = d.resolve.unwrap();
    assert_eq!(dr.mode, ResolveMode::Max);
    assert_eq!(dr.layout, ImageLayout::DepthStencilAttachmentOptimal);
    assert_eq!(dr.view, 107);
    // The render area comes from the first qualifying output.
    assert_eq!((scope.width, scope.height), (640, 480));
}

#[test]
fn pure_compute_pass_opens_no_rendering_scope() {
    let mut graph = BnanRenderGraph::new(2);
    let img = graph.import_render_image("hi-z".to_string(), two_copies(1, 2));
    graph.add_pass(RenderPass::new(
        "downsample".to_string(),
        vec![],
        vec![RenderPassResource::new(img, ResourceUsage::StorageWrite)],
        0,
    ));
    assert!(graph.build_pass_attachments(0).is_none());
}

#[test]
fn attachment_defaults_and_builders() {
    let color = RenderPassResource::new(ResourceHandle(1), ResourceUsage::ColorAttachment);
    assert_eq!(color.config.load_op, AttachmentLoadOp::Clear);
    assert_eq!(color.config.store_op, AttachmentStoreOp::Store);
    assert_eq!(
        color.config.clear_value,
        ClearValue::Color {
            r_bits: DEFAULT_CLEAR_CHANNEL_BITS,
            g_bits: DEFAULT_CLEAR_CHANNEL_BITS,
            b_bits: DEFAULT_CLEAR_CHANNEL_BITS,
            a_bits: ONE_BITS,
        }
    );
    // 0.0065 is the flat background channel; 1.0 the far depth plane.
    assert_eq!(f32::from_bits(DEFAULT_CLEAR_CHANNEL_BITS), 0.0065);
    assert_eq!(f32::from_bits(ONE_BITS), 1.0);
    let depth = RenderPassResource::new(ResourceHandle(2), ResourceUsage::DepthStencilAttachment);
    assert_eq!(depth.config.clear_value, ClearValue::DepthStencil { depth_bits: ONE_BITS, stencil: 0 });
    let custom = RenderPassResource::new(ResourceHandle(3), ResourceUsage::ColorAttachment)
        .set_load_op(AttachmentLoadOp::Load)
        .set_store_op(AttachmentStoreOp::DontCare)
        .set_clear_color(1, 2, 3, 4);
    assert_eq!(custom.config.load_op, AttachmentLoadOp::Load);
    assert_eq!(custom.config.store_op, AttachmentStoreOp::DontCare);
    assert_eq!(
        custom.config.clear_value,
        ClearValue::Color { r_bits: 1, g_bits: 2, b_bits: 3, a_bits: 4 }
    );
    let custom_depth = RenderPassResource::temporal(ResourceHandle(4), ResourceUsage::ShaderRead)
        .set_clear_depth(9, 1);
    assert!(custom_depth.is_temporal);
    assert_eq!(
        custom_depth.config.clear_value,
        ClearValue::DepthStencil { depth_bits: 9, stencil: 1 }
    );
}

#[test]
fn transfer_waits_are_consumed_by_next_submission() {
    let mut graph = BnanRenderGraph::new(2);
    assert!(!graph.has_pending_transfers(0));
    let plan = graph.submit_transfer_work(0);
    assert_eq!(
        plan,
        TransferPlan { wait_fence_slot: 0, signal_semaphore_slot: 0, signal_fence_slot: 0 }
    );
    assert!(graph.has_pending_transfers(0));
    assert!(!graph.has_pending_transfers(1));
    graph.begin_frame(AcquireOutcome::Acquired { image_index: 1, image: image(50) });
    let submit = graph.plan_submit(1);
    assert_eq!(
        submit,
        SubmitPlan {
            acquire_wait_slot: 0,
            acquire_wait_stage: PipelineStage::ColorAttachmentOutput,
            wait_transfer: true,
            signal_semaphore_index: 1,
            fence_slot: 0,
        }
    );
    // Consumed: the next submission on this slot does not wait again.
    assert!(!graph.has_pending_transfers(0));
}

#[test]
fn steady_state_keeps_synthesizing_the_same_two_barriers() {
    // One logical image with two backing copies, written as a color
    // attachment and resolved into the presentation image, over four frames
    // with no resize: the per-frame barrier count settles at a constant,
    // non-zero value — the presentation image always needs its transition
    // into the color-attachment layout again, and the mandatory
    // present-layout transition always follows.
    let mut graph = BnanRenderGraph::new(2);
    let color = graph.import_render_image("color".to_string(), two_copies(1, 2));
    let backbuffer = graph.get_backbuffer_handle();
    graph.add_pass(RenderPass::new(
        "main".to_string(),
        vec![],
        vec![RenderPassResource::with_resolve(
            color,
            ResourceUsage::ColorAttachment,
            backbuffer,
        )],
        0,
    ));
    let mut per_frame_counts: Vec<usize> = Vec::new();
    for frame in 0..4u32 {
        let slot = graph.get_current_frame();
        let begun = graph.begin_frame(AcquireOutcome::Acquired {
            image_index: (frame % 2) as usize,
            image: image(50 + (frame % 2) as u64),
        });
        assert_eq!(begun, FrameBegin::Started { slot, image_index: (frame % 2) as usize });
        let pass_barriers = graph.record_pass(0).unwrap();
        let present = graph.present_barrier().unwrap();
        assert_eq!(present.len(), 1);
        assert_eq!(present[0].new_layout, ImageLayout::PresentSrc);
        graph.plan_submit((frame % 2) as usize);
        graph.end_frame(PresentOutcome::Presented);
        per_frame_counts.push(pass_barriers.len() + present.len());
        if frame == 0 {
            // Both the color output and its resolve target start undefined.
            assert_eq!(pass_barriers.len(), 2);
        } else {
            // The color image's recorded state already matches; the
            // presentation image was rebound at acquisition and needs its
            // transition again.
            assert_eq!(pass_barriers.len(), 1);
            assert_eq!(pass_barriers[0].new_layout, ImageLayout::ColorAttachmentOptimal);
        }
    }
    // Steady state: exactly two barriers every frame, never zero.
    assert_eq!(per_frame_counts, vec![3, 2, 2, 2]);
    assert!(per_frame_counts.iter().all(|&n| n > 0));
    assert_eq!(graph.get_current_frame(), 0);
}
