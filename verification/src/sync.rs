//! Barrier synthesis: diffing a pass's declared resource uses against the
//! recorded resource state and emitting the minimal batch of image-state
//! transitions.
//!
//! A pass's input uses are collected first, then its output uses; a resolve
//! target of an output is treated as one additional use directly after that
//! output (color resolve targets as `ColorAttachment`, depth resolve targets
//! as `DepthStencilResolve`). Each use is compared against the resource's
//! recorded state; a barrier is synthesized exactly when the required stage
//! or layout differs, and the recorded state is then updated to the required
//! one. The barrier's source scope is inferred from the recorded layout via
//! a second fixed table, an approximation of a true last-access record.

use vstd::prelude::*;

use crate::FRAMES_IN_FLIGHT;
use crate::pass::RenderPassResource;
use crate::resource::{
    AccessKind, ImageLayout, PhysicalResource, PipelineStage, ResourceHandle, ResourceType,
    ResourceUsage,
};

verus! {

/// One image-state transition command. All barriers of one pass are batched
/// into a single synchronization command, recorded before the pass body.
#[derive(Clone, Copy, Debug, PartialEq, Eq, Structural)]
pub struct Barrier {
    /// Device handle of the image transitioned.
    pub image: u64,
    pub old_layout: ImageLayout,
    pub new_layout: ImageLayout,
    pub src_stage: PipelineStage,
    pub src_access: AccessKind,
    pub dst_stage: PipelineStage,
    pub dst_access: AccessKind,
    /// Mip levels covered by the transition.
    pub mip_levels: u32,
    /// Whether the depth aspect is transitioned instead of the color aspect.
    pub depth_aspect: bool,
}

/// Why a pass's synchronization could not be synthesized.
#[derive(Clone, Copy, Debug, PartialEq, Eq, Structural)]
pub enum SyncError {
    /// A buffer's recorded state differed from a declared use; buffer
    /// barriers are not synthesized.
    BufferBarrier,
    /// A needed transition's source or destination layout has no entry in
    /// the fixed layout tables.
    UnsupportedTransition,
}

/// The second fixed table: the access and stage a barrier's source scope is
/// inferred to cover, from the recorded layout alone. Layouts that never
/// serve as a supported source have no entry.
pub open spec fn spec_source_state(layout: ImageLayout) -> Option<(AccessKind, PipelineStage)> {
    match layout {
        ImageLayout::Undefined => Some((AccessKind::NoAccess, PipelineStage::NoStage)),
        ImageLayout::ColorAttachmentOptimal => Some(
            (AccessKind::ColorAttachmentWrite, PipelineStage::ColorAttachmentOutput),
        ),
        ImageLayout::DepthStencilAttachmentOptimal => Some(
            (AccessKind::DepthStencilAttachmentWrite, PipelineStage::EarlyFragmentTests),
        ),
        ImageLayout::TransferSrcOptimal => Some((AccessKind::TransferRead, PipelineStage::Transfer)),
        ImageLayout::TransferDstOptimal => Some((AccessKind::TransferWrite, PipelineStage::Transfer)),
        ImageLayout::ShaderReadOnlyOptimal => Some(
            (AccessKind::ShaderRead, PipelineStage::FragmentShader),
        ),
        ImageLayout::General => None,
        ImageLayout::PresentSrc => None,
    }
}

/// The destination half of the fixed table: the access and stage a
/// barrier's destination scope covers, from the required layout alone.
pub open spec fn spec_destination_state(layout: ImageLayout) -> Option<(AccessKind, PipelineStage)> {
    match layout {
        ImageLayout::General => Some((AccessKind::MemoryWrite, PipelineStage::AllCommands)),
        ImageLayout::ColorAttachmentOptimal => Some(
            (AccessKind::ColorAttachmentWrite, PipelineStage::ColorAttachmentOutput),
        ),
        ImageLayout::DepthStencilAttachmentOptimal => Some(
            (AccessKind::DepthStencilAttachmentWrite, PipelineStage::EarlyFragmentTests),
        ),
        ImageLayout::TransferSrcOptimal => Some((AccessKind::TransferRead, PipelineStage::Transfer)),
        ImageLayout::TransferDstOptimal => Some((AccessKind::TransferWrite, PipelineStage::Transfer)),
        ImageLayout::ShaderReadOnlyOptimal => Some(
            (AccessKind::ShaderRead, PipelineStage::FragmentShader),
        ),
        ImageLayout::PresentSrc => Some((AccessKind::NoAccess, PipelineStage::NoStage)),
        ImageLayout::Undefined => None,
    }
}

/// Look up the source table.
pub fn source_state(layout: ImageLayout) -> (r: Option<(AccessKind, PipelineStage)>)
    ensures
        r == spec_source_state(layout),
{
    match layout {
        ImageLayout::Undefined => Some((AccessKind::NoAccess, PipelineStage::NoStage)),
        ImageLayout::ColorAttachmentOptimal => Some(
            (AccessKind::ColorAttachmentWrite, PipelineStage::ColorAttachmentOutput),
        ),
        ImageLayout::DepthStencilAttachmentOptimal => Some(
            (AccessKind::DepthStencilAttachmentWrite, PipelineStage::EarlyFragmentTests),
        ),
        ImageLayout::TransferSrcOptimal => Some((AccessKind::TransferRead, PipelineStage::Transfer)),
        ImageLayout::TransferDstOptimal => Some((AccessKind::TransferWrite, PipelineStage::Transfer)),
        ImageLayout::ShaderReadOnlyOptimal => Some(
            (AccessKind::ShaderRead, PipelineStage::FragmentShader),
        ),
        ImageLayout::General => None,
        ImageLayout::PresentSrc => None,
    }
}

/// Look up the destination table.
pub fn destination_state(layout: ImageLayout) -> (r: Option<(AccessKind, PipelineStage)>)
    ensures
        r == spec_destination_state(layout),
{
    match layout {
        ImageLayout::General => Some((AccessKind::MemoryWrite, PipelineStage::AllCommands)),
        ImageLayout::ColorAttachmentOptimal => Some(
            (AccessKind::ColorAttachmentWrite, PipelineStage::ColorAttachmentOutput),
        ),
        ImageLayout::DepthStencilAttachmentOptimal => Some(
            (AccessKind::DepthStencilAttachmentWrite, PipelineStage::EarlyFragmentTests),
        ),
        ImageLayout::TransferSrcOptimal => Some((AccessKind::TransferRead, PipelineStage::Transfer)),
        ImageLayout::TransferDstOptimal => Some((AccessKind::TransferWrite, PipelineStage::Transfer)),
        ImageLayout::ShaderReadOnlyOptimal => Some(
            (AccessKind::ShaderRead, PipelineStage::FragmentShader),
        ),
        ImageLayout::PresentSrc => Some((AccessKind::NoAccess, PipelineStage::NoStage)),
        ImageLayout::Undefined => None,
    }
}

/// One fully resolved use-site: which handle, the required stage and
/// layout from the usage table, and which physical slot is consumed.
#[derive(Clone, Copy, Debug, PartialEq, Eq, Structural)]
pub struct ResolvedUse {
    pub handle: ResourceHandle,
    pub stage: PipelineStage,
    pub layout: ImageLayout,
    pub slot: usize,
}

/// The physical slot a temporal use consumes: the previous frame's.
pub open spec fn spec_previous_slot(current: usize, n: usize) -> usize {
    (((current + n - 1) as int) % (n as int)) as usize
}

/// Compute the previous frame's slot, `(current + N - 1) % N`.
pub fn previous_slot(current: usize) -> (r: usize)
    requires
        current < FRAMES_IN_FLIGHT,
    ensures
        r == spec_previous_slot(current, FRAMES_IN_FLIGHT),
        r < FRAMES_IN_FLIGHT,
{
    (current + (FRAMES_IN_FLIGHT - 1)) % FRAMES_IN_FLIGHT
}

/// The resolved form of one declared use, consuming the given slot.
pub open spec fn spec_use_at(u: RenderPassResource, slot: usize) -> ResolvedUse {
    ResolvedUse {
        handle: u.handle,
        stage: u.usage.spec_stage_and_access().0,
        layout: u.usage.spec_layout(),
        slot,
    }
}

/// The resolved form of one declared input use: temporal inputs consume the
/// previous frame's slot.
pub open spec fn spec_input_use(u: RenderPassResource, current: usize) -> ResolvedUse {
    if u.is_temporal {
        spec_use_at(u, spec_previous_slot(current, FRAMES_IN_FLIGHT))
    } else {
        spec_use_at(u, current)
    }
}

/// The usage a resolve target is treated as: depth outputs resolve as
/// `DepthStencilResolve` (same layout as the primary depth attachment, but
/// the color-output stage), everything else as `ColorAttachment`.
pub open spec fn spec_resolve_usage(output_usage: ResourceUsage) -> ResourceUsage {
    if output_usage.spec_layout() == ImageLayout::DepthStencilAttachmentOptimal {
        ResourceUsage::DepthStencilResolve
    } else {
        ResourceUsage::ColorAttachment
    }
}

/// The additional resolved use a resolve target contributes.
pub open spec fn spec_resolve_use(out: RenderPassResource, target: ResourceHandle, current: usize) -> ResolvedUse {
    ResolvedUse {
        handle: target,
        stage: spec_resolve_usage(out.usage).spec_stage_and_access().0,
        layout: spec_resolve_usage(out.usage).spec_layout(),
        slot: current,
    }
}

/// The resolved uses one declared output contributes: the output itself,
/// then, if it resolves, its resolve target.
pub open spec fn spec_output_uses(out: RenderPassResource, current: usize) -> Seq<ResolvedUse> {
    match out.resolve_target {
        Some(target) => seq![spec_use_at(out, current), spec_resolve_use(out, target, current)],
        None => seq![spec_use_at(out, current)],
    }
}

/// All resolved output uses, in declaration order.
pub open spec fn spec_expand_outputs(outputs: Seq<RenderPassResource>, current: usize) -> Seq<
    ResolvedUse,
>
    decreases outputs.len(),
{
    if outputs.len() == 0 {
        Seq::empty()
    } else {
        spec_expand_outputs(outputs.drop_last(), current) + spec_output_uses(
            outputs.last(),
            current,
        )
    }
}

/// All resolved input uses, in declaration order.
pub open spec fn spec_expand_inputs(inputs: Seq<RenderPassResource>, current: usize) -> Seq<
    ResolvedUse,
>
    decreases inputs.len(),
{
    if inputs.len() == 0 {
        Seq::empty()
    } else {
        spec_expand_inputs(inputs.drop_last(), current).push(
            spec_input_use(inputs.last(), current),
        )
    }
}

/// Every use one pass declares, resolved: all inputs first, then all
/// outputs with their resolve targets.
pub open spec fn spec_pass_uses(
    inputs: Seq<RenderPassResource>,
    outputs: Seq<RenderPassResource>,
    current: usize,
) -> Seq<ResolvedUse> {
    spec_expand_inputs(inputs, current) + spec_expand_outputs(outputs, current)
}

/// Resolve every use the pass declares against the current frame slot.
pub fn expand_pass_uses(
    inputs: &Vec<RenderPassResource>,
    outputs: &Vec<RenderPassResource>,
    current: usize,
) -> (r: Vec<ResolvedUse>)
    requires
        current < FRAMES_IN_FLIGHT,
    ensures
        r@ == spec_pass_uses(inputs@, outputs@, current),
        forall|k: int| 0 <= k < r@.len() ==> (#[trigger] r@[k]).slot < FRAMES_IN_FLIGHT,
{
    let mut r: Vec<ResolvedUse> = Vec::new();
    let mut i: usize = 0;
    while i < inputs.len()
        invariant
            i <= inputs@.len(),
            current < FRAMES_IN_FLIGHT,
            r@ == spec_expand_inputs(inputs@.take(i as int), current),
            forall|k: int| 0 <= k < r@.len() ==> (#[trigger] r@[k]).slot < FRAMES_IN_FLIGHT,
        decreases inputs@.len() - i,
    {
        let u = inputs[i];
        let slot = if u.is_temporal {
            previous_slot(current)
        } else {
            current
        };
        let (stage, _access) = u.usage.get_stage_and_access();
        let layout = u.usage.get_layout();
        r.push(ResolvedUse { handle: u.handle, stage, layout, slot });
        proof {
            assert(inputs@.take(i + 1).drop_last() =~= inputs@.take(i as int));
            assert(inputs@.take(i + 1).last() == inputs@[i as int]);
        }
        i = i + 1;
    }
    proof {
        assert(inputs@.take(inputs@.len() as int) =~= inputs@);
        assert(r@ =~= spec_expand_inputs(inputs@, current) + spec_expand_outputs(
            outputs@.take(0),
            current,
        ));
    }
    let mut j: usize = 0;
    while j < outputs.len()
        invariant
            j <= outputs@.len(),
            current < FRAMES_IN_FLIGHT,
            r@ == spec_expand_inputs(inputs@, current) + spec_expand_outputs(
                outputs@.take(j as int),
                current,
            ),
            forall|k: int| 0 <= k < r@.len() ==> (#[trigger] r@[k]).slot < FRAMES_IN_FLIGHT,
        decreases outputs@.len() - j,
    {
        let out = outputs[j];
        let (stage, _access) = out.usage.get_stage_and_access();
        let layout = out.usage.get_layout();
        r.push(ResolvedUse { handle: out.handle, stage, layout, slot: current });
        match out.resolve_target {
            Some(target) => {
                let resolve_usage = if layout == ImageLayout::DepthStencilAttachmentOptimal {
                    ResourceUsage::DepthStencilResolve
                } else {
                    ResourceUsage::ColorAttachment
                };
                let (rstage, _raccess) = resolve_usage.get_stage_and_access();
                let rlayout = resolve_usage.get_layout();
                r.push(ResolvedUse { handle: target, stage: rstage, layout: rlayout, slot: current });
            },
            None => {},
        }
        proof {
            assert(outputs@.take(j + 1).drop_last() =~= outputs@.take(j as int));
            assert(outputs@.take(j + 1).last() == outputs@[j as int]);
            assert(r@ =~= spec_expand_inputs(inputs@, current) + spec_expand_outputs(
                outputs@.take(j + 1),
                current,
            ));
        }
        j = j + 1;
    }
    proof {
        assert(outputs@.take(outputs@.len() as int) =~= outputs@);
    }
    r
}

/// Whether the use's required stage or layout differs from the recorded
/// state, so that a barrier is owed. Unknown handles are silently skipped;
/// a buffer's recorded layout is not compared, only its stage.
pub open spec fn spec_use_needs_barrier(res: Seq<PhysicalResource>, u: ResolvedUse) -> bool {
    &&& u.handle.0 < res.len()
    &&& {
        let p = res[u.handle.0 as int];
        (p.resource.is_image() && p.current_layout != u.layout) || p.current_stage != u.stage
    }
}

/// The recorded state after one use: where a barrier was owed, the
/// resource's recorded layout and stage become the required ones.
pub open spec fn spec_apply_use(res: Seq<PhysicalResource>, u: ResolvedUse) -> Seq<
    PhysicalResource,
> {
    if spec_use_needs_barrier(res, u) {
        let p = res[u.handle.0 as int];
        res.update(
            u.handle.0 as int,
            PhysicalResource { current_layout: u.layout, current_stage: u.stage, ..p },
        )
    } else {
        res
    }
}

/// The recorded state after a sequence of uses, applied in order.
pub open spec fn spec_apply_uses(res: Seq<PhysicalResource>, uses: Seq<ResolvedUse>) -> Seq<
    PhysicalResource,
>
    decreases uses.len(),
{
    if uses.len() == 0 {
        res
    } else {
        spec_apply_use(spec_apply_uses(res, uses.drop_last()), uses.last())
    }
}

/// How many barriers a sequence of uses synthesizes against a starting
/// recorded state: one for each use whose required stage or layout differs
/// from the state recorded at that point.
pub open spec fn spec_barrier_count(res: Seq<PhysicalResource>, uses: Seq<ResolvedUse>) -> nat
    decreases uses.len(),
{
    if uses.len() == 0 {
        0
    } else {
        spec_barrier_count(res, uses.drop_last()) + if spec_use_needs_barrier(
            spec_apply_uses(res, uses.drop_last()),
            uses.last(),
        ) {
            1nat
        } else {
            0nat
        }
    }
}

/// The barrier one use synthesizes against the given recorded state (only
/// meaningful when one is owed and supported).
pub open spec fn spec_use_barrier(res: Seq<PhysicalResource>, u: ResolvedUse) -> Barrier {
    let p = res[u.handle.0 as int];
    let image_mips = match p.resource {
        ResourceType::SwapchainImage(img) => (img.image, 1u32),
        ResourceType::Image(imgs) => if u.slot < imgs@.len() {
            (imgs@[u.slot as int].image, imgs@[u.slot as int].mip_levels)
        } else {
            (0u64, 0u32)
        },
        ResourceType::Buffer(_) => (0u64, 0u32),
    };
    let src = match spec_source_state(p.current_layout) {
        Some(s) => s,
        None => (AccessKind::NoAccess, PipelineStage::NoStage),
    };
    let dst = match spec_destination_state(u.layout) {
        Some(d) => d,
        None => (AccessKind::NoAccess, PipelineStage::NoStage),
    };
    Barrier {
        image: image_mips.0,
        old_layout: p.current_layout,
        new_layout: u.layout,
        src_stage: src.1,
        src_access: src.0,
        dst_stage: dst.1,
        dst_access: dst.0,
        mip_levels: image_mips.1,
        depth_aspect: u.layout == ImageLayout::DepthStencilAttachmentOptimal,
    }
}

/// Whether the barrier a use owes can be synthesized: the resource must be
/// an image whose consumed slot exists, and both the recorded and the
/// required layout must have table entries.
pub open spec fn spec_use_supported(res: Seq<PhysicalResource>, u: ResolvedUse) -> bool {
    spec_use_needs_barrier(res, u) ==> {
        let p = res[u.handle.0 as int];
        &&& match p.resource {
            ResourceType::SwapchainImage(_) => true,
            ResourceType::Image(imgs) => u.slot < imgs@.len(),
            ResourceType::Buffer(_) => false,
        }
        &&& spec_source_state(p.current_layout) is Some
        &&& spec_destination_state(u.layout) is Some
    }
}

/// Whether every barrier a sequence of uses owes can be synthesized.
pub open spec fn spec_all_supported(res: Seq<PhysicalResource>, uses: Seq<ResolvedUse>) -> bool
    decreases uses.len(),
{
    if uses.len() == 0 {
        true
    } else {
        spec_all_supported(res, uses.drop_last()) && spec_use_supported(
            spec_apply_uses(res, uses.drop_last()),
            uses.last(),
        )
    }
}

/// The batch of barriers a sequence of uses synthesizes, in use order.
pub open spec fn spec_barriers(res: Seq<PhysicalResource>, uses: Seq<ResolvedUse>) -> Seq<Barrier>
    decreases uses.len(),
{
    if uses.len() == 0 {
        Seq::empty()
    } else {
        let prev = spec_barriers(res, uses.drop_last());
        let st = spec_apply_uses(res, uses.drop_last());
        if spec_use_needs_barrier(st, uses.last()) {
            prev.push(spec_use_barrier(st, uses.last()))
        } else {
            prev
        }
    }
}

/// Applying uses never changes which resources exist, their identity, their
/// backing, or their queue family: only the recorded layout and stage move.
pub proof fn lemma_apply_uses_preserves_static(res: Seq<PhysicalResource>, uses: Seq<ResolvedUse>)
    ensures
        spec_apply_uses(res, uses).len() == res.len(),
        forall|j: int|
            0 <= j < res.len() ==> {
                let p = #[trigger] spec_apply_uses(res, uses)[j];
                &&& p.handle == res[j].handle
                &&& p.name == res[j].name
                &&& p.resource == res[j].resource
                &&& p.current_queue_family == res[j].current_queue_family
            },
    decreases uses.len(),
{
    if uses.len() == 0 {
    } else {
        lemma_apply_uses_preserves_static(res, uses.drop_last());
    }
}

/// There is exactly one barrier in the batch for each use whose required
/// stage or layout differed from the state recorded just before it.
pub proof fn lemma_one_barrier_per_changed_use(
    res: Seq<PhysicalResource>,
    uses: Seq<ResolvedUse>,
    i: int,
)
    requires
        0 <= i < uses.len(),
    ensures
        spec_barrier_count(res, uses.take(i + 1)) == spec_barrier_count(res, uses.take(i)) + if spec_use_needs_barrier(
            spec_apply_uses(res, uses.take(i)),
            uses[i],
        ) {
            1int
        } else {
            0int
        },
{
    assert(uses.take(i + 1).drop_last() =~= uses.take(i));
    assert(uses.take(i + 1).last() == uses[i]);
}

/// The batch's length is the count of uses owing a barrier.
pub proof fn lemma_batch_len_is_barrier_count(res: Seq<PhysicalResource>, uses: Seq<ResolvedUse>)
    ensures
        spec_barriers(res, uses).len() == spec_barrier_count(res, uses),
    decreases uses.len(),
{
    if uses.len() == 0 {
    } else {
        lemma_batch_len_is_barrier_count(res, uses.drop_last());
    }
}

/// A resource whose handle no use names keeps its recorded state.
proof fn lemma_apply_uses_skips_other_handles(
    res: Seq<PhysicalResource>,
    uses: Seq<ResolvedUse>,
    h: int,
)
    requires
        0 <= h < res.len(),
        forall|k: int| 0 <= k < uses.len() ==> (#[trigger] uses[k]).handle.0 != h,
    ensures
        spec_apply_uses(res, uses)[h] == res[h],
    decreases uses.len(),
{
    if uses.len() == 0 {
    } else {
        lemma_apply_uses_skips_other_handles(res, uses.drop_last(), h);
        lemma_apply_uses_preserves_static(res, uses.drop_last());
    }
}

/// After a sequence of uses with pairwise distinct handles, each named
/// resource's recorded stage is the one its use required, and its recorded
/// layout too where the resource is an image.
proof fn lemma_apply_uses_records_requirements(
    res: Seq<PhysicalResource>,
    uses: Seq<ResolvedUse>,
    i: int,
)
    requires
        0 <= i < uses.len(),
        forall|k: int, l: int|
            0 <= k < l < uses.len() ==> (#[trigger] uses[k]).handle != (#[trigger] uses[l]).handle,
        uses[i].handle.0 < res.len(),
    ensures
        spec_apply_uses(res, uses)[uses[i].handle.0 as int].current_stage == uses[i].stage,
        spec_apply_uses(res, uses)[uses[i].handle.0 as int].resource.is_image()
            ==> spec_apply_uses(res, uses)[uses[i].handle.0 as int].current_layout
            == uses[i].layout,
    decreases uses.len(),
{
    let h = uses[i].handle.0 as int;
    lemma_apply_uses_preserves_static(res, uses.drop_last());
    lemma_apply_uses_preserves_static(res, uses);
    if i == uses.len() - 1 {
        let st = spec_apply_uses(res, uses.drop_last());
        assert(spec_apply_uses(res, uses) == spec_apply_use(st, uses.last()));
    } else {
        lemma_apply_uses_records_requirements(res, uses.drop_last(), i);
        assert(uses.drop_last()[i] == uses[i]);
        assert(uses.last().handle != uses[i].handle);
    }
}

/// A sequence of uses none of which finds a differing recorded state
/// synthesizes no barrier.
proof fn lemma_no_changed_use_no_barrier(res: Seq<PhysicalResource>, uses: Seq<ResolvedUse>)
    requires
        forall|i: int|
            0 <= i < uses.len() ==> !spec_use_needs_barrier(
                spec_apply_uses(res, uses.take(i)),
                #[trigger] uses[i],
            ),
    ensures
        spec_barrier_count(res, uses) == 0,
    decreases uses.len(),
{
    if uses.len() == 0 {
    } else {
        let n = uses.len() - 1;
        assert forall|i: int|
            0 <= i < uses.drop_last().len() implies !spec_use_needs_barrier(
            spec_apply_uses(res, uses.drop_last().take(i)),
            #[trigger] uses.drop_last()[i],
        ) by {
            assert(uses.drop_last().take(i) =~= uses.take(i));
            assert(uses.drop_last()[i] == uses[i]);
        }
        lemma_no_changed_use_no_barrier(res, uses.drop_last());
        assert(uses.take(n) =~= uses.drop_last());
        assert(!spec_use_needs_barrier(spec_apply_uses(res, uses.take(n)), uses[n]));
    }
}

/// Idempotence of synthesis: re-running a pass whose uses name pairwise
/// distinct handles, with no intervening state change, synthesizes zero
/// barriers — every required stage and layout is then already the recorded
/// one. (A pass that names one handle twice with conflicting requirements
/// re-synthesizes barriers on every run and is excluded here.)
pub proof fn lemma_identical_rerun_synthesizes_nothing(
    res: Seq<PhysicalResource>,
    uses: Seq<ResolvedUse>,
)
    requires
        forall|k: int, l: int|
            0 <= k < l < uses.len() ==> (#[trigger] uses[k]).handle != (#[trigger] uses[l]).handle,
    ensures
        spec_barrier_count(spec_apply_uses(res, uses), uses) == 0,
{
    let s = spec_apply_uses(res, uses);
    lemma_apply_uses_preserves_static(res, uses);
    assert forall|i: int|
        0 <= i < uses.len() implies !spec_use_needs_barrier(
        spec_apply_uses(s, uses.take(i)),
        #[trigger] uses[i],
    ) by {
        let h = uses[i].handle.0 as int;
        if h < s.len() {
            assert(forall|k: int|
                0 <= k < uses.take(i).len() ==> (#[trigger] uses.take(i)[k]).handle.0 != h);
            lemma_apply_uses_skips_other_handles(s, uses.take(i), h);
            lemma_apply_uses_records_requirements(res, uses, i);
        } else {
            lemma_apply_uses_preserves_static(s, uses.take(i));
        }
    }
    lemma_no_changed_use_no_barrier(s, uses);
}

/// If every barrier of the sequence can be synthesized, so can the one the
/// use at position `i` owes against the state recorded before it.
pub proof fn lemma_supported_at(res: Seq<PhysicalResource>, uses: Seq<ResolvedUse>, i: int)
    requires
        0 <= i < uses.len(),
        spec_all_supported(res, uses),
    ensures
        spec_use_supported(spec_apply_uses(res, uses.take(i)), uses[i]),
    decreases uses.len(),
{
    if i == uses.len() - 1 {
        assert(uses.drop_last() =~= uses.take(i));
    } else {
        lemma_supported_at(res, uses.drop_last(), i);
        assert(uses.drop_last().take(i) =~= uses.take(i));
    }
}

/// Synthesize the batched synchronization command for one pass's resolved
/// uses: one barrier for each use whose required stage or layout differs
/// from the recorded state, applied in order, with the recorded state
/// updated to the required one. On an unsupported transition nothing is
/// recorded and the state is left untouched.
pub fn synthesize_barriers(resources: &mut Vec<PhysicalResource>, uses: &Vec<ResolvedUse>) -> (r:
    Result<Vec<Barrier>, SyncError>)
    ensures
        r is Ok <==> spec_all_supported(old(resources)@, uses@),
        r matches Ok(b) ==> {
            &&& b@ == spec_barriers(old(resources)@, uses@)
            &&& b@.len() == spec_barrier_count(old(resources)@, uses@)
            &&& final(resources)@ == spec_apply_uses(old(resources)@, uses@)
        },
        r is Err ==> final(resources)@ == old(resources)@,
{
    let ghost res0 = resources@;
    let mut barriers: Vec<Barrier> = Vec::new();
    // Simulate the recorded-state updates on a scratch copy of the tracked
    // fields, so that an unsupported transition leaves the registry
    // untouched.
    let mut layouts: Vec<ImageLayout> = Vec::new();
    let mut stages: Vec<PipelineStage> = Vec::new();
    let mut k: usize = 0;
    while k < resources.len()
        invariant
            k <= resources@.len(),
            resources@ == res0,
            layouts@.len() == k,
            stages@.len() == k,
            forall|j: int|
                0 <= j < k ==> #[trigger] layouts@[j] == res0[j].current_layout && stages@[j]
                    == res0[j].current_stage,
        decreases resources@.len() - k,
    {
        layouts.push(resources[k].current_layout);
        stages.push(resources[k].current_stage);
        k = k + 1;
    }
    proof {
        assert(uses@.take(0).len() == 0);
        assert(barriers@ =~= spec_barriers(res0, uses@.take(0)));
    }
    let mut i: usize = 0;
    while i < uses.len()
        invariant
            i <= uses@.len(),
            resources@ == res0,
            spec_all_supported(res0, uses@.take(i as int)),
            barriers@ == spec_barriers(res0, uses@.take(i as int)),
            spec_apply_uses(res0, uses@.take(i as int)).len() == res0.len(),
            layouts@.len() == res0.len(),
            stages@.len() == res0.len(),
            forall|j: int|
                0 <= j < res0.len() ==> #[trigger] layouts@[j] == spec_apply_uses(
                    res0,
                    uses@.take(i as int),
                )[j].current_layout && stages@[j] == spec_apply_uses(
                    res0,
                    uses@.take(i as int),
                )[j].current_stage,
        decreases uses@.len() - i,
    {
        let u = uses[i];
        let ghost st = spec_apply_uses(res0, uses@.take(i as int));
        proof {
            lemma_apply_uses_preserves_static(res0, uses@.take(i as int));
            assert(uses@.take(i + 1).drop_last() =~= uses@.take(i as int));
            assert(uses@.take(i + 1).last() == uses@[i as int]);
        }
        let h = u.handle.0;
        if h < resources.len() {
            let p = &resources[h];
            let is_img = match &p.resource {
                ResourceType::Buffer(_) => false,
                _ => true,
            };
            let needs = (is_img && layouts[h] != u.layout) || stages[h] != u.stage;
            assert(needs == spec_use_needs_barrier(st, u));
            if needs {
                let image_mips: (u64, u32) = match &p.resource {
                    ResourceType::SwapchainImage(img) => (img.image, 1u32),
                    ResourceType::Image(imgs) => {
                        if u.slot < imgs.len() {
                            (imgs[u.slot].image, imgs[u.slot].mip_levels)
                        } else {
                            proof {
                                assert(!spec_use_supported(st, u));
                                if spec_all_supported(res0, uses@) {
                                    lemma_supported_at(res0, uses@, i as int);
                                }
                            }
                            return Err(SyncError::UnsupportedTransition);
                        }
                    },
                    ResourceType::Buffer(_) => {
                        proof {
                            assert(!spec_use_supported(st, u));
                            if spec_all_supported(res0, uses@) {
                                lemma_supported_at(res0, uses@, i as int);
                            }
                        }
                        return Err(SyncError::BufferBarrier);
                    },
                };
                let src = match source_state(layouts[h]) {
                    Some(s) => s,
                    None => {
                        proof {
                            assert(!spec_use_supported(st, u));
                            if spec_all_supported(res0, uses@) {
                                lemma_supported_at(res0, uses@, i as int);
                            }
                        }
                        return Err(SyncError::UnsupportedTransition);
                    },
                };
                let dst = match destination_state(u.layout) {
                    Some(d) => d,
                    None => {
                        proof {
                            assert(!spec_use_supported(st, u));
                            if spec_all_supported(res0, uses@) {
                                lemma_supported_at(res0, uses@, i as int);
                            }
                        }
                        return Err(SyncError::UnsupportedTransition);
                    },
                };
                barriers.push(
                    Barrier {
                        image: image_mips.0,
                        old_layout: layouts[h],
                        new_layout: u.layout,
                        src_stage: src.1,
                        src_access: src.0,
                        dst_stage: dst.1,
                        dst_access: dst.0,
                        mip_levels: image_mips.1,
                        depth_aspect: u.layout == ImageLayout::DepthStencilAttachmentOptimal,
                    },
                );
                assert(barriers@.last() == spec_use_barrier(st, u));
                layouts.set(h, u.layout);
                stages.set(h, u.stage);
            }
        }
        proof {
            assert(spec_all_supported(res0, uses@.take(i + 1)));
            assert(barriers@ =~= spec_barriers(res0, uses@.take(i + 1)));
            assert(forall|j: int|
                0 <= j < res0.len() ==> #[trigger] layouts@[j] == spec_apply_uses(
                    res0,
                    uses@.take(i + 1),
                )[j].current_layout && stages@[j] == spec_apply_uses(
                    res0,
                    uses@.take(i + 1),
                )[j].current_stage);
        }
        i = i + 1;
    }
    proof {
        assert(uses@.take(uses@.len() as int) =~= uses@);
        lemma_batch_len_is_barrier_count(res0, uses@);
    }
    // Every transition was supported: write the simulated state back.
    let mut w: usize = 0;
    let ghost target = spec_apply_uses(res0, uses@);
    proof {
        lemma_apply_uses_preserves_static(res0, uses@);
    }
    while w < resources.len()
        invariant
            w <= resources@.len(),
            resources@.len() == res0.len(),
            target == spec_apply_uses(res0, uses@),
            target.len() == res0.len(),
            layouts@.len() == res0.len(),
            stages@.len() == res0.len(),
            forall|j: int| 0 <= j < w ==> #[trigger] resources@[j] == target[j],
            forall|j: int| w <= j < res0.len() ==> #[trigger] resources@[j] == res0[j],
            forall|j: int|
                0 <= j < res0.len() ==> #[trigger] layouts@[j] == target[j].current_layout
                    && stages@[j] == target[j].current_stage,
            forall|j: int|
                0 <= j < res0.len() ==> {
                    let p = #[trigger] target[j];
                    &&& p.handle == res0[j].handle
                    &&& p.name == res0[j].name
                    &&& p.resource == res0[j].resource
                    &&& p.current_queue_family == res0[j].current_queue_family
                },
        decreases resources@.len() - w,
    {
        let entry = &mut resources[w];
        entry.current_layout = layouts[w];
        entry.current_stage = stages[w];
        proof {
            assert(resources@[w as int] =~= target[w as int]);
        }
        w = w + 1;
    }
    proof {
        assert(resources@ =~= target);
    }
    Ok(barriers)
}

} // verus!
