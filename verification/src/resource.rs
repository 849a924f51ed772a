//! Logical resource handles, physical resources, and the fixed usage table
//! mapping each abstract resource usage to the pipeline stage, access kind
//! and image layout it requires.

use vstd::prelude::*;

use crate::FRAMES_IN_FLIGHT;

verus! {

/// The closed set of ways a pass may use a resource. Each value maps, via
/// the fixed usage table below, to exactly one (stage, access, layout)
/// triple.
#[derive(Clone, Copy, Debug, PartialEq, Eq, Structural)]
pub enum ResourceUsage {
    ColorAttachment,
    DepthStencilAttachment,
    DepthStencilResolve,
    ShaderRead,
    StorageRead,
    StorageWrite,
    TransferSrc,
    TransferDst,
    Present,
}

/// Image layouts the scheduler tracks and transitions between.
#[derive(Clone, Copy, Debug, PartialEq, Eq, Structural)]
pub enum ImageLayout {
    Undefined,
    General,
    ColorAttachmentOptimal,
    DepthStencilAttachmentOptimal,
    ShaderReadOnlyOptimal,
    TransferSrcOptimal,
    TransferDstOptimal,
    PresentSrc,
}

/// Pipeline stages that bound the scheduler's synchronization scopes.
#[derive(Clone, Copy, Debug, PartialEq, Eq, Structural)]
pub enum PipelineStage {
    NoStage,
    ColorAttachmentOutput,
    EarlyFragmentTests,
    FragmentShader,
    ComputeShader,
    Transfer,
    AllCommands,
}

/// Memory access kinds named by a barrier.
#[derive(Clone, Copy, Debug, PartialEq, Eq, Structural)]
pub enum AccessKind {
    NoAccess,
    ColorAttachmentWrite,
    DepthStencilAttachmentWrite,
    ShaderRead,
    ShaderStorageRead,
    ShaderStorageWrite,
    TransferRead,
    TransferWrite,
    MemoryWrite,
}

impl ResourceUsage {
    /// The fixed usage table, stage and access columns.
    pub open spec fn spec_stage_and_access(self) -> (PipelineStage, AccessKind) {
        match self {
            ResourceUsage::ColorAttachment => (
                PipelineStage::ColorAttachmentOutput,
                AccessKind::ColorAttachmentWrite,
            ),
            ResourceUsage::DepthStencilAttachment => (
                PipelineStage::EarlyFragmentTests,
                AccessKind::DepthStencilAttachmentWrite,
            ),
            ResourceUsage::DepthStencilResolve => (
                PipelineStage::ColorAttachmentOutput,
                AccessKind::ColorAttachmentWrite,
            ),
            ResourceUsage::ShaderRead => (PipelineStage::FragmentShader, AccessKind::ShaderRead),
            ResourceUsage::StorageRead => (
                PipelineStage::ComputeShader,
                AccessKind::ShaderStorageRead,
            ),
            ResourceUsage::StorageWrite => (
                PipelineStage::ComputeShader,
                AccessKind::ShaderStorageWrite,
            ),
            ResourceUsage::TransferSrc => (PipelineStage::Transfer, AccessKind::TransferRead),
            ResourceUsage::TransferDst => (PipelineStage::Transfer, AccessKind::TransferWrite),
            ResourceUsage::Present => (PipelineStage::NoStage, AccessKind::NoAccess),
        }
    }

    /// The fixed usage table, layout column.
    pub open spec fn spec_layout(self) -> ImageLayout {
        match self {
            ResourceUsage::ColorAttachment => ImageLayout::ColorAttachmentOptimal,
            ResourceUsage::DepthStencilAttachment => ImageLayout::DepthStencilAttachmentOptimal,
            ResourceUsage::DepthStencilResolve => ImageLayout::DepthStencilAttachmentOptimal,
            ResourceUsage::ShaderRead => ImageLayout::ShaderReadOnlyOptimal,
            ResourceUsage::StorageRead => ImageLayout::General,
            ResourceUsage::StorageWrite => ImageLayout::General,
            ResourceUsage::TransferSrc => ImageLayout::TransferSrcOptimal,
            ResourceUsage::TransferDst => ImageLayout::TransferDstOptimal,
            ResourceUsage::Present => ImageLayout::PresentSrc,
        }
    }

    /// Look up the pipeline stage and access kind this usage requires.
    /// The table is total: every usage value has exactly one entry.
    pub fn get_stage_and_access(self) -> (r: (PipelineStage, AccessKind))
        ensures
            r == self.spec_stage_and_access(),
    {
        match self {
            ResourceUsage::ColorAttachment => (
                PipelineStage::ColorAttachmentOutput,
                AccessKind::ColorAttachmentWrite,
            ),
            ResourceUsage::DepthStencilAttachment => (
                PipelineStage::EarlyFragmentTests,
                AccessKind::DepthStencilAttachmentWrite,
            ),
            ResourceUsage::DepthStencilResolve => (
                PipelineStage::ColorAttachmentOutput,
                AccessKind::ColorAttachmentWrite,
            ),
            ResourceUsage::ShaderRead => (PipelineStage::FragmentShader, AccessKind::ShaderRead),
            ResourceUsage::StorageRead => (
                PipelineStage::ComputeShader,
                AccessKind::ShaderStorageRead,
            ),
            ResourceUsage::StorageWrite => (
                PipelineStage::ComputeShader,
                AccessKind::ShaderStorageWrite,
            ),
            ResourceUsage::TransferSrc => (PipelineStage::Transfer, AccessKind::TransferRead),
            ResourceUsage::TransferDst => (PipelineStage::Transfer, AccessKind::TransferWrite),
            ResourceUsage::Present => (PipelineStage::NoStage, AccessKind::NoAccess),
        }
    }

    /// Look up the image layout this usage requires.
    pub fn get_layout(self) -> (r: ImageLayout)
        ensures
            r == self.spec_layout(),
    {
        match self {
            ResourceUsage::ColorAttachment => ImageLayout::ColorAttachmentOptimal,
            ResourceUsage::DepthStencilAttachment => ImageLayout::DepthStencilAttachmentOptimal,
            ResourceUsage::DepthStencilResolve => ImageLayout::DepthStencilAttachmentOptimal,
            ResourceUsage::ShaderRead => ImageLayout::ShaderReadOnlyOptimal,
            ResourceUsage::StorageRead => ImageLayout::General,
            ResourceUsage::StorageWrite => ImageLayout::General,
            ResourceUsage::TransferSrc => ImageLayout::TransferSrcOptimal,
            ResourceUsage::TransferDst => ImageLayout::TransferDstOptimal,
            ResourceUsage::Present => ImageLayout::PresentSrc,
        }
    }
}

/// Opaque, monotonically issued identity of a logical resource. Stable
/// across surface recreation; unique for the lifetime of one graph.
#[derive(Clone, Copy, Debug, PartialEq, Eq, Hash, Structural)]
pub struct ResourceHandle(pub usize);

/// Everything the scheduler reads of one backing image: the device handles
/// it passes through to barriers and attachments, and the geometry it bases
/// decisions on.
#[derive(Clone, Copy, Debug, PartialEq, Eq, Structural)]
pub struct ImageRef {
    /// Device handle of the image itself, passed through to barriers.
    pub image: u64,
    /// Device handle of the image's view, passed through to attachments.
    pub view: u64,
    /// Mip chain length, passed through to barriers.
    pub mip_levels: u32,
    /// Width in pixels; the render area is taken from the first qualifying
    /// attachment.
    pub width: u32,
    /// Height in pixels.
    pub height: u32,
}

/// Everything the scheduler reads of one backing buffer.
#[derive(Clone, Copy, Debug, PartialEq, Eq, Structural)]
pub struct BufferRef {
    /// Device handle of the buffer.
    pub buffer: u64,
}

/// What a logical handle currently resolves to.
pub enum ResourceType {
    /// The presentation-surface image for the current frame only; replaced
    /// at every acquisition.
    SwapchainImage(ImageRef),
    /// One backing image per frame in flight.
    Image(Vec<ImageRef>),
    /// One backing buffer per frame in flight.
    Buffer(Vec<BufferRef>),
}

impl ResourceType {
    /// A multi-buffered resource carries exactly one backing copy per frame
    /// in flight.
    pub open spec fn wf(self) -> bool {
        match self {
            ResourceType::SwapchainImage(_) => true,
            ResourceType::Image(images) => images@.len() == FRAMES_IN_FLIGHT,
            ResourceType::Buffer(buffers) => buffers@.len() == FRAMES_IN_FLIGHT,
        }
    }

    /// Whether this resource is an image (and so carries a layout).
    pub open spec fn is_image(self) -> bool {
        match self {
            ResourceType::SwapchainImage(_) => true,
            ResourceType::Image(_) => true,
            ResourceType::Buffer(_) => false,
        }
    }
}

/// Queue family value meaning "no ownership transfer".
pub const QUEUE_FAMILY_IGNORED: u32 = 0xffff_ffff;

/// A physical resource with its last-known synchronization state. The
/// tracked fields describe GPU-visible state as of the end of the most
/// recently executed pass, never a prediction of future state.
#[verifier::ext_equal]
pub struct PhysicalResource {
    pub handle: ResourceHandle,
    pub name: String,
    pub resource: ResourceType,
    pub current_layout: ImageLayout,
    pub current_stage: PipelineStage,
    pub current_queue_family: u32,
}

impl PhysicalResource {
    /// Backing copies match the frames in flight.
    pub open spec fn wf(self) -> bool {
        self.resource.wf()
    }

    /// Tracked state is fully reset: nothing is known of the resource's
    /// GPU-visible state.
    pub open spec fn state_undefined(self) -> bool {
        &&& self.current_layout == ImageLayout::Undefined
        &&& self.current_stage == PipelineStage::NoStage
        &&& self.current_queue_family == QUEUE_FAMILY_IGNORED
    }

    /// Wrap the presentation image acquired for the current frame; tracked
    /// state starts undefined.
    pub fn new_swapchain_image(handle: ResourceHandle, name: String, image: ImageRef) -> (r: Self)
        ensures
            r.handle == handle,
            r.name == name,
            r.resource == ResourceType::SwapchainImage(image),
            r.state_undefined(),
            r.wf(),
    {
        Self {
            handle,
            name,
            resource: ResourceType::SwapchainImage(image),
            current_layout: ImageLayout::Undefined,
            current_stage: PipelineStage::NoStage,
            current_queue_family: QUEUE_FAMILY_IGNORED,
        }
    }

    /// Wrap one multi-buffered image; tracked state starts undefined.
    pub fn new_image(handle: ResourceHandle, name: String, images: Vec<ImageRef>) -> (r: Self)
        requires
            images@.len() == FRAMES_IN_FLIGHT,
        ensures
            r.handle == handle,
            r.name == name,
            r.resource == ResourceType::Image(images),
            r.state_undefined(),
            r.wf(),
    {
        Self {
            handle,
            name,
            resource: ResourceType::Image(images),
            current_layout: ImageLayout::Undefined,
            current_stage: PipelineStage::NoStage,
            current_queue_family: QUEUE_FAMILY_IGNORED,
        }
    }

    /// Wrap one multi-buffered buffer; tracked state starts undefined.
    pub fn new_buffer(handle: ResourceHandle, name: String, buffers: Vec<BufferRef>) -> (r: Self)
        requires
            buffers@.len() == FRAMES_IN_FLIGHT,
        ensures
            r.handle == handle,
            r.name == name,
            r.resource == ResourceType::Buffer(buffers),
            r.state_undefined(),
            r.wf(),
    {
        Self {
            handle,
            name,
            resource: ResourceType::Buffer(buffers),
            current_layout: ImageLayout::Undefined,
            current_stage: PipelineStage::NoStage,
            current_queue_family: QUEUE_FAMILY_IGNORED,
        }
    }
}

} // verus!
