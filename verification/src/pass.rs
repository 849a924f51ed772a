//! Declared render passes: per-use attachment configuration and the
//! derivation of rendering-scope attachment descriptors from declared
//! outputs.

use vstd::prelude::*;

use crate::resource::{ImageLayout, ResourceHandle, ResourceUsage};

verus! {

/// What a rendering scope does with an attachment's prior contents.
#[derive(Clone, Copy, Debug, PartialEq, Eq, Structural)]
pub enum AttachmentLoadOp {
    Clear,
    Load,
    DontCare,
}

/// What a rendering scope does with an attachment's results.
#[derive(Clone, Copy, Debug, PartialEq, Eq, Structural)]
pub enum AttachmentStoreOp {
    Store,
    DontCare,
}

/// How a multisampled attachment is resolved into its resolve target:
/// color attachments average their samples, depth attachments keep the
/// maximum.
#[derive(Clone, Copy, Debug, PartialEq, Eq, Structural)]
pub enum ResolveMode {
    Average,
    Max,
}

/// A clear value, held as raw bit patterns so the scheduler stays free of
/// floating-point arithmetic; the renderer reinterprets the bits.
#[derive(Clone, Copy, Debug, PartialEq, Eq, Structural)]
pub enum ClearValue {
    /// Four color channel values, each the bit pattern of one binary32.
    Color { r_bits: u32, g_bits: u32, b_bits: u32, a_bits: u32 },
    /// A depth value (the bit pattern of one binary32) and a stencil value.
    DepthStencil { depth_bits: u32, stencil: u32 },
}

/// Bit pattern of the flat background color channel (binary32 0.0065).
pub const DEFAULT_CLEAR_CHANNEL_BITS: u32 = 0x3bd4_fdf4;

/// Bit pattern of binary32 1.0: full alpha, and the far depth plane.
pub const ONE_BITS: u32 = 0x3f80_0000;

impl ClearValue {
    /// The default clear for color attachments: the flat background color.
    pub open spec fn spec_background() -> ClearValue {
        ClearValue::Color {
            r_bits: DEFAULT_CLEAR_CHANNEL_BITS,
            g_bits: DEFAULT_CLEAR_CHANNEL_BITS,
            b_bits: DEFAULT_CLEAR_CHANNEL_BITS,
            a_bits: ONE_BITS,
        }
    }

    /// The default clear for depth attachments: the far depth plane,
    /// stencil zero.
    pub open spec fn spec_far_depth() -> ClearValue {
        ClearValue::DepthStencil { depth_bits: ONE_BITS, stencil: 0 }
    }

    /// Build the background color clear.
    pub fn background() -> (r: ClearValue)
        ensures
            r == ClearValue::spec_background(),
    {
        ClearValue::Color {
            r_bits: DEFAULT_CLEAR_CHANNEL_BITS,
            g_bits: DEFAULT_CLEAR_CHANNEL_BITS,
            b_bits: DEFAULT_CLEAR_CHANNEL_BITS,
            a_bits: ONE_BITS,
        }
    }

    /// Build the far-depth clear.
    pub fn far_depth() -> (r: ClearValue)
        ensures
            r == ClearValue::spec_far_depth(),
    {
        ClearValue::DepthStencil { depth_bits: ONE_BITS, stencil: 0 }
    }
}

/// Load/store behavior and clear value for one declared attachment.
#[derive(Clone, Copy, Debug, PartialEq, Eq, Structural)]
pub struct AttachmentConfig {
    pub load_op: AttachmentLoadOp,
    pub store_op: AttachmentStoreOp,
    pub clear_value: ClearValue,
}

impl AttachmentConfig {
    /// Clear on load, keep on store, background color.
    pub open spec fn spec_default() -> AttachmentConfig {
        AttachmentConfig {
            load_op: AttachmentLoadOp::Clear,
            store_op: AttachmentStoreOp::Store,
            clear_value: ClearValue::spec_background(),
        }
    }

    /// The usage-appropriate default: background color everywhere, except
    /// the far-depth clear for depth-stencil attachments.
    pub open spec fn spec_default_for(usage: ResourceUsage) -> AttachmentConfig {
        if usage == ResourceUsage::DepthStencilAttachment {
            AttachmentConfig {
                clear_value: ClearValue::spec_far_depth(),
                ..AttachmentConfig::spec_default()
            }
        } else {
            AttachmentConfig::spec_default()
        }
    }

    /// Build the usage-appropriate default configuration.
    pub fn default_for(usage: ResourceUsage) -> (r: AttachmentConfig)
        ensures
            r == AttachmentConfig::spec_default_for(usage),
    {
        let clear_value = if usage == ResourceUsage::DepthStencilAttachment {
            ClearValue::far_depth()
        } else {
            ClearValue::background()
        };
        AttachmentConfig {
            load_op: AttachmentLoadOp::Clear,
            store_op: AttachmentStoreOp::Store,
            clear_value,
        }
    }
}

impl Default for AttachmentConfig {
    /// Clear on load, keep on store, background color.
    fn default() -> (r: Self)
        ensures
            r == AttachmentConfig::spec_default(),
    {
        AttachmentConfig {
            load_op: AttachmentLoadOp::Clear,
            store_op: AttachmentStoreOp::Store,
            clear_value: ClearValue::background(),
        }
    }
}

/// One declared use-site of a resource by a pass: the handle, how it is
/// used, an optional resolve target, whether the previous frame's physical
/// slot is consumed instead of the current one, and the attachment
/// configuration applied if the use opens an attachment.
#[derive(Clone, Copy, Debug, PartialEq, Eq, Structural)]
pub struct RenderPassResource {
    pub handle: ResourceHandle,
    pub usage: ResourceUsage,
    pub resolve_target: Option<ResourceHandle>,
    pub is_temporal: bool,
    pub config: AttachmentConfig,
}

impl RenderPassResource {
    /// Declare a plain use of `handle` as `usage`, with the
    /// usage-appropriate default attachment configuration.
    pub fn new(handle: ResourceHandle, usage: ResourceUsage) -> (r: Self)
        ensures
            r == (RenderPassResource {
                handle,
                usage,
                resolve_target: None,
                is_temporal: false,
                config: AttachmentConfig::spec_default_for(usage),
            }),
    {
        Self {
            handle,
            usage,
            resolve_target: None,
            is_temporal: false,
            config: AttachmentConfig::default_for(usage),
        }
    }

    /// Declare a use of `handle` as `usage` whose result is resolved into
    /// `resolve`.
    pub fn with_resolve(handle: ResourceHandle, usage: ResourceUsage, resolve: ResourceHandle) -> (r:
        Self)
        ensures
            r == (RenderPassResource {
                handle,
                usage,
                resolve_target: Some(resolve),
                is_temporal: false,
                config: AttachmentConfig::spec_default_for(usage),
            }),
    {
        Self {
            handle,
            usage,
            resolve_target: Some(resolve),
            is_temporal: false,
            config: AttachmentConfig::default_for(usage),
        }
    }

    /// Declare a temporal use: the previous frame's physical slot, index
    /// `(current + FRAMES_IN_FLIGHT - 1) % FRAMES_IN_FLIGHT`, is consumed
    /// instead of the current one.
    pub fn temporal(handle: ResourceHandle, usage: ResourceUsage) -> (r: Self)
        ensures
            r == (RenderPassResource {
                handle,
                usage,
                resolve_target: None,
                is_temporal: true,
                config: AttachmentConfig::spec_default(),
            }),
    {
        Self {
            handle,
            usage,
            resolve_target: None,
            is_temporal: true,
            config: AttachmentConfig::default(),
        }
    }

    /// Replace the load behavior.
    pub fn set_load_op(self, op: AttachmentLoadOp) -> (r: Self)
        ensures
            r == (RenderPassResource { config: (AttachmentConfig { load_op: op, ..self.config }), ..self }),
    {
        let mut next = self;
        next.config.load_op = op;
        next
    }

    /// Replace the store behavior.
    pub fn set_store_op(self, op: AttachmentStoreOp) -> (r: Self)
        ensures
            r == (RenderPassResource { config: (AttachmentConfig { store_op: op, ..self.config }), ..self }),
    {
        let mut next = self;
        next.config.store_op = op;
        next
    }

    /// Replace the clear value with a color clear (channel bit patterns).
    pub fn set_clear_color(self, r_bits: u32, g_bits: u32, b_bits: u32, a_bits: u32) -> (r: Self)
        ensures
            r == (RenderPassResource {
                config: (AttachmentConfig {
                    clear_value: ClearValue::Color { r_bits, g_bits, b_bits, a_bits },
                    ..self.config
                }),
                ..self
            }),
    {
        let mut next = self;
        next.config.clear_value = ClearValue::Color { r_bits, g_bits, b_bits, a_bits };
        next
    }

    /// Replace the clear value with a depth-stencil clear (depth bit
    /// pattern and stencil value).
    pub fn set_clear_depth(self, depth_bits: u32, stencil: u32) -> (r: Self)
        ensures
            r == (RenderPassResource {
                config: (AttachmentConfig {
                    clear_value: ClearValue::DepthStencil { depth_bits, stencil },
                    ..self.config
                }),
                ..self
            }),
    {
        let mut next = self;
        next.config.clear_value = ClearValue::DepthStencil { depth_bits, stencil };
        next
    }
}

/// A rendering-scope attachment descriptor, fully derived from a declared
/// output: the bound image view, its layout while attached, load/store
/// behavior, the clear value, and, if the output resolves, the resolve
/// binding.
#[derive(Clone, Copy, Debug, PartialEq, Eq, Structural)]
pub struct AttachmentInfo {
    pub view: u64,
    pub layout: ImageLayout,
    pub load_op: AttachmentLoadOp,
    pub store_op: AttachmentStoreOp,
    pub clear_value: ClearValue,
    pub resolve: Option<ResolveBinding>,
}

/// The resolve half of an attachment descriptor: where the resolved samples
/// land, in what layout, and by what mode.
#[derive(Clone, Copy, Debug, PartialEq, Eq, Structural)]
pub struct ResolveBinding {
    pub view: u64,
    pub layout: ImageLayout,
    pub mode: ResolveMode,
}

impl RenderPassResource {
    /// The color attachment descriptor this use derives: color-attachment
    /// layout, and, if a resolve view is bound, averaging resolve in
    /// color-attachment layout.
    pub open spec fn spec_color_attachment_info(self, view: u64, resolve_view: Option<u64>) -> AttachmentInfo {
        AttachmentInfo {
            view,
            layout: ImageLayout::ColorAttachmentOptimal,
            load_op: self.config.load_op,
            store_op: self.config.store_op,
            clear_value: self.config.clear_value,
            resolve: match resolve_view {
                Some(rv) => Some(
                    ResolveBinding {
                        view: rv,
                        layout: ImageLayout::ColorAttachmentOptimal,
                        mode: ResolveMode::Average,
                    },
                ),
                None => None,
            },
        }
    }

    /// The depth attachment descriptor this use derives: depth-stencil
    /// layout, and, if a resolve view is bound, maximum resolve in
    /// depth-stencil layout.
    pub open spec fn spec_depth_attachment_info(self, view: u64, resolve_view: Option<u64>) -> AttachmentInfo {
        AttachmentInfo {
            view,
            layout: ImageLayout::DepthStencilAttachmentOptimal,
            load_op: self.config.load_op,
            store_op: self.config.store_op,
            clear_value: self.config.clear_value,
            resolve: match resolve_view {
                Some(rv) => Some(
                    ResolveBinding {
                        view: rv,
                        layout: ImageLayout::DepthStencilAttachmentOptimal,
                        mode: ResolveMode::Max,
                    },
                ),
                None => None,
            },
        }
    }

    /// Build the color attachment descriptor for this use. A bound resolve
    /// view always resolves by averaging.
    pub fn create_color_attachment_info(&self, view: u64, resolve_view: Option<u64>) -> (r:
        AttachmentInfo)
        ensures
            r == self.spec_color_attachment_info(view, resolve_view),
    {
        AttachmentInfo {
            view,
            layout: ImageLayout::ColorAttachmentOptimal,
            load_op: self.config.load_op,
            store_op: self.config.store_op,
            clear_value: self.config.clear_value,
            resolve: match resolve_view {
                Some(rv) => Some(
                    ResolveBinding {
                        view: rv,
                        layout: ImageLayout::ColorAttachmentOptimal,
                        mode: ResolveMode::Average,
                    },
                ),
                None => None,
            },
        }
    }

    /// Build the depth attachment descriptor for this use. A bound resolve
    /// view always resolves by maximum.
    pub fn create_depth_attachment_info(&self, view: u64, resolve_view: Option<u64>) -> (r:
        AttachmentInfo)
        ensures
            r == self.spec_depth_attachment_info(view, resolve_view),
    {
        AttachmentInfo {
            view,
            layout: ImageLayout::DepthStencilAttachmentOptimal,
            load_op: self.config.load_op,
            store_op: self.config.store_op,
            clear_value: self.config.clear_value,
            resolve: match resolve_view {
                Some(rv) => Some(
                    ResolveBinding {
                        view: rv,
                        layout: ImageLayout::DepthStencilAttachmentOptimal,
                        mode: ResolveMode::Max,
                    },
                ),
                None => None,
            },
        }
    }
}

/// A declared pass: a name, ordered input uses, ordered output uses, and an
/// opaque executor token the surrounding program maps to the pass body.
/// Pass order is caller-declared; the scheduler never reorders passes.
pub struct RenderPass {
    pub name: String,
    pub inputs: Vec<RenderPassResource>,
    pub outputs: Vec<RenderPassResource>,
    /// Capability token for the pass body; the scheduler never interprets
    /// it, it only hands it back when the pass is to run.
    pub executor: u64,
}

impl RenderPass {
    /// Declare a pass.
    pub fn new(
        name: String,
        inputs: Vec<RenderPassResource>,
        outputs: Vec<RenderPassResource>,
        executor: u64,
    ) -> (r: Self)
        ensures
            r.name == name,
            r.inputs == inputs,
            r.outputs == outputs,
            r.executor == executor,
    {
        Self { name, inputs, outputs, executor }
    }
}

} // verus!
