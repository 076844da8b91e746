//! The fixed descriptions of the objects the construction creates: the
//! command pool's capacity, the render pass and the graphics pipeline.
use crate::format::FormatChoice;
use vstd::prelude::*;

verus! {

/// Number of command buffers the command pool can hand out at once.
pub const COMMAND_POOL_CAPACITY: usize = 16;

/// What happens to an attachment's contents when a render pass begins.
#[derive(Clone, Copy, Debug, PartialEq, Eq, Structural)]
pub enum LoadOp {
    Load,
    Clear,
    DontCare,
}

/// What happens to an attachment's contents when a render pass ends.
#[derive(Clone, Copy, Debug, PartialEq, Eq, Structural)]
pub enum StoreOp {
    Store,
    DontCare,
}

/// Layout of an image in memory.
#[derive(Clone, Copy, Debug, PartialEq, Eq, Structural)]
pub enum ImageLayout {
    Undefined,
    ColorAttachmentOptimal,
    Present,
}

/// A point in the pipeline that a dependency waits on or blocks.
#[derive(Clone, Copy, Debug, PartialEq, Eq, Structural)]
pub enum PipelineStageKind {
    TopOfPipe,
    ColorAttachmentOutput,
    BottomOfPipe,
}

/// The render pass: one colour attachment in the surface format, cleared
/// on load and stored at the end, taken from an undefined layout to the
/// presentable one; one subpass that writes it (attachment 0) as its only
/// colour target, with no depth or stencil attachment and no input, resolve
/// or preserved attachments; and one dependency from outside the pass into
/// that subpass, from colour-attachment output to colour-attachment output,
/// from no access to colour-attachment reads and writes.
#[derive(Clone, Copy, Debug, PartialEq, Eq, Structural)]
pub struct RenderPassPlan {
    pub format: FormatChoice,
    pub color_attachments: usize,
    pub samples: u8,
    pub load: LoadOp,
    pub store: StoreOp,
    pub stencil_load: LoadOp,
    pub stencil_store: StoreOp,
    pub initial_layout: ImageLayout,
    pub final_layout: ImageLayout,
    pub subpasses: usize,
    pub subpass_color_attachment: usize,
    pub subpass_color_layout: ImageLayout,
    pub depth_stencil: bool,
    pub subpass_inputs: usize,
    pub subpass_resolves: usize,
    pub subpass_preserves: usize,
    pub dependencies: usize,
    pub dependency_from_external: bool,
    pub dependency_target_subpass: usize,
    pub dependency_src_stage: PipelineStageKind,
    pub dependency_dst_stage: PipelineStageKind,
    pub dependency_src_color_read: bool,
    pub dependency_src_color_write: bool,
    pub dependency_dst_color_read: bool,
    pub dependency_dst_color_write: bool,
}

/// How vertices are assembled into primitives.
#[derive(Clone, Copy, Debug, PartialEq, Eq, Structural)]
pub enum Topology {
    PointList,
    LineList,
    TriangleList,
}

/// How primitives are rasterized.
#[derive(Clone, Copy, Debug, PartialEq, Eq, Structural)]
pub enum PolygonMode {
    Fill,
    Line,
    Point,
}

/// How a fragment is blended into its colour target.
#[derive(Clone, Copy, Debug, PartialEq, Eq, Structural)]
pub enum BlendMode {
    Replace,
    Alpha,
}

/// The graphics pipeline: the two shader stages, triangle lists, filled
/// polygons, alpha blending on the single colour target, no descriptor sets
/// and no push constants, bound to the first subpass of the render pass.
#[derive(Clone, Copy, Debug, PartialEq, Eq, Structural)]
pub struct PipelinePlan {
    pub subpass: usize,
    pub topology: Topology,
    pub polygon_mode: PolygonMode,
    pub color_targets: usize,
    pub blend: BlendMode,
    pub descriptor_sets: usize,
    pub push_constants: usize,
    pub has_fragment_stage: bool,
}

pub open spec fn spec_render_pass_plan(format: FormatChoice) -> RenderPassPlan {
    RenderPassPlan {
        format,
        color_attachments: 1,
        samples: 1,
        load: LoadOp::Clear,
        store: StoreOp::Store,
        stencil_load: LoadOp::DontCare,
        stencil_store: StoreOp::DontCare,
        initial_layout: ImageLayout::Undefined,
        final_layout: ImageLayout::Present,
        subpasses: 1,
        subpass_color_attachment: 0,
        subpass_color_layout: ImageLayout::ColorAttachmentOptimal,
        depth_stencil: false,
        subpass_inputs: 0,
        subpass_resolves: 0,
        subpass_preserves: 0,
        dependencies: 1,
        dependency_from_external: true,
        dependency_target_subpass: 0,
        dependency_src_stage: PipelineStageKind::ColorAttachmentOutput,
        dependency_dst_stage: PipelineStageKind::ColorAttachmentOutput,
        dependency_src_color_read: false,
        dependency_src_color_write: false,
        dependency_dst_color_read: true,
        dependency_dst_color_write: true,
    }
}

pub open spec fn spec_pipeline_plan() -> PipelinePlan {
    PipelinePlan {
        subpass: 0,
        topology: Topology::TriangleList,
        polygon_mode: PolygonMode::Fill,
        color_targets: 1,
        blend: BlendMode::Alpha,
        descriptor_sets: 0,
        push_constants: 0,
        has_fragment_stage: true,
    }
}

/// The render pass for a surface presented in `format`.
pub fn render_pass_plan(format: FormatChoice) -> (r: RenderPassPlan)
    ensures
        r == spec_render_pass_plan(format),
{
    RenderPassPlan {
        format,
        color_attachments: 1,
        samples: 1,
        load: LoadOp::Clear,
        store: StoreOp::Store,
        stencil_load: LoadOp::DontCare,
        stencil_store: StoreOp::DontCare,
        initial_layout: ImageLayout::Undefined,
        final_layout: ImageLayout::Present,
        subpasses: 1,
        subpass_color_attachment: 0,
        subpass_color_layout: ImageLayout::ColorAttachmentOptimal,
        depth_stencil: false,
        subpass_inputs: 0,
        subpass_resolves: 0,
        subpass_preserves: 0,
        dependencies: 1,
        dependency_from_external: true,
        dependency_target_subpass: 0,
        dependency_src_stage: PipelineStageKind::ColorAttachmentOutput,
        dependency_dst_stage: PipelineStageKind::ColorAttachmentOutput,
        dependency_src_color_read: false,
        dependency_src_color_write: false,
        dependency_dst_color_read: true,
        dependency_dst_color_write: true,
    }
}

/// The graphics pipeline's fixed configuration.
pub fn pipeline_plan() -> (r: PipelinePlan)
    ensures
        r == spec_pipeline_plan(),
{
    PipelinePlan {
        subpass: 0,
        topology: Topology::TriangleList,
        polygon_mode: PolygonMode::Fill,
        color_targets: 1,
        blend: BlendMode::Alpha,
        descriptor_sets: 0,
        push_constants: 0,
        has_fragment_stage: true,
    }
}

/// Name of the function each shader module is entered through.
pub fn shader_entry() -> (r: &'static str)
    ensures
        r@ == "main"@,
{
    "main"
}

} // verus!
