//! The render pass, the fixed graphics pipeline and the framebuffers.
//!
//! Where the device takes a floating-point number (the viewport, the line
//! width), the descriptions hold the whole number that it is given.

use vstd::prelude::*;
use crate::base::data::{Extent2D, SwapchainData};
use crate::base::teardown::{StepKind, TeardownStep};
use crate::error::Error;
use crate::util::constants::SHADER_MAIN;
use crate::util::{Bytecode, valid_bytecode_len, words_of};

verus! {

/// Samples per pixel.
#[derive(Clone, Copy, Debug, PartialEq, Eq, Structural)]
pub enum SampleCount {
    Type1,
    Type2,
    Type4,
    Type8,
}

/// What happens to an attachment's contents when a render pass begins.
#[derive(Clone, Copy, Debug, PartialEq, Eq, Structural)]
pub enum AttachmentLoadOp {
    Load,
    Clear,
    DontCare,
}

/// What happens to an attachment's contents when a render pass ends.
#[derive(Clone, Copy, Debug, PartialEq, Eq, Structural)]
pub enum AttachmentStoreOp {
    Store,
    DontCare,
}

/// The layouts of an image that the renderer names.
#[derive(Clone, Copy, Debug, PartialEq, Eq, Structural)]
pub enum ImageLayout {
    Undefined,
    General,
    ColorAttachmentOptimal,
    PresentSrc,
}

/// The kind of pipeline that a subpass or a command buffer binds.
#[derive(Clone, Copy, Debug, PartialEq, Eq, Structural)]
pub enum PipelineBindPoint {
    Graphics,
    Compute,
}

/// The pipeline stages that the renderer synchronises on.
#[derive(Clone, Copy, Debug, PartialEq, Eq, Structural)]
pub enum PipelineStage {
    TopOfPipe,
    ColorAttachmentOutput,
    BottomOfPipe,
}

/// The kinds of memory access that a dependency orders.
#[derive(Clone, Copy, Debug, PartialEq, Eq, Structural)]
pub enum Access {
    /// No access at all.
    Empty,
    ColorAttachmentRead,
    ColorAttachmentWrite,
}

/// A subpass of the render pass, or whatever runs outside of it.
#[derive(Clone, Copy, Debug, PartialEq, Eq, Structural)]
pub enum Subpass {
    External,
    Index(u32),
}

#[derive(Clone, Copy, Debug, PartialEq, Eq, Structural)]
pub struct AttachmentDescription {
    pub format: i32,
    pub samples: SampleCount,
    pub load_op: AttachmentLoadOp,
    pub store_op: AttachmentStoreOp,
    pub stencil_load_op: AttachmentLoadOp,
    pub stencil_store_op: AttachmentStoreOp,
    pub initial_layout: ImageLayout,
    pub final_layout: ImageLayout,
}

#[derive(Clone, Copy, Debug, PartialEq, Eq, Structural)]
pub struct AttachmentReference {
    pub attachment: u32,
    pub layout: ImageLayout,
}

#[derive(Debug, PartialEq, Eq)]
pub struct SubpassDescription {
    pub pipeline_bind_point: PipelineBindPoint,
    pub color_attachments: Vec<AttachmentReference>,
}

#[derive(Clone, Copy, Debug, PartialEq, Eq, Structural)]
pub struct SubpassDependency {
    pub src_subpass: Subpass,
    pub dst_subpass: Subpass,
    pub src_stage_mask: PipelineStage,
    pub src_access_mask: Access,
    pub dst_stage_mask: PipelineStage,
    pub dst_access_mask: Access,
}

/// The render pass that is asked for.
#[derive(Debug, PartialEq, Eq)]
pub struct RenderPassCreateInfo {
    pub attachments: Vec<AttachmentDescription>,
    pub subpasses: Vec<SubpassDescription>,
    pub dependencies: Vec<SubpassDependency>,
}

/// The colour attachment: single-sampled, cleared when the pass begins,
/// kept when it ends, coming from anywhere, left ready to be presented.
pub open spec fn color_attachment(format: i32) -> AttachmentDescription {
    AttachmentDescription {
        format,
        samples: SampleCount::Type1,
        load_op: AttachmentLoadOp::Clear,
        store_op: AttachmentStoreOp::Store,
        stencil_load_op: AttachmentLoadOp::DontCare,
        stencil_store_op: AttachmentStoreOp::DontCare,
        initial_layout: ImageLayout::Undefined,
        final_layout: ImageLayout::PresentSrc,
    }
}

/// The dependency that lets the subpass write its colour output only after
/// whatever came before the pass has passed that stage.
pub open spec fn external_dependency() -> SubpassDependency {
    SubpassDependency {
        src_subpass: Subpass::External,
        dst_subpass: Subpass::Index(0),
        src_stage_mask: PipelineStage::ColorAttachmentOutput,
        src_access_mask: Access::Empty,
        dst_stage_mask: PipelineStage::ColorAttachmentOutput,
        dst_access_mask: Access::ColorAttachmentWrite,
    }
}

/// Describes the render pass: one colour attachment in the swapchain's
/// format, one graphics subpass that draws into it, one dependency on what
/// runs before the pass.
pub fn create_render_pass(swapchain_data: &SwapchainData) -> (r: RenderPassCreateInfo)
    ensures
        r.attachments@ == seq![color_attachment(swapchain_data.format)],
        r.subpasses@.len() == 1,
        r.subpasses@[0].pipeline_bind_point == PipelineBindPoint::Graphics,
        r.subpasses@[0].color_attachments@ == seq![
            AttachmentReference { attachment: 0, layout: ImageLayout::ColorAttachmentOptimal },
        ],
        r.dependencies@ == seq![external_dependency()],
{
    let mut attachments: Vec<AttachmentDescription> = Vec::new();
    attachments.push(
        AttachmentDescription {
            format: swapchain_data.format,
            samples: SampleCount::Type1,
            load_op: AttachmentLoadOp::Clear,
            store_op: AttachmentStoreOp::Store,
            stencil_load_op: AttachmentLoadOp::DontCare,
            stencil_store_op: AttachmentStoreOp::DontCare,
            initial_layout: ImageLayout::Undefined,
            final_layout: ImageLayout::PresentSrc,
        },
    );
    let mut color_attachments: Vec<AttachmentReference> = Vec::new();
    color_attachments.push(
        AttachmentReference { attachment: 0, layout: ImageLayout::ColorAttachmentOptimal },
    );
    let mut subpasses: Vec<SubpassDescription> = Vec::new();
    subpasses.push(
        SubpassDescription { pipeline_bind_point: PipelineBindPoint::Graphics, color_attachments },
    );
    let mut dependencies: Vec<SubpassDependency> = Vec::new();
    dependencies.push(
        SubpassDependency {
            src_subpass: Subpass::External,
            dst_subpass: Subpass::Index(0),
            src_stage_mask: PipelineStage::ColorAttachmentOutput,
            src_access_mask: Access::Empty,
            dst_stage_mask: PipelineStage::ColorAttachmentOutput,
            dst_access_mask: Access::ColorAttachmentWrite,
        },
    );
    assert(subpasses@[0].color_attachments@ =~= seq![
        AttachmentReference { attachment: 0, layout: ImageLayout::ColorAttachmentOptimal },
    ]);
    RenderPassCreateInfo { attachments, subpasses, dependencies }
}

/// The shader module that is asked for.
#[derive(Debug)]
pub struct ShaderModuleCreateInfo {
    pub code: Bytecode,
}

/// Describes the shader module for a blob of instructions, or refuses the
/// blob if its length is zero or no multiple of four.
pub fn create_shader_module(bytecode: &[u8]) -> (r: Result<ShaderModuleCreateInfo, Error>)
    ensures
        r is Ok <==> valid_bytecode_len(bytecode@.len()),
        r matches Ok(info) ==> info.code@ == words_of(bytecode@),
        r matches Err(e) ==> e == (Error::InvalidBytecode { len: bytecode@.len() as usize }),
{
    match Bytecode::from(bytecode) {
        Ok(code) => Ok(ShaderModuleCreateInfo { code }),
        Err(e) => Err(e),
    }
}

/// Describes both shader modules of the pipeline. Either blob being
/// malformed refuses both, before anything is asked of the device; the
/// error names the vertex blob's length if that blob is malformed, else the
/// fragment blob's.
pub fn create_shader_modules(vertex_bytecode: &[u8], fragment_bytecode: &[u8]) -> (r: Result<
    (ShaderModuleCreateInfo, ShaderModuleCreateInfo),
    Error,
>)
    ensures
        r is Ok <==> valid_bytecode_len(vertex_bytecode@.len()) && valid_bytecode_len(
            fragment_bytecode@.len(),
        ),
        r matches Ok(infos) ==> infos.0.code@ == words_of(vertex_bytecode@) && infos.1.code@
            == words_of(fragment_bytecode@),
        r matches Err(e) ==> e == (Error::InvalidBytecode {
            len: if valid_bytecode_len(vertex_bytecode@.len()) {
                fragment_bytecode@.len() as usize
            } else {
                vertex_bytecode@.len() as usize
            },
        }),
{
    let vertex: ShaderModuleCreateInfo = match create_shader_module(vertex_bytecode) {
        Ok(info) => info,
        Err(e) => {
            return Err(e);
        },
    };
    let fragment: ShaderModuleCreateInfo = match create_shader_module(fragment_bytecode) {
        Ok(info) => info,
        Err(e) => {
            return Err(e);
        },
    };
    Ok((vertex, fragment))
}

/// The stage that a shader module serves.
#[derive(Clone, Copy, Debug, PartialEq, Eq, Structural)]
pub enum ShaderStage {
    Vertex,
    Fragment,
}

#[derive(Clone, Copy, Debug, PartialEq, Eq)]
pub struct PipelineShaderStageCreateInfo {
    pub stage: ShaderStage,
    pub module: u64,
    /// The entry point.
    pub name: &'static str,
}

/// How vertices are assembled into primitives.
#[derive(Clone, Copy, Debug, PartialEq, Eq, Structural)]
pub enum PrimitiveTopology {
    PointList,
    LineList,
    LineStrip,
    TriangleList,
    TriangleStrip,
    TriangleFan,
}

#[derive(Clone, Copy, Debug, PartialEq, Eq, Structural)]
pub enum PolygonMode {
    Fill,
    Line,
    Point,
}

#[derive(Clone, Copy, Debug, PartialEq, Eq, Structural)]
pub enum CullMode {
    Disabled,
    Front,
    Back,
    FrontAndBack,
}

#[derive(Clone, Copy, Debug, PartialEq, Eq, Structural)]
pub enum FrontFace {
    CounterClockwise,
    Clockwise,
}

/// The vertex buffers that the pipeline reads: their bindings and
/// attributes, by number.
#[derive(Clone, Copy, Debug, PartialEq, Eq, Structural)]
pub struct VertexInputState {
    pub binding_count: u32,
    pub attribute_count: u32,
}

#[derive(Clone, Copy, Debug, PartialEq, Eq, Structural)]
pub struct InputAssemblyState {
    pub topology: PrimitiveTopology,
    pub primitive_restart_enable: bool,
}

#[derive(Clone, Copy, Debug, PartialEq, Eq, Structural)]
pub struct Viewport {
    pub x: u32,
    pub y: u32,
    pub width: u32,
    pub height: u32,
    pub min_depth: u32,
    pub max_depth: u32,
}

#[derive(Clone, Copy, Debug, PartialEq, Eq, Structural)]
pub struct Offset2D {
    pub x: i32,
    pub y: i32,
}

#[derive(Clone, Copy, Debug, PartialEq, Eq, Structural)]
pub struct Rect2D {
    pub offset: Offset2D,
    pub extent: Extent2D,
}

#[derive(Clone, Copy, Debug, PartialEq, Eq, Structural)]
pub struct RasterizationState {
    pub rasterizer_discard_enable: bool,
    pub polygon_mode: PolygonMode,
    pub line_width: u32,
    pub cull_mode: CullMode,
    pub front_face: FrontFace,
    pub depth_bias_enable: bool,
}

#[derive(Clone, Copy, Debug, PartialEq, Eq, Structural)]
pub struct MultisampleState {
    pub sample_shading_enable: bool,
    pub rasterization_samples: SampleCount,
}

/// The colour channels that are written.
#[derive(Clone, Copy, Debug, PartialEq, Eq, Structural)]
pub struct ColorComponents {
    pub r: bool,
    pub g: bool,
    pub b: bool,
    pub a: bool,
}

#[derive(Clone, Copy, Debug, PartialEq, Eq, Structural)]
pub struct ColorBlendAttachmentState {
    pub color_write_mask: ColorComponents,
    pub blend_enable: bool,
}

/// The pipeline layout that is asked for.
#[derive(Clone, Copy, Debug, PartialEq, Eq, Structural)]
pub struct PipelineLayoutCreateInfo {
    pub set_layout_count: u32,
    pub push_constant_range_count: u32,
}

/// The graphics pipeline that is asked for.
#[derive(Debug, PartialEq, Eq)]
pub struct GraphicsPipelineCreateInfo {
    pub stages: Vec<PipelineShaderStageCreateInfo>,
    pub vertex_input_state: VertexInputState,
    pub input_assembly_state: InputAssemblyState,
    pub viewports: Vec<Viewport>,
    pub scissors: Vec<Rect2D>,
    pub rasterization_state: RasterizationState,
    pub multisample_state: MultisampleState,
    pub logic_op_enable: bool,
    pub color_blend_attachments: Vec<ColorBlendAttachmentState>,
    /// Whether any state is left to be set while commands are recorded.
    pub dynamic_state: bool,
    pub layout: u64,
    pub render_pass: u64,
    pub subpass: u32,
}

/// The viewport that covers an extent, with a depth range from 0 to 0.
pub open spec fn full_viewport(extent: Extent2D) -> Viewport {
    Viewport { x: 0, y: 0, width: extent.width, height: extent.height, min_depth: 0, max_depth: 0 }
}

/// The rectangle that covers an extent.
pub open spec fn full_rect(extent: Extent2D) -> Rect2D {
    Rect2D { offset: Offset2D { x: 0, y: 0 }, extent }
}

/// Filled triangles of line width 1, their back faces culled, the front
/// being the face whose vertices run clockwise.
pub open spec fn fixed_rasterization() -> RasterizationState {
    RasterizationState {
        rasterizer_discard_enable: false,
        polygon_mode: PolygonMode::Fill,
        line_width: 1,
        cull_mode: CullMode::Back,
        front_face: FrontFace::Clockwise,
        depth_bias_enable: false,
    }
}

/// All four channels written as they come, without blending.
pub open spec fn opaque_write() -> ColorBlendAttachmentState {
    ColorBlendAttachmentState {
        color_write_mask: ColorComponents { r: true, g: true, b: true, a: true },
        blend_enable: false,
    }
}

/// Whether `stage` names the given stage and module, entered at the fixed
/// entry point.
pub open spec fn is_stage(
    info: PipelineShaderStageCreateInfo,
    stage: ShaderStage,
    module: u64,
) -> bool {
    info.stage == stage && info.module == module && info.name@ == SHADER_MAIN@
}

/// Describes the empty pipeline layout: no descriptor sets, no push
/// constants.
pub fn create_pipeline_layout() -> (r: PipelineLayoutCreateInfo)
    ensures
        r == (PipelineLayoutCreateInfo { set_layout_count: 0, push_constant_range_count: 0 }),
{
    PipelineLayoutCreateInfo { set_layout_count: 0, push_constant_range_count: 0 }
}

/// Describes the one graphics pipeline: a vertex and a fragment stage, no
/// vertex buffers, triangle lists, viewport and scissor fixed to the
/// swapchain's extent, fixed rasterization, one sample per pixel, opaque
/// writes, no dynamic state, for subpass 0 of the render pass.
pub fn create_pipeline(
    swapchain_data: &SwapchainData,
    render_pass: u64,
    layout: u64,
    vert_shader_module: u64,
    frag_shader_module: u64,
) -> (r: GraphicsPipelineCreateInfo)
    ensures
        r.stages@.len() == 2,
        is_stage(r.stages@[0], ShaderStage::Vertex, vert_shader_module),
        is_stage(r.stages@[1], ShaderStage::Fragment, frag_shader_module),
        r.vertex_input_state == (VertexInputState { binding_count: 0, attribute_count: 0 }),
        r.input_assembly_state == (InputAssemblyState {
            topology: PrimitiveTopology::TriangleList,
            primitive_restart_enable: false,
        }),
        r.viewports@ == seq![full_viewport(swapchain_data.extent)],
        r.scissors@ == seq![full_rect(swapchain_data.extent)],
        r.rasterization_state == fixed_rasterization(),
        r.multisample_state == (MultisampleState {
            sample_shading_enable: false,
            rasterization_samples: SampleCount::Type1,
        }),
        !r.logic_op_enable,
        r.color_blend_attachments@ == seq![opaque_write()],
        !r.dynamic_state,
        r.layout == layout,
        r.render_pass == render_pass,
        r.subpass == 0,
{
    let mut stages: Vec<PipelineShaderStageCreateInfo> = Vec::new();
    stages.push(
        PipelineShaderStageCreateInfo {
            stage: ShaderStage::Vertex,
            module: vert_shader_module,
            name: SHADER_MAIN,
        },
    );
    stages.push(
        PipelineShaderStageCreateInfo {
            stage: ShaderStage::Fragment,
            module: frag_shader_module,
            name: SHADER_MAIN,
        },
    );
    let extent: Extent2D = swapchain_data.extent;
    let mut viewports: Vec<Viewport> = Vec::new();
    viewports.push(
        Viewport { x: 0, y: 0, width: extent.width, height: extent.height, min_depth: 0, max_depth: 0 },
    );
    let mut scissors: Vec<Rect2D> = Vec::new();
    scissors.push(Rect2D { offset: Offset2D { x: 0, y: 0 }, extent });
    let mut color_blend_attachments: Vec<ColorBlendAttachmentState> = Vec::new();
    color_blend_attachments.push(
        ColorBlendAttachmentState {
            color_write_mask: ColorComponents { r: true, g: true, b: true, a: true },
            blend_enable: false,
        },
    );
    GraphicsPipelineCreateInfo {
        stages,
        vertex_input_state: VertexInputState { binding_count: 0, attribute_count: 0 },
        input_assembly_state: InputAssemblyState {
            topology: PrimitiveTopology::TriangleList,
            primitive_restart_enable: false,
        },
        viewports,
        scissors,
        rasterization_state: RasterizationState {
            rasterizer_discard_enable: false,
            polygon_mode: PolygonMode::Fill,
            line_width: 1,
            cull_mode: CullMode::Back,
            front_face: FrontFace::Clockwise,
            depth_bias_enable: false,
        },
        multisample_state: MultisampleState {
            sample_shading_enable: false,
            rasterization_samples: SampleCount::Type1,
        },
        logic_op_enable: false,
        color_blend_attachments,
        dynamic_state: false,
        layout,
        render_pass,
        subpass: 0,
    }
}

/// Says what is released as soon as the pipeline has been created: the two
/// shader modules, which nothing needs any more.
pub fn release_shader_modules(vert_shader_module: u64, frag_shader_module: u64) -> (steps: Vec<
    TeardownStep,
>)
    ensures
        steps@ == seq![
            TeardownStep { kind: StepKind::ShaderModule, handle: vert_shader_module },
            TeardownStep { kind: StepKind::ShaderModule, handle: frag_shader_module },
        ],
{
    let mut steps: Vec<TeardownStep> = Vec::new();
    steps.push(TeardownStep { kind: StepKind::ShaderModule, handle: vert_shader_module });
    steps.push(TeardownStep { kind: StepKind::ShaderModule, handle: frag_shader_module });
    assert(steps@ =~= seq![
        TeardownStep { kind: StepKind::ShaderModule, handle: vert_shader_module },
        TeardownStep { kind: StepKind::ShaderModule, handle: frag_shader_module },
    ]);
    steps
}

/// The framebuffer that is asked for.
#[derive(Clone, Copy, Debug, PartialEq, Eq, Structural)]
pub struct FramebufferCreateInfo {
    pub render_pass: u64,
    /// The image view that the render pass's one attachment is bound to.
    pub attachment: u64,
    pub width: u32,
    pub height: u32,
    pub layers: u32,
}

/// The framebuffer of one image view: of the swapchain's extent, one layer.
pub open spec fn framebuffer_for(image_view: u64, extent: Extent2D, render_pass: u64) -> FramebufferCreateInfo {
    FramebufferCreateInfo {
        render_pass,
        attachment: image_view,
        width: extent.width,
        height: extent.height,
        layers: 1,
    }
}

/// Describes one framebuffer per image view, in the order of the views.
pub fn create_framebuffers(swapchain_data: &SwapchainData, render_pass: u64) -> (r: Vec<
    FramebufferCreateInfo,
>)
    ensures
        r@.len() == swapchain_data.image_views@.len(),
        forall|i: int|
            0 <= i < r@.len() ==> #[trigger] r@[i] == framebuffer_for(
                swapchain_data.image_views@[i],
                swapchain_data.extent,
                render_pass,
            ),
{
    let mut infos: Vec<FramebufferCreateInfo> = Vec::with_capacity(swapchain_data.image_views.len());
    let mut i: usize = 0;
    while i < swapchain_data.image_views.len()
        invariant
            i <= swapchain_data.image_views@.len(),
            infos@.len() == i,
            forall|j: int|
                0 <= j < i ==> #[trigger] infos@[j] == framebuffer_for(
                    swapchain_data.image_views@[j],
                    swapchain_data.extent,
                    render_pass,
                ),
        decreases swapchain_data.image_views@.len() - i,
    {
        infos.push(
            FramebufferCreateInfo {
                render_pass,
                attachment: swapchain_data.image_views[i],
                width: swapchain_data.extent.width,
                height: swapchain_data.extent.height,
                layers: 1,
            },
        );
        i += 1;
    }
    infos
}

} // verus!
