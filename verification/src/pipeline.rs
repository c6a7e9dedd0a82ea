//! Rasterization pipeline descriptions and what they turn into.
use vstd::prelude::*;

use crate::types::Format;

verus! {

#[derive(Clone, Copy, Debug, PartialEq, Eq, Structural)]
pub enum CompareOp {
    Never,
    Less,
    Equal,
    LessOrEqual,
    Greater,
    NotEqual,
    GreaterOrEqual,
    Always,
}

impl CompareOp {
    /// The `VkCompareOp` value.
    pub fn vk_value(&self) -> (r: i32)
        ensures
            r == (match *self {
                CompareOp::Never => 0i32,
                CompareOp::Less => 1i32,
                CompareOp::Equal => 2i32,
                CompareOp::LessOrEqual => 3i32,
                CompareOp::Greater => 4i32,
                CompareOp::NotEqual => 5i32,
                CompareOp::GreaterOrEqual => 6i32,
                CompareOp::Always => 7i32,
            }),
    {
        match self {
            CompareOp::Never => 0,
            CompareOp::Less => 1,
            CompareOp::Equal => 2,
            CompareOp::LessOrEqual => 3,
            CompareOp::Greater => 4,
            CompareOp::NotEqual => 5,
            CompareOp::GreaterOrEqual => 6,
            CompareOp::Always => 7,
        }
    }
}

impl Default for CompareOp {
    fn default() -> (r: Self)
        ensures
            r == CompareOp::Less,
    {
        CompareOp::Less
    }
}

#[derive(Clone, Copy, Debug, PartialEq, Eq, Structural)]
pub enum CullMode {
    /// `VK_CULL_MODE_NONE`: nothing is culled.
    Nothing,
    Front,
    Back,
    FrontAndBack,
}

impl CullMode {
    /// The `VkCullModeFlags` value.
    pub fn vk_value(&self) -> (r: u32)
        ensures
            r == (match *self {
                CullMode::Nothing => 0u32,
                CullMode::Front => 1u32,
                CullMode::Back => 2u32,
                CullMode::FrontAndBack => 3u32,
            }),
    {
        match self {
            CullMode::Nothing => 0,
            CullMode::Front => 1,
            CullMode::Back => 2,
            CullMode::FrontAndBack => 3,
        }
    }
}

impl Default for CullMode {
    fn default() -> (r: Self)
        ensures
            r == CullMode::Nothing,
    {
        CullMode::Nothing
    }
}

#[derive(Clone, Copy, Debug, PartialEq, Eq, Structural)]
pub enum FrontFace {
    CounterClockwise,
    Clockwise,
}

impl FrontFace {
    /// The `VkFrontFace` value.
    pub fn vk_value(&self) -> (r: i32)
        ensures
            r == (match *self {
                FrontFace::CounterClockwise => 0i32,
                FrontFace::Clockwise => 1i32,
            }),
    {
        match self {
            FrontFace::CounterClockwise => 0,
            FrontFace::Clockwise => 1,
        }
    }
}

impl Default for FrontFace {
    fn default() -> (r: Self)
        ensures
            r == FrontFace::CounterClockwise,
    {
        FrontFace::CounterClockwise
    }
}

#[derive(Clone, Copy, Debug, PartialEq, Eq, Structural)]
pub enum PolygonMode {
    Fill,
    Line,
    Point,
}

impl PolygonMode {
    /// The `VkPolygonMode` value.
    pub fn vk_value(&self) -> (r: i32)
        ensures
            r == (match *self {
                PolygonMode::Fill => 0i32,
                PolygonMode::Line => 1i32,
                PolygonMode::Point => 2i32,
            }),
    {
        match self {
            PolygonMode::Fill => 0,
            PolygonMode::Line => 1,
            PolygonMode::Point => 2,
        }
    }
}

impl Default for PolygonMode {
    fn default() -> (r: Self)
        ensures
            r == PolygonMode::Fill,
    {
        PolygonMode::Fill
    }
}

#[derive(Clone, Copy, Debug, PartialEq, Eq, Structural)]
pub enum PrimitiveTopology {
    TriangleList,
    TriangleStrip,
    LineList,
    LineStrip,
    PointList,
}

impl PrimitiveTopology {
    /// The `VkPrimitiveTopology` value.
    pub fn vk_value(&self) -> (r: i32)
        ensures
            r == (match *self {
                PrimitiveTopology::TriangleList => 3i32,
                PrimitiveTopology::TriangleStrip => 4i32,
                PrimitiveTopology::LineList => 1i32,
                PrimitiveTopology::LineStrip => 2i32,
                PrimitiveTopology::PointList => 0i32,
            }),
    {
        match self {
            PrimitiveTopology::TriangleList => 3,
            PrimitiveTopology::TriangleStrip => 4,
            PrimitiveTopology::LineList => 1,
            PrimitiveTopology::LineStrip => 2,
            PrimitiveTopology::PointList => 0,
        }
    }
}

impl Default for PrimitiveTopology {
    fn default() -> (r: Self)
        ensures
            r == PrimitiveTopology::TriangleList,
    {
        PrimitiveTopology::TriangleList
    }
}

#[derive(Clone, Copy, Debug, PartialEq, Eq, Structural)]
pub struct DepthStencilState {
    pub depth_test: bool,
    pub depth_write: bool,
    pub depth_compare: CompareOp,
    pub stencil_test: bool,
}

impl Default for DepthStencilState {
    fn default() -> (r: Self)
        ensures
            r == (DepthStencilState {
                depth_test: true,
                depth_write: true,
                depth_compare: CompareOp::Less,
                stencil_test: false,
            }),
    {
        DepthStencilState {
            depth_test: true,
            depth_write: true,
            depth_compare: CompareOp::Less,
            stencil_test: false,
        }
    }
}

impl DepthStencilState {
    /// No depth test and no depth write.
    pub fn disabled() -> (r: Self)
        ensures
            r == (DepthStencilState {
                depth_test: false,
                depth_write: false,
                depth_compare: CompareOp::Always,
                stencil_test: false,
            }),
    {
        DepthStencilState {
            depth_test: false,
            depth_write: false,
            depth_compare: CompareOp::Always,
            stencil_test: false,
        }
    }

    /// Depth test without depth write.
    pub fn read_only() -> (r: Self)
        ensures
            r == (DepthStencilState {
                depth_test: true,
                depth_write: false,
                depth_compare: CompareOp::Less,
                stencil_test: false,
            }),
    {
        DepthStencilState {
            depth_test: true,
            depth_write: false,
            depth_compare: CompareOp::Less,
            stencil_test: false,
        }
    }
}

/// `VK_BLEND_FACTOR_ZERO`.
pub const BLEND_FACTOR_ZERO: i32 = 0;

/// `VK_BLEND_FACTOR_ONE`.
pub const BLEND_FACTOR_ONE: i32 = 1;

/// `VK_BLEND_FACTOR_SRC_ALPHA`.
pub const BLEND_FACTOR_SRC_ALPHA: i32 = 6;

/// `VK_BLEND_FACTOR_ONE_MINUS_SRC_ALPHA`.
pub const BLEND_FACTOR_ONE_MINUS_SRC_ALPHA: i32 = 7;

/// `VK_BLEND_OP_ADD`.
pub const BLEND_OP_ADD: i32 = 0;

/// `VK_COLOR_COMPONENT_R_BIT | G | B | A`.
pub const COLOR_COMPONENTS_RGBA: u32 = 0xf;

#[derive(Clone, Copy, Debug, PartialEq, Eq, Structural)]
pub enum BlendMode {
    Opaque,
    Alpha,
    Additive,
    Premultiplied,
}

impl Default for BlendMode {
    fn default() -> (r: Self)
        ensures
            r == BlendMode::Opaque,
    {
        BlendMode::Opaque
    }
}

/// The blend state of one colour attachment (`VkPipelineColorBlendAttachmentState`),
/// with raw blend factors and operations.
#[derive(Clone, Copy, Debug, PartialEq, Eq, Structural)]
pub struct BlendAttachmentState {
    pub blend_enable: bool,
    pub src_color_blend_factor: i32,
    pub dst_color_blend_factor: i32,
    pub color_blend_op: i32,
    pub src_alpha_blend_factor: i32,
    pub dst_alpha_blend_factor: i32,
    pub alpha_blend_op: i32,
    pub color_write_mask: u32,
}

/// An enabled blend with additive operations and the given factors, writing all components.
pub open spec fn blend_with(
    src_color: i32,
    dst_color: i32,
    src_alpha: i32,
    dst_alpha: i32,
) -> BlendAttachmentState {
    BlendAttachmentState {
        blend_enable: true,
        src_color_blend_factor: src_color,
        dst_color_blend_factor: dst_color,
        color_blend_op: BLEND_OP_ADD,
        src_alpha_blend_factor: src_alpha,
        dst_alpha_blend_factor: dst_alpha,
        alpha_blend_op: BLEND_OP_ADD,
        color_write_mask: COLOR_COMPONENTS_RGBA,
    }
}

impl BlendMode {
    /// Opaque: no blending. Alpha: `src * a + dst * (1 - a)`, alpha kept from
    /// the source. Additive: `src + dst`. Premultiplied: `src + dst * (1 - a)`.
    pub open spec fn spec_attachment(self) -> BlendAttachmentState {
        match self {
            BlendMode::Opaque => BlendAttachmentState {
                blend_enable: false,
                src_color_blend_factor: BLEND_FACTOR_ZERO,
                dst_color_blend_factor: BLEND_FACTOR_ZERO,
                color_blend_op: BLEND_OP_ADD,
                src_alpha_blend_factor: BLEND_FACTOR_ZERO,
                dst_alpha_blend_factor: BLEND_FACTOR_ZERO,
                alpha_blend_op: BLEND_OP_ADD,
                color_write_mask: COLOR_COMPONENTS_RGBA,
            },
            BlendMode::Alpha => blend_with(
                BLEND_FACTOR_SRC_ALPHA,
                BLEND_FACTOR_ONE_MINUS_SRC_ALPHA,
                BLEND_FACTOR_ONE,
                BLEND_FACTOR_ZERO,
            ),
            BlendMode::Additive => blend_with(
                BLEND_FACTOR_ONE,
                BLEND_FACTOR_ONE,
                BLEND_FACTOR_ONE,
                BLEND_FACTOR_ONE,
            ),
            BlendMode::Premultiplied => blend_with(
                BLEND_FACTOR_ONE,
                BLEND_FACTOR_ONE_MINUS_SRC_ALPHA,
                BLEND_FACTOR_ONE,
                BLEND_FACTOR_ONE_MINUS_SRC_ALPHA,
            ),
        }
    }

    /// The blend state every colour attachment of a pipeline with this mode gets.
    pub fn attachment(&self) -> (r: BlendAttachmentState)
        ensures
            r == self.spec_attachment(),
    {
        let (enable, src_color, dst_color, src_alpha, dst_alpha) = match self {
            BlendMode::Opaque => (
                false,
                BLEND_FACTOR_ZERO,
                BLEND_FACTOR_ZERO,
                BLEND_FACTOR_ZERO,
                BLEND_FACTOR_ZERO,
            ),
            BlendMode::Alpha => (
                true,
                BLEND_FACTOR_SRC_ALPHA,
                BLEND_FACTOR_ONE_MINUS_SRC_ALPHA,
                BLEND_FACTOR_ONE,
                BLEND_FACTOR_ZERO,
            ),
            BlendMode::Additive => (
                true,
                BLEND_FACTOR_ONE,
                BLEND_FACTOR_ONE,
                BLEND_FACTOR_ONE,
                BLEND_FACTOR_ONE,
            ),
            BlendMode::Premultiplied => (
                true,
                BLEND_FACTOR_ONE,
                BLEND_FACTOR_ONE_MINUS_SRC_ALPHA,
                BLEND_FACTOR_ONE,
                BLEND_FACTOR_ONE_MINUS_SRC_ALPHA,
            ),
        };
        BlendAttachmentState {
            blend_enable: enable,
            src_color_blend_factor: src_color,
            dst_color_blend_factor: dst_color,
            color_blend_op: BLEND_OP_ADD,
            src_alpha_blend_factor: src_alpha,
            dst_alpha_blend_factor: dst_alpha,
            alpha_blend_op: BLEND_OP_ADD,
            color_write_mask: COLOR_COMPONENTS_RGBA,
        }
    }
}

/// The render targets a pipeline writes to.
/// Must match the attachments of the rendering pass at draw time.
#[derive(Clone, Copy)]
pub struct PipelineOutputs<'a> {
    pub color: &'a [Format],
    pub depth: Option<Format>,
    pub stencil: Option<Format>,
}

impl<'a> Default for PipelineOutputs<'a> {
    /// One `Rgba16Float` colour target, no depth, no stencil.
    fn default() -> (r: Self)
        ensures
            r.color@ == seq![Format::Rgba16Float],
            r.depth.is_none(),
            r.stencil.is_none(),
    {
        let color: &'a [Format] = &[Format::Rgba16Float];
        PipelineOutputs { color, depth: None, stencil: None }
    }
}

/// What a rasterization pipeline is made from: the SPIR-V of its two shaders and its fixed-function state.
pub struct RasterizationPipelineDescription<'a> {
    pub vertex_shader: &'a [u8],
    pub fragment_shader: &'a [u8],
    pub topology: PrimitiveTopology,
    pub cull_mode: CullMode,
    pub front_face: FrontFace,
    pub polygon_mode: PolygonMode,
    pub depth_stencil: DepthStencilState,
    pub blend_mode: BlendMode,
    pub outputs: PipelineOutputs<'a>,
}

impl<'a> Default for RasterizationPipelineDescription<'a> {
    /// No shader code, default fixed-function state and outputs.
    fn default() -> (r: Self)
        ensures
            r.vertex_shader@.len() == 0,
            r.fragment_shader@.len() == 0,
            r.topology == PrimitiveTopology::TriangleList,
            r.cull_mode == CullMode::Nothing,
            r.front_face == FrontFace::CounterClockwise,
            r.polygon_mode == PolygonMode::Fill,
            r.depth_stencil == (DepthStencilState {
                depth_test: true,
                depth_write: true,
                depth_compare: CompareOp::Less,
                stencil_test: false,
            }),
            r.blend_mode == BlendMode::Opaque,
            r.outputs.color@ == seq![Format::Rgba16Float],
            r.outputs.depth.is_none(),
            r.outputs.stencil.is_none(),
    {
        let no_code: &'a [u8] = &[];
        RasterizationPipelineDescription {
            vertex_shader: no_code,
            fragment_shader: no_code,
            topology: PrimitiveTopology::default(),
            cull_mode: CullMode::default(),
            front_face: FrontFace::default(),
            polygon_mode: PolygonMode::default(),
            depth_stencil: DepthStencilState::default(),
            blend_mode: BlendMode::default(),
            outputs: PipelineOutputs::default(),
        }
    }
}

/// A compute pipeline, by its raw `VkPipeline` handle.
#[derive(Clone, Copy, Debug, PartialEq, Eq, Structural)]
pub struct ComputePipeline {
    pub handle: u64,
}

/// The little-endian 32-bit word at word index `i` of `bytes`.
pub open spec fn spirv_word(bytes: Seq<u8>, i: int) -> int {
    bytes[4 * i] + 256 * bytes[4 * i + 1] + 65536 * bytes[4 * i + 2] + 16777216 * bytes[4 * i + 3]
}

/// SPIR-V bytes as the 32-bit little-endian words a shader module is made of.
/// The length must be a multiple of 4.
pub fn spirv_words(spirv: &[u8]) -> (r: Vec<u32>)
    requires
        spirv@.len() % 4 == 0,
    ensures
        r@.len() * 4 == spirv@.len(),
        forall|i: int| 0 <= i < r@.len() ==> r@[i] == spirv_word(spirv@, i),
{
    let len = spirv.len();
    let mut words: Vec<u32> = Vec::new();
    let mut j: usize = 0;
    while j < len
        invariant
            len == spirv@.len(),
            len % 4 == 0,
            j <= len,
            j % 4 == 0,
            j == words@.len() * 4,
            forall|i: int| 0 <= i < words@.len() ==> words@[i] == spirv_word(spirv@, i),
        decreases len - j,
    {
        let b0 = spirv[j] as u32;
        let b1 = spirv[j + 1] as u32;
        let b2 = spirv[j + 2] as u32;
        let b3 = spirv[j + 3] as u32;
        let w: u32 = b0 + b1 * 256 + b2 * 65536 + b3 * 16777216;
        proof {
            let k = words@.len() as int;
            assert(4 * k == j);
        }
        words.push(w);
        j = j + 4;
    }
    words
}

/// The weight a blend factor gives a channel, for a source alpha of
/// `src_alpha` where `one` stands for full weight.
pub open spec fn factor_weight(factor: i32, src_alpha: int, one: int) -> int {
    if factor == BLEND_FACTOR_ZERO {
        0
    } else if factor == BLEND_FACTOR_ONE {
        one
    } else if factor == BLEND_FACTOR_SRC_ALPHA {
        src_alpha
    } else if factor == BLEND_FACTOR_ONE_MINUS_SRC_ALPHA {
        one - src_alpha
    } else {
        0
    }
}

/// A colour channel written under `state`, scaled by `one`: the source when
/// blending is off, else the weighted source plus the weighted destination.
pub open spec fn blended_color(state: BlendAttachmentState, src: int, dst: int, src_alpha: int, one: int) -> int {
    if !state.blend_enable {
        src * one
    } else {
        src * factor_weight(state.src_color_blend_factor, src_alpha, one) + dst * factor_weight(
            state.dst_color_blend_factor,
            src_alpha,
            one,
        )
    }
}

/// The alpha channel written under `state`, scaled by `one`.
pub open spec fn blended_alpha(state: BlendAttachmentState, src_alpha: int, dst_alpha: int, one: int) -> int {
    if !state.blend_enable {
        src_alpha * one
    } else {
        src_alpha * factor_weight(state.src_alpha_blend_factor, src_alpha, one) + dst_alpha
            * factor_weight(state.dst_alpha_blend_factor, src_alpha, one)
    }
}

/// Each blend mode blends as its name says, for every source and destination
/// (`one` stands for full intensity): opaque writes the source; alpha mixes
/// source and destination by the source alpha and keeps the source alpha;
/// additive adds source and destination; premultiplied adds the source to the
/// destination weighted by one minus the source alpha. Every mode adds, and
/// writes all four components.
pub proof fn law_blend_modes_blend_as_named(
    mode: BlendMode,
    src: int,
    dst: int,
    src_alpha: int,
    dst_alpha: int,
    one: int,
)
    ensures
        mode.spec_attachment().color_blend_op == BLEND_OP_ADD,
        mode.spec_attachment().alpha_blend_op == BLEND_OP_ADD,
        mode.spec_attachment().color_write_mask == COLOR_COMPONENTS_RGBA,
        mode.spec_attachment().blend_enable == (mode != BlendMode::Opaque),
        mode == BlendMode::Opaque ==> blended_color(mode.spec_attachment(), src, dst, src_alpha, one)
            == src * one && blended_alpha(mode.spec_attachment(), src_alpha, dst_alpha, one)
            == src_alpha * one,
        mode == BlendMode::Alpha ==> blended_color(mode.spec_attachment(), src, dst, src_alpha, one)
            == src * src_alpha + dst * (one - src_alpha) && blended_alpha(
            mode.spec_attachment(),
            src_alpha,
            dst_alpha,
            one,
        ) == src_alpha * one,
        mode == BlendMode::Additive ==> blended_color(mode.spec_attachment(), src, dst, src_alpha, one)
            == src * one + dst * one && blended_alpha(mode.spec_attachment(), src_alpha, dst_alpha, one)
            == src_alpha * one + dst_alpha * one,
        mode == BlendMode::Premultiplied ==> blended_color(
            mode.spec_attachment(),
            src,
            dst,
            src_alpha,
            one,
        ) == src * one + dst * (one - src_alpha) && blended_alpha(
            mode.spec_attachment(),
            src_alpha,
            dst_alpha,
            one,
        ) == src_alpha * one + dst_alpha * (one - src_alpha),
{
    assert(dst_alpha * 0 == 0) by (nonlinear_arith);
}

} // verus!
