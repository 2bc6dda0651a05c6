//! What the effect asks of the GPU, written down as plain values.
//!
//! Every resource of the effect is created from one of the descriptions in
//! this file. They follow the descriptors of `wgpu` field by field, with as
//! many alternatives as a renderer of this kind can ask for, so that turning
//! one into its `wgpu` counterpart is a change of type and nothing else.

use vstd::prelude::*;
use crate::geometry::Attribute;

verus! {

/// What a sampler returns for a coordinate outside the texture.
#[derive(Clone, Copy, Debug, PartialEq, Eq, Structural)]
pub enum AddressMode {
    /// The texel at the nearest edge.
    ClampToEdge,
    /// The texture, tiled.
    Repeat,
    /// The texture, tiled and mirrored at every edge.
    MirrorRepeat,
}

/// How a sampler chooses among texels.
#[derive(Clone, Copy, Debug, PartialEq, Eq, Structural)]
pub enum FilterMode {
    /// The nearest texel.
    Nearest,
    /// A weighted mean of the neighbouring texels.
    Linear,
}

/// A sampler that treats all three axes alike and filters alike when it
/// magnifies, when it minifies and between mip levels.
#[derive(Clone, Copy, Debug, PartialEq, Eq, Structural)]
pub struct SamplerSettings {
    pub address_mode: AddressMode,
    pub filter: FilterMode,
}

/// The sampler of the effect: linear filtering, clamped to the edge.
pub open spec fn spec_linear_clamp_sampler() -> SamplerSettings {
    SamplerSettings { address_mode: AddressMode::ClampToEdge, filter: FilterMode::Linear }
}

/// The sampler of the effect: linear filtering, clamped to the edge.
pub fn linear_clamp_sampler() -> (settings: SamplerSettings)
    ensures
        settings == spec_linear_clamp_sampler(),
{
    SamplerSettings { address_mode: AddressMode::ClampToEdge, filter: FilterMode::Linear }
}

/// The vertex stage, as a bit of a binding's visibility.
pub const STAGE_VERTEX: u32 = 1;

/// The fragment stage, as a bit of a binding's visibility.
pub const STAGE_FRAGMENT: u32 = 2;

/// The compute stage, as a bit of a binding's visibility.
pub const STAGE_COMPUTE: u32 = 4;

/// The kind of resource that a binding of a bind group holds.
#[derive(Clone, Copy, Debug, PartialEq, Eq, Structural)]
pub enum BindingKind {
    /// A whole uniform buffer, at a fixed offset.
    UniformBuffer,
    /// A two-dimensional texture of floating-point texels.
    Texture { filterable: bool, multisampled: bool },
    /// A sampler; `filtering` says whether it may filter.
    Sampler { filtering: bool },
}

/// One binding of a bind group layout.
#[derive(Clone, Copy, Debug, PartialEq, Eq, Structural)]
pub struct LayoutEntry {
    /// The number the shader knows the binding by.
    pub binding: u32,
    /// The stages that see it, as a union of the `STAGE_` bits.
    pub visibility: u32,
    pub kind: BindingKind,
}

/// The group of a pipeline that holds the parameters of the effect.
pub const UNIFORM_GROUP: u32 = 0;

/// The group of a pipeline that holds the image that a pass reads.
pub const TEXTURE_GROUP: u32 = 1;

/// The layout of the parameter group: one uniform buffer at binding 0, seen
/// by the fragment stage only.
pub open spec fn spec_uniform_layout() -> Seq<LayoutEntry> {
    seq![LayoutEntry { binding: 0, visibility: STAGE_FRAGMENT, kind: BindingKind::UniformBuffer }]
}

/// The layout of the image group: a filterable texture with one sample per
/// texel at binding 0 and a filtering sampler at binding 1, both seen by the
/// fragment stage only.
pub open spec fn spec_texture_layout() -> Seq<LayoutEntry> {
    seq![
        LayoutEntry {
            binding: 0,
            visibility: STAGE_FRAGMENT,
            kind: BindingKind::Texture { filterable: true, multisampled: false },
        },
        LayoutEntry {
            binding: 1,
            visibility: STAGE_FRAGMENT,
            kind: BindingKind::Sampler { filtering: true },
        },
    ]
}

/// The layout of the parameter group.
pub fn uniform_layout() -> (entries: Vec<LayoutEntry>)
    ensures
        entries@ == spec_uniform_layout(),
{
    let mut entries: Vec<LayoutEntry> = Vec::new();
    entries.push(
        LayoutEntry { binding: 0, visibility: STAGE_FRAGMENT, kind: BindingKind::UniformBuffer },
    );
    assert(entries@ =~= spec_uniform_layout());
    entries
}

/// The layout of the image group.
pub fn texture_layout() -> (entries: Vec<LayoutEntry>)
    ensures
        entries@ == spec_texture_layout(),
{
    let mut entries: Vec<LayoutEntry> = Vec::new();
    entries.push(
        LayoutEntry {
            binding: 0,
            visibility: STAGE_FRAGMENT,
            kind: BindingKind::Texture { filterable: true, multisampled: false },
        },
    );
    entries.push(
        LayoutEntry {
            binding: 1,
            visibility: STAGE_FRAGMENT,
            kind: BindingKind::Sampler { filtering: true },
        },
    );
    assert(entries@ =~= spec_texture_layout());
    entries
}

/// A color format of four 8-bit channels.
#[derive(Clone, Copy, Debug, PartialEq, Eq, Structural)]
pub enum PixelFormat {
    /// Red, green, blue, alpha; stored as written.
    Rgba8Unorm,
    /// Red, green, blue, alpha; the color channels are gamma-encoded.
    Rgba8UnormSrgb,
    /// Blue, green, red, alpha; stored as written.
    Bgra8Unorm,
    /// Blue, green, red, alpha; the color channels are gamma-encoded.
    Bgra8UnormSrgb,
}

/// The number of axes of a texture.
#[derive(Clone, Copy, Debug, PartialEq, Eq, Structural)]
pub enum TextureDimension {
    D1,
    D2,
    D3,
}

/// The texture may be the source of a copy.
pub const TEXTURE_COPY_SRC: u32 = 1;

/// The texture may be the destination of a copy.
pub const TEXTURE_COPY_DST: u32 = 2;

/// The texture may be sampled by a shader.
pub const TEXTURE_BINDING: u32 = 4;

/// The texture may be written by a shader.
pub const TEXTURE_STORAGE_BINDING: u32 = 8;

/// The texture may be a target of a render pass.
pub const TEXTURE_RENDER_ATTACHMENT: u32 = 16;

/// The shape of a texture.
#[derive(Clone, Copy, Debug, PartialEq, Eq, Structural)]
pub struct TextureSpec {
    pub width: u32,
    pub height: u32,
    pub depth_or_array_layers: u32,
    pub mip_level_count: u32,
    pub sample_count: u32,
    pub dimension: TextureDimension,
    pub format: PixelFormat,
    /// What the texture may be used for, as a union of the `TEXTURE_` bits.
    pub usage: u32,
}

/// The format of both offscreen surfaces.
pub open spec fn spec_offscreen_format() -> PixelFormat {
    PixelFormat::Rgba8UnormSrgb
}

/// The usage of both offscreen surfaces: a pass draws into them and the
/// next pass samples them.
pub const OFFSCREEN_USAGE: u32 = 20;

/// An offscreen surface of the given size: one two-dimensional layer, one
/// mip level, one sample per texel.
pub open spec fn spec_offscreen_texture(width: u32, height: u32) -> TextureSpec {
    TextureSpec {
        width,
        height,
        depth_or_array_layers: 1,
        mip_level_count: 1,
        sample_count: 1,
        dimension: TextureDimension::D2,
        format: spec_offscreen_format(),
        usage: OFFSCREEN_USAGE,
    }
}

/// The shape of an offscreen surface of the given size.
pub fn offscreen_texture(width: u32, height: u32) -> (spec: TextureSpec)
    ensures
        spec == spec_offscreen_texture(width, height),
        spec.usage & TEXTURE_RENDER_ATTACHMENT != 0,
        spec.usage & TEXTURE_BINDING != 0,
{
    assert(20u32 == 16u32 | 4u32 && 20u32 & 16u32 != 0 && 20u32 & 4u32 != 0) by (bit_vector);
    TextureSpec {
        width,
        height,
        depth_or_array_layers: 1,
        mip_level_count: 1,
        sample_count: 1,
        dimension: TextureDimension::D2,
        format: PixelFormat::Rgba8UnormSrgb,
        usage: TEXTURE_RENDER_ATTACHMENT | TEXTURE_BINDING,
    }
}

/// What a color is multiplied by before it is blended.
#[derive(Clone, Copy, Debug, PartialEq, Eq, Structural)]
pub enum BlendFactor {
    Zero,
    One,
}

/// How the weighted source and the weighted destination are combined.
#[derive(Clone, Copy, Debug, PartialEq, Eq, Structural)]
pub enum BlendOperation {
    /// Source plus destination.
    Add,
    /// Source minus destination.
    Subtract,
    /// Destination minus source.
    ReverseSubtract,
    /// The smaller of the two.
    Min,
    /// The larger of the two.
    Max,
}

/// The blend of the color channels or of the alpha channel: the result is
/// `operation(src_factor * source, dst_factor * destination)`.
#[derive(Clone, Copy, Debug, PartialEq, Eq, Structural)]
pub struct BlendComponent {
    pub src_factor: BlendFactor,
    pub dst_factor: BlendFactor,
    pub operation: BlendOperation,
}

/// How what a pass draws is combined with what its target holds.
#[derive(Clone, Copy, Debug, PartialEq, Eq, Structural)]
pub struct Blend {
    pub color: BlendComponent,
    pub alpha: BlendComponent,
}

/// The source replaces the destination.
pub open spec fn spec_replace_component() -> BlendComponent {
    BlendComponent {
        src_factor: BlendFactor::One,
        dst_factor: BlendFactor::Zero,
        operation: BlendOperation::Add,
    }
}

/// The source is added to the destination.
pub open spec fn spec_additive_component() -> BlendComponent {
    BlendComponent {
        src_factor: BlendFactor::One,
        dst_factor: BlendFactor::One,
        operation: BlendOperation::Add,
    }
}

/// What is drawn overwrites the target, color and alpha.
pub open spec fn spec_replace_blend() -> Blend {
    Blend { color: spec_replace_component(), alpha: spec_replace_component() }
}

/// What is drawn is added to the target, color and alpha.
pub open spec fn spec_additive_blend() -> Blend {
    Blend { color: spec_additive_component(), alpha: spec_additive_component() }
}

/// What is drawn overwrites the target, color and alpha.
pub fn replace_blend() -> (blend: Blend)
    ensures
        blend == spec_replace_blend(),
{
    let component = BlendComponent {
        src_factor: BlendFactor::One,
        dst_factor: BlendFactor::Zero,
        operation: BlendOperation::Add,
    };
    Blend { color: component, alpha: component }
}

/// What is drawn is added to the target, color and alpha.
pub fn additive_blend() -> (blend: Blend)
    ensures
        blend == spec_additive_blend(),
{
    let component = BlendComponent {
        src_factor: BlendFactor::One,
        dst_factor: BlendFactor::One,
        operation: BlendOperation::Add,
    };
    Blend { color: component, alpha: component }
}

/// A channel value weighted by a blend factor.
pub open spec fn spec_weighted(factor: BlendFactor, value: int) -> int {
    match factor {
        BlendFactor::Zero => 0,
        BlendFactor::One => value,
    }
}

/// What a blend leaves in one channel of a target whose channels hold
/// values from 0 to `full`, given what the fragment shader wrote and what
/// the target held.
///
/// The minimum and the maximum are taken of the unweighted values. The
/// result is clamped to what the channel can hold.
pub open spec fn spec_blended(component: BlendComponent, source: int, destination: int, full: int) -> int {
    let weighted_source = spec_weighted(component.src_factor, source);
    let weighted_destination = spec_weighted(component.dst_factor, destination);
    let combined = match component.operation {
        BlendOperation::Add => weighted_source + weighted_destination,
        BlendOperation::Subtract => weighted_source - weighted_destination,
        BlendOperation::ReverseSubtract => weighted_destination - weighted_source,
        BlendOperation::Min => if source <= destination {
            source
        } else {
            destination
        },
        BlendOperation::Max => if source >= destination {
            source
        } else {
            destination
        },
    };
    if combined < 0 {
        0
    } else if combined > full {
        full
    } else {
        combined
    }
}

/// The largest value of a channel of eight bits.
pub const CHANNEL_FULL: u8 = 255;

/// What a blend leaves in one 8-bit channel of a target.
pub fn blended(component: &BlendComponent, source: u8, destination: u8) -> (result: u8)
    ensures
        result == spec_blended(*component, source as int, destination as int, CHANNEL_FULL as int),
{
    let weighted_source: i32 = match component.src_factor {
        BlendFactor::Zero => 0,
        BlendFactor::One => source as i32,
    };
    let weighted_destination: i32 = match component.dst_factor {
        BlendFactor::Zero => 0,
        BlendFactor::One => destination as i32,
    };
    let combined: i32 = match component.operation {
        BlendOperation::Add => weighted_source + weighted_destination,
        BlendOperation::Subtract => weighted_source - weighted_destination,
        BlendOperation::ReverseSubtract => weighted_destination - weighted_source,
        BlendOperation::Min => if source <= destination {
            source as i32
        } else {
            destination as i32
        },
        BlendOperation::Max => if source >= destination {
            source as i32
        } else {
            destination as i32
        },
    };
    if combined < 0 {
        0
    } else if combined > CHANNEL_FULL as i32 {
        CHANNEL_FULL
    } else {
        combined as u8
    }
}

/// The additive blend never darkens: whatever a pass draws, no channel of
/// the target ends up below what it held, and it ends up at the sum of both
/// where the channel can hold that much.
pub proof fn lemma_additive_never_darkens(source: int, destination: int, full: int)
    requires
        0 <= source,
        0 <= destination <= full,
    ensures
        spec_blended(spec_additive_component(), source, destination, full) >= destination,
        source + destination <= full ==> spec_blended(
            spec_additive_component(),
            source,
            destination,
            full,
        ) == source + destination,
        spec_blended(spec_additive_component(), 0, destination, full) == destination,
{
}

/// The replacing blend overwrites: what the target held has no part in
/// what it holds after the pass.
pub proof fn lemma_replace_overwrites(source: int, destination: int, full: int)
    requires
        0 <= source <= full,
    ensures
        spec_blended(spec_replace_component(), source, destination, full) == source,
{
}

/// All four channels are written.
pub const COLOR_WRITE_ALL: u32 = 15;

/// The one color target of a pipeline.
#[derive(Clone, Copy, Debug, PartialEq, Eq, Structural)]
pub struct ColorTarget {
    pub format: PixelFormat,
    pub blend: Blend,
    /// The channels that are written: red 1, green 2, blue 4, alpha 8.
    pub write_mask: u32,
}

/// How vertices are assembled into primitives.
#[derive(Clone, Copy, Debug, PartialEq, Eq, Structural)]
pub enum Topology {
    /// Every three vertices are a triangle.
    TriangleList,
    /// Every vertex after the second closes a triangle with the two before.
    TriangleStrip,
}

/// The winding of the triangles that face the viewer.
#[derive(Clone, Copy, Debug, PartialEq, Eq, Structural)]
pub enum FrontFace {
    /// Counter-clockwise.
    Ccw,
    /// Clockwise.
    Cw,
}

/// The triangles that are dropped before they are drawn.
#[derive(Clone, Copy, Debug, PartialEq, Eq, Structural)]
pub enum CullMode {
    /// None; both sides are drawn.
    Off,
    /// Those that face the viewer.
    Front,
    /// Those that face away.
    Back,
}

/// How primitives are assembled and which of them are drawn. They are
/// filled, and clipped in depth.
#[derive(Clone, Copy, Debug, PartialEq, Eq, Structural)]
pub struct PrimitiveSpec {
    pub topology: Topology,
    pub front_face: FrontFace,
    pub cull_mode: CullMode,
}

/// How many samples a pixel has and which of them are written.
#[derive(Clone, Copy, Debug, PartialEq, Eq, Structural)]
pub struct MultisampleSpec {
    pub count: u32,
    pub mask: u64,
    pub alpha_to_coverage: bool,
}

/// Lists of triangles, counter-clockwise front, nothing culled.
pub open spec fn spec_quad_primitive() -> PrimitiveSpec {
    PrimitiveSpec {
        topology: Topology::TriangleList,
        front_face: FrontFace::Ccw,
        cull_mode: CullMode::Off,
    }
}

/// One sample per pixel, always written.
pub open spec fn spec_single_sample() -> MultisampleSpec {
    MultisampleSpec { count: 1, mask: u64::MAX, alpha_to_coverage: false }
}

/// Lists of triangles, counter-clockwise front, nothing culled.
pub fn quad_primitive() -> (primitive: PrimitiveSpec)
    ensures
        primitive == spec_quad_primitive(),
{
    PrimitiveSpec {
        topology: Topology::TriangleList,
        front_face: FrontFace::Ccw,
        cull_mode: CullMode::Off,
    }
}

/// One sample per pixel, always written.
pub fn single_sample() -> (multisample: MultisampleSpec)
    ensures
        multisample == spec_single_sample(),
{
    MultisampleSpec { count: 1, mask: u64::MAX, alpha_to_coverage: false }
}

/// What a buffer is for.
#[derive(Clone, Copy, Debug, PartialEq, Eq, Structural)]
pub enum BufferRole {
    /// It holds vertex records.
    Vertex,
    /// It holds indices into a vertex buffer.
    Index,
    /// It holds the parameters of a shader.
    Uniform,
}

/// What a render pass does with the contents of its target before it draws.
#[derive(Clone, Copy, Debug, PartialEq, Eq, Structural)]
pub enum LoadPolicy {
    /// It overwrites them with opaque black.
    ClearBlack,
    /// It keeps them.
    Load,
}

/// What a render pass does with what it drew when it ends.
#[derive(Clone, Copy, Debug, PartialEq, Eq, Structural)]
pub enum StorePolicy {
    /// It writes it to the target.
    Store,
    /// It throws it away.
    Discard,
}

/// The width of an index of an index buffer.
#[derive(Clone, Copy, Debug, PartialEq, Eq, Structural)]
pub enum IndexFormat {
    /// Sixteen bits.
    Uint16,
    /// Thirty-two bits.
    Uint32,
}

/// The fixed state of a render pipeline that draws into one color target
/// without a depth or stencil test. The vertex buffer is stepped once per
/// vertex.
pub struct PipelineSpec {
    /// The entry point of the vertex stage.
    pub vertex_entry: &'static str,
    /// The entry point of the fragment stage.
    pub fragment_entry: &'static str,
    /// The bytes from one vertex record to the next.
    pub vertex_stride: u64,
    pub attributes: Vec<Attribute>,
    pub target: ColorTarget,
    pub primitive: PrimitiveSpec,
    pub multisample: MultisampleSpec,
}

/// The mathematical content of a [`PipelineSpec`].
pub struct PipelineSpecView {
    pub vertex_entry: Seq<char>,
    pub fragment_entry: Seq<char>,
    pub vertex_stride: u64,
    pub attributes: Seq<Attribute>,
    pub target: ColorTarget,
    pub primitive: PrimitiveSpec,
    pub multisample: MultisampleSpec,
}

impl View for PipelineSpec {
    type V = PipelineSpecView;

    open spec fn view(&self) -> PipelineSpecView {
        PipelineSpecView {
            vertex_entry: self.vertex_entry@,
            fragment_entry: self.fragment_entry@,
            vertex_stride: self.vertex_stride,
            attributes: self.attributes@,
            target: self.target,
            primitive: self.primitive,
            multisample: self.multisample,
        }
    }
}

} // verus!
