//! The resources of the effect on the device: the offscreen surfaces, the
//! quad, and the pipelines.

use vstd::prelude::*;
use crate::convert::{to_color_target, to_primitive_state, to_vertex_attributes};
use crate::capture::{close, close_buffer};
use crate::descriptors::{
    linear_clamp_sampler,
    offscreen_texture,
    spec_linear_clamp_sampler,
    spec_offscreen_texture,
    BufferRole,
    LayoutEntry,
    PixelFormat,
};
use crate::encoding::{image_of_halves, image_of_words, is_image_of_halves, is_image_of_words};
use crate::error::GlowError;
use crate::geometry::{
    fullscreen_quad,
    quad_indices,
    spec_fullscreen_quad,
    spec_quad_indices,
    spec_vertex_words,
    vertex_words,
};
use crate::gpu::{
    begin_capture,
    buffer_accepted,
    buffer_contents,
    buffer_device,
    buffer_role,
    buffer_size,
    create_bind_group_layout,
    create_mapped_buffer,
    create_pipeline_layout,
    create_render_pipeline,
    create_sampler,
    create_shader_module,
    create_texture,
    create_view,
    device_max_buffer_size,
    fill_buffer,
    layout_device,
    layout_entries,
    max_buffer_size,
    pipeline_device,
    pipeline_groups,
    pipeline_model,
    same_texture,
    sampler_device,
    sampler_settings,
    shader_device,
    shader_source,
    spec_padded_size,
    texture_shape,
    texture_device,
    viewed_texture,
    Watcher,
};
use crate::passes::{pipeline_spec, spec_pipeline, PassKind};

verus! {

/// The size of the largest buffer of the effect: the four vertices of the
/// quad.
pub const QUAD_VERTEX_BYTES: u64 = 272;

/// The size of the index buffer of the quad.
pub const QUAD_INDEX_BYTES: u64 = 12;

/// The size of the buffer that holds `len` bytes of contents.
pub fn padded_size(len: usize) -> (size: u64)
    requires
        len <= u64::MAX - 3,
    ensures
        size == spec_padded_size(len as nat),
        len > 0 ==> size >= 4,
{
    if len == 0 {
        0
    } else {
        (len as u64 + 3) / 4 * 4
    }
}

/// An image that passes draw into and sample from, as large as the output.
pub struct OffscreenSurface {
    texture: wgpu::Texture,
    view: wgpu::TextureView,
    width: u32,
    height: u32,
}

impl OffscreenSurface {
    /// The texture of the surface.
    pub closed spec fn spec_texture(&self) -> wgpu::Texture {
        self.texture
    }

    /// The view through which passes draw into the surface and sample it.
    pub closed spec fn spec_view(&self) -> wgpu::TextureView {
        self.view
    }

    /// The width of the surface in pixels.
    pub closed spec fn spec_width(&self) -> u32 {
        self.width
    }

    /// The height of the surface in pixels.
    pub closed spec fn spec_height(&self) -> u32 {
        self.height
    }

    /// The device that created the surface.
    pub open spec fn spec_device(&self) -> wgpu::Device {
        texture_device(self.spec_texture())
    }

    /// The texture has the fixed shape of an offscreen surface at the
    /// recorded size, and the view shows that texture.
    #[verifier::type_invariant]
    pub open spec fn well_formed(&self) -> bool {
        &&& texture_shape(self.spec_texture()) == spec_offscreen_texture(
            self.spec_width(),
            self.spec_height(),
        )
        &&& viewed_texture(self.spec_view()) == self.spec_texture()
    }

    /// The texture of the surface.
    pub fn texture(&self) -> (texture: &wgpu::Texture)
        ensures
            *texture == self.spec_texture(),
            texture_shape(*texture) == spec_offscreen_texture(self.spec_width(), self.spec_height()),
    {
        proof {
            use_type_invariant(self);
        }
        &self.texture
    }

    /// The view through which passes draw into the surface and sample it.
    pub fn view(&self) -> (view: &wgpu::TextureView)
        ensures
            *view == self.spec_view(),
            viewed_texture(*view) == self.spec_texture(),
    {
        proof {
            use_type_invariant(self);
        }
        &self.view
    }

    /// The width of the surface in pixels.
    pub fn width(&self) -> (width: u32)
        ensures
            width == self.spec_width(),
    {
        self.width
    }

    /// The height of the surface in pixels.
    pub fn height(&self) -> (height: u32)
        ensures
            height == self.spec_height(),
    {
        self.height
    }
}

/// Creates an offscreen surface of the given size, or returns what the
/// device refused.
pub(crate) fn create_offscreen_texture(
    watcher: &mut Watcher<'_>,
    width: u32,
    height: u32,
    label: &str,
) -> (result: Result<OffscreenSurface, GlowError>)
    requires
        old(watcher).captures() <= u64::MAX - 1,
    ensures
        final(watcher).device() == old(watcher).device(),
        final(watcher).captures() == old(watcher).captures() + 1,
        result matches Ok(surface) ==> {
            &&& surface.well_formed()
            &&& surface.spec_width() == width
            &&& surface.spec_height() == height
            &&& surface.spec_device() == old(watcher).device()
        },
        result matches Err(error) ==> error@ is Device || error@ is Unanswered,
{
    let spec = offscreen_texture(width, height);
    let capture = begin_capture(watcher);
    let texture = create_texture(&capture, label, &spec);
    let view = create_view(&capture, &texture);
    match close(capture) {
        Some(error) => Err(error),
        None => Ok(OffscreenSurface { texture, view, width, height }),
    }
}

/// The two offscreen surfaces of the effect: of one size, and of two
/// textures.
pub struct SurfacePair {
    source: OffscreenSurface,
    temp: OffscreenSurface,
}

impl SurfacePair {
    /// The first surface.
    pub closed spec fn spec_source(&self) -> OffscreenSurface {
        self.source
    }

    /// The second surface.
    pub closed spec fn spec_temp(&self) -> OffscreenSurface {
        self.temp
    }

    /// The device that created both surfaces.
    pub open spec fn spec_device(&self) -> wgpu::Device {
        self.spec_source().spec_device()
    }

    /// Both surfaces are well formed, of the same size and of one device,
    /// and they do not share their texture.
    #[verifier::type_invariant]
    pub open spec fn well_formed(&self) -> bool {
        &&& self.spec_source().well_formed()
        &&& self.spec_temp().well_formed()
        &&& self.spec_temp().spec_device() == self.spec_source().spec_device()
        &&& self.spec_temp().spec_width() == self.spec_source().spec_width()
        &&& self.spec_temp().spec_height() == self.spec_source().spec_height()
        &&& self.spec_source().spec_texture() != self.spec_temp().spec_texture()
    }

    /// The first surface.
    pub fn source(&self) -> (surface: &OffscreenSurface)
        ensures
            *surface == self.spec_source(),
    {
        &self.source
    }

    /// The second surface.
    pub fn temp(&self) -> (surface: &OffscreenSurface)
        ensures
            *surface == self.spec_temp(),
    {
        &self.temp
    }
}

/// Makes a pair of two surfaces, given whether they share their texture:
/// two surfaces that do are refused, any other two are the pair.
pub fn pair_surfaces(source: OffscreenSurface, temp: OffscreenSurface, same: bool) -> (result: Result<
    SurfacePair,
    GlowError,
>)
    requires
        source.well_formed(),
        temp.well_formed(),
        temp.spec_width() == source.spec_width(),
        temp.spec_height() == source.spec_height(),
        temp.spec_device() == source.spec_device(),
        same == (source.spec_texture() == temp.spec_texture()),
    ensures
        same ==> (result matches Err(e) && e@ is SharedSurface),
        !same ==> (result matches Ok(pair) && pair.well_formed() && pair.spec_source() == source
            && pair.spec_temp() == temp),
{
    if same {
        Err(GlowError::SharedSurface)
    } else {
        Ok(SurfacePair { source, temp })
    }
}

/// Creates the two offscreen surfaces at the given size, the source surface
/// first, or returns what the device refused. Two surfaces that the device
/// made of one texture are refused as shared.
pub(crate) fn create_surfaces(watcher: &mut Watcher<'_>, width: u32, height: u32) -> (result: Result<
    SurfacePair,
    GlowError,
>)
    requires
        old(watcher).captures() <= u64::MAX - 2,
    ensures
        final(watcher).device() == old(watcher).device(),
        old(watcher).captures() <= final(watcher).captures() <= old(watcher).captures() + 2,
        result matches Ok(surfaces) ==> {
            &&& surfaces.well_formed()
            &&& surfaces.spec_source().spec_width() == width
            &&& surfaces.spec_source().spec_height() == height
            &&& surfaces.spec_device() == old(watcher).device()
        },
        result matches Err(error) ==> error@ is Device || error@ is Unanswered || error@ is SharedSurface,
{
    let source = match create_offscreen_texture(watcher, width, height, "Glow Source") {
        Ok(surface) => surface,
        Err(error) => {
            return Err(error);
        },
    };
    let temp = match create_offscreen_texture(watcher, width, height, "Glow Temp") {
        Ok(surface) => surface,
        Err(error) => {
            return Err(error);
        },
    };
    let same = same_texture(source.texture(), temp.texture());
    pair_surfaces(source, temp, same)
}

/// Creates a buffer that holds `bytes`, of which there is at least one.
///
/// Fails before it asks the device when the device allows no buffer that
/// large. The buffer is created mapped; its contents are copied in only
/// after the device has answered that it accepted the buffer.
pub(crate) fn upload(watcher: &mut Watcher<'_>, label: &str, bytes: &Vec<u8>, role: BufferRole) -> (result:
    Result<wgpu::Buffer, GlowError>)
    requires
        old(watcher).captures() <= u64::MAX - 2,
        bytes@.len() > 0,
    ensures
        final(watcher).device() == old(watcher).device(),
        old(watcher).captures() <= final(watcher).captures() <= old(watcher).captures() + 2,
        spec_padded_size(bytes@.len()) > max_buffer_size(old(watcher).device()) ==> result is Err,
        result matches Ok(buffer) ==> {
            &&& buffer_accepted(buffer)
            &&& buffer_device(buffer) == old(watcher).device()
            &&& buffer_contents(buffer) == bytes@
            &&& buffer_role(buffer) == role
            &&& buffer_size(buffer) == spec_padded_size(bytes@.len())
        },
        result matches Err(error) ==> {
            &&& error@ is BufferTooLarge || error@ is Device || error@ is Unanswered
            &&& error@ is BufferTooLarge <==> spec_padded_size(bytes@.len()) > max_buffer_size(old(watcher).device())
        },
{
    let limit = device_max_buffer_size(watcher);
    if bytes.len() as u64 > u64::MAX - 3 {
        return Err(GlowError::BufferTooLarge { size: u64::MAX, limit });
    }
    let size = padded_size(bytes.len());
    if size > limit {
        return Err(GlowError::BufferTooLarge { size, limit });
    }
    let capture = begin_capture(watcher);
    let capture = create_mapped_buffer(capture, label, size, role);
    let pending = match close_buffer(capture) {
        Ok(pending) => pending,
        Err(error) => {
            return Err(error);
        },
    };
    let capture = begin_capture(watcher);
    let buffer = fill_buffer(&capture, pending, bytes.as_slice());
    match close(capture) {
        Some(error) => Err(error),
        None => Ok(buffer),
    }
}

/// The quad that every pass draws, on the device.
pub struct QuadGeometry {
    vertices: wgpu::Buffer,
    indices: wgpu::Buffer,
}

impl QuadGeometry {
    /// The buffer of the four corners.
    pub closed spec fn spec_vertices(&self) -> wgpu::Buffer {
        self.vertices
    }

    /// The buffer of the six indices.
    pub closed spec fn spec_indices(&self) -> wgpu::Buffer {
        self.indices
    }

    /// The device that created both buffers.
    pub open spec fn spec_device(&self) -> wgpu::Device {
        buffer_device(self.spec_vertices())
    }

    /// Both buffers come from one device, which accepted them. The vertex
    /// buffer holds the four corners of the fullscreen quad and
    /// the index buffer its two triangles, each as it lies in memory.
    #[verifier::type_invariant]
    pub open spec fn well_formed(&self) -> bool {
        &&& buffer_device(self.spec_indices()) == buffer_device(self.spec_vertices())
        &&& buffer_accepted(self.spec_vertices())
        &&& buffer_accepted(self.spec_indices())
        &&& buffer_role(self.spec_vertices()) == BufferRole::Vertex
        &&& is_image_of_words(
            buffer_contents(self.spec_vertices()),
            spec_vertex_words(spec_fullscreen_quad()),
        )
        &&& buffer_size(self.spec_vertices()) == QUAD_VERTEX_BYTES
        &&& buffer_role(self.spec_indices()) == BufferRole::Index
        &&& is_image_of_halves(buffer_contents(self.spec_indices()), spec_quad_indices())
        &&& buffer_size(self.spec_indices()) == QUAD_INDEX_BYTES
    }

    /// The buffer of the four corners.
    pub fn vertices(&self) -> (buffer: &wgpu::Buffer)
        ensures
            *buffer == self.spec_vertices(),
    {
        &self.vertices
    }

    /// The buffer of the six indices.
    pub fn indices(&self) -> (buffer: &wgpu::Buffer)
        ensures
            *buffer == self.spec_indices(),
    {
        &self.indices
    }
}

/// Creates the vertex and the index buffer of the fullscreen quad.
///
/// Fails before it asks the device when the device allows no buffer as
/// large as the vertex buffer, and with what the device refused otherwise.
pub(crate) fn create_fullscreen_quad(watcher: &mut Watcher<'_>) -> (result: Result<QuadGeometry, GlowError>)
    requires
        old(watcher).captures() <= u64::MAX - 4,
    ensures
        final(watcher).device() == old(watcher).device(),
        old(watcher).captures() <= final(watcher).captures() <= old(watcher).captures() + 4,
        max_buffer_size(old(watcher).device()) < QUAD_VERTEX_BYTES ==> result is Err,
        result matches Ok(quad) ==> quad.well_formed() && quad.spec_device() == old(watcher).device(),
        result matches Err(error) ==> {
            &&& error@ is BufferTooLarge || error@ is Device || error@ is Unanswered
            &&& error@ is BufferTooLarge <==> max_buffer_size(old(watcher).device()) < QUAD_VERTEX_BYTES
        },
{
    let vertices = fullscreen_quad();
    let words = vertex_words(&vertices);
    let vertex_bytes = image_of_words(&words);
    let indices = quad_indices();
    let index_bytes = image_of_halves(&indices);
    let vertex_buffer = match upload(watcher, "Glow Quad Vertex Buffer", &vertex_bytes, BufferRole::Vertex) {
        Ok(buffer) => buffer,
        Err(error) => {
            return Err(error);
        },
    };
    let index_buffer = match upload(watcher, "Glow Quad Index Buffer", &index_bytes, BufferRole::Index) {
        Ok(buffer) => buffer,
        Err(error) => {
            return Err(error);
        },
    };
    Ok(QuadGeometry { vertices: vertex_buffer, indices: index_buffer })
}

/// Whether a pipeline is the one of a pass: built from the given shader
/// module with the fixed state of the pass, for a target of the given
/// format, over the two bind group layouts in this order.
pub open spec fn pipeline_is(
    pipeline: wgpu::RenderPipeline,
    kind: PassKind,
    format: PixelFormat,
    shader: wgpu::ShaderModule,
    uniforms: wgpu::BindGroupLayout,
    images: wgpu::BindGroupLayout,
) -> bool {
    let model = pipeline_model(pipeline);
    &&& model.shader == shader
    &&& model.state == spec_pipeline(kind, format)
    &&& pipeline_groups(model.layout) == seq![uniforms, images]
}

/// Creates the pipeline of one pass, or returns what the device refused.
pub(crate) fn create_pipeline(
    watcher: &mut Watcher<'_>,
    shader: &wgpu::ShaderModule,
    kind: PassKind,
    uniform_layout: &wgpu::BindGroupLayout,
    texture_layout: &wgpu::BindGroupLayout,
    format: PixelFormat,
) -> (result: Result<wgpu::RenderPipeline, GlowError>)
    requires
        old(watcher).captures() <= u64::MAX - 1,
        shader_device(*shader) == old(watcher).device(),
        layout_device(*uniform_layout) == old(watcher).device(),
        layout_device(*texture_layout) == old(watcher).device(),
    ensures
        final(watcher).device() == old(watcher).device(),
        final(watcher).captures() == old(watcher).captures() + 1,
        result matches Ok(pipeline) ==> pipeline_device(pipeline) == old(watcher).device()
            && pipeline_is(pipeline, kind, format, *shader, *uniform_layout, *texture_layout),
        result matches Err(error) ==> error@ is Device || error@ is Unanswered,
{
    let spec = pipeline_spec(kind, format);
    let target = to_color_target(&spec.target);
    let primitive = to_primitive_state(&spec.primitive);
    let attributes = to_vertex_attributes(&spec.attributes);
    let capture = begin_capture(watcher);
    let layout = create_pipeline_layout(&capture, kind.layout_label(), uniform_layout, texture_layout);
    let pipeline = create_render_pipeline(
        &capture,
        kind.pipeline_label(),
        &layout,
        shader,
        (spec.vertex_entry, spec.fragment_entry),
        spec.vertex_stride,
        attributes.as_slice(),
        target,
        primitive,
        &spec.multisample,
    );
    match close(capture) {
        Some(error) => Err(error),
        None => Ok(pipeline),
    }
}

/// Creates the sampler of the effect, or returns what the device refused.
pub(crate) fn create_linear_sampler(watcher: &mut Watcher<'_>) -> (result: Result<wgpu::Sampler, GlowError>)
    requires
        old(watcher).captures() <= u64::MAX - 1,
    ensures
        final(watcher).device() == old(watcher).device(),
        final(watcher).captures() == old(watcher).captures() + 1,
        result matches Ok(sampler) ==> sampler_settings(sampler) == spec_linear_clamp_sampler()
            && sampler_device(sampler) == old(watcher).device(),
        result matches Err(error) ==> error@ is Device || error@ is Unanswered,
{
    let capture = begin_capture(watcher);
    let sampler = create_sampler(&capture, &linear_clamp_sampler());
    match close(capture) {
        Some(error) => Err(error),
        None => Ok(sampler),
    }
}

/// Creates a bind group layout, or returns what the device refused.
pub(crate) fn create_layout(watcher: &mut Watcher<'_>, label: &str, entries: &Vec<LayoutEntry>) -> (result:
    Result<wgpu::BindGroupLayout, GlowError>)
    requires
        old(watcher).captures() <= u64::MAX - 1,
    ensures
        final(watcher).device() == old(watcher).device(),
        final(watcher).captures() == old(watcher).captures() + 1,
        result matches Ok(layout) ==> layout_entries(layout) == entries@ && layout_device(layout)
            == old(watcher).device(),
        result matches Err(error) ==> error@ is Device || error@ is Unanswered,
{
    let capture = begin_capture(watcher);
    let layout = create_bind_group_layout(&capture, label, entries.as_slice());
    match close(capture) {
        Some(error) => Err(error),
        None => Ok(layout),
    }
}

/// Creates the shader module of the effect from its WGSL text, or returns
/// what the device refused.
pub(crate) fn create_shader(watcher: &mut Watcher<'_>, source: &str) -> (result: Result<
    wgpu::ShaderModule,
    GlowError,
>)
    requires
        old(watcher).captures() <= u64::MAX - 1,
    ensures
        final(watcher).device() == old(watcher).device(),
        final(watcher).captures() == old(watcher).captures() + 1,
        result matches Ok(module) ==> shader_source(module) == source@ && shader_device(module)
            == old(watcher).device(),
        result matches Err(error) ==> error@ is Device || error@ is Unanswered,
{
    let capture = begin_capture(watcher);
    let module = create_shader_module(&capture, "Glow Shader", source);
    match close(capture) {
        Some(error) => Err(error),
        None => Ok(module),
    }
}

/// The pipelines of the four passes.
pub struct PipelineSet {
    extract: wgpu::RenderPipeline,
    blur_horizontal: wgpu::RenderPipeline,
    blur_vertical: wgpu::RenderPipeline,
    composite: wgpu::RenderPipeline,
}

impl PipelineSet {
    /// Puts the pipelines of the four passes together.
    pub(crate) fn new(
        extract: wgpu::RenderPipeline,
        blur_horizontal: wgpu::RenderPipeline,
        blur_vertical: wgpu::RenderPipeline,
        composite: wgpu::RenderPipeline,
    ) -> (set: PipelineSet)
        ensures
            set.spec_get(PassKind::Extract) == extract,
            set.spec_get(PassKind::BlurHorizontal) == blur_horizontal,
            set.spec_get(PassKind::BlurVertical) == blur_vertical,
            set.spec_get(PassKind::Composite) == composite,
    {
        PipelineSet { extract, blur_horizontal, blur_vertical, composite }
    }

    /// The pipeline of a pass.
    pub closed spec fn spec_get(&self, kind: PassKind) -> wgpu::RenderPipeline {
        match kind {
            PassKind::Extract => self.extract,
            PassKind::BlurHorizontal => self.blur_horizontal,
            PassKind::BlurVertical => self.blur_vertical,
            PassKind::Composite => self.composite,
        }
    }

    /// The pipeline of a pass.
    pub fn get(&self, kind: PassKind) -> (pipeline: &wgpu::RenderPipeline)
        ensures
            *pipeline == self.spec_get(kind),
    {
        match kind {
            PassKind::Extract => &self.extract,
            PassKind::BlurHorizontal => &self.blur_horizontal,
            PassKind::BlurVertical => &self.blur_vertical,
            PassKind::Composite => &self.composite,
        }
    }
}

} // verus!
