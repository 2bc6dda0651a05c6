use vstd::prelude::*;
use crate::capture::close;
use crate::descriptors::{
    spec_additive_blend,
    spec_linear_clamp_sampler,
    spec_replace_blend,
    spec_texture_layout,
    spec_uniform_layout,
    texture_layout,
    uniform_layout,
    BufferRole,
    IndexFormat,
    LoadPolicy,
    PixelFormat,
    StorePolicy,
    TEXTURE_GROUP,
    UNIFORM_GROUP,
};
use crate::encoding::is_image_of_words;
use crate::error::GlowError;
use crate::geometry::QUAD_INDICES;
use crate::gpu::{
    begin_capture,
    bound_group,
    buffer_accepted,
    buffer_contents,
    buffer_device,
    buffer_role,
    create_bind_group,
    create_command_encoder,
    encoder_device,
    group_device,
    layout_device,
    layout_entries,
    max_buffer_size,
    pipeline_device,
    pipeline_model,
    queue_device,
    record_pass,
    requested_passes,
    sampler_device,
    sampler_settings,
    shader_source,
    view_device,
    viewed_texture,
    watch,
    Binding,
    Bound,
    BoundEntry,
    BoundGroup,
    Capture,
    RecordedPass,
    Resource,
    Watcher,
};
use crate::params::{Dimensions, ExperimentalGlow, GlowUniform};
use crate::passes::{frame_passes, spec_pass_order, spec_pipeline, PassKind, Surface, PASS_COUNT};
use crate::resources::{
    create_fullscreen_quad,
    create_layout,
    create_linear_sampler,
    create_surfaces,
    create_pipeline,
    create_shader,
    pipeline_is,
    upload,
    OffscreenSurface,
    PipelineSet,
    QuadGeometry,
    SurfacePair,
    QUAD_VERTEX_BYTES,
};

verus! {

/// The glow effect of one output surface.
pub struct GlowRenderer {
    surfaces: SurfacePair,
    pipelines: PipelineSet,
    uniform_bind_group_layout: wgpu::BindGroupLayout,
    texture_bind_group_layout: wgpu::BindGroupLayout,
    linear_sampler: wgpu::Sampler,
    quad: QuadGeometry,
    format: PixelFormat,
}

impl GlowRenderer {
    /// The first offscreen surface, which holds the extracted and in the
    /// end the blurred glow.
    pub closed spec fn spec_source(&self) -> OffscreenSurface {
        self.surfaces.spec_source()
    }

    /// The second offscreen surface, which holds the glow between the two
    /// blurs.
    pub closed spec fn spec_temp(&self) -> OffscreenSurface {
        self.surfaces.spec_temp()
    }

    /// The pipeline of a pass.
    pub closed spec fn spec_pipeline(&self, kind: PassKind) -> wgpu::RenderPipeline {
        self.pipelines.spec_get(kind)
    }

    /// The layout of the bind group that holds the parameters.
    pub closed spec fn spec_uniform_layout(&self) -> wgpu::BindGroupLayout {
        self.uniform_bind_group_layout
    }

    /// The layout of the bind group that holds the input of a pass.
    pub closed spec fn spec_texture_layout(&self) -> wgpu::BindGroupLayout {
        self.texture_bind_group_layout
    }

    /// The sampler through which every pass reads its input.
    pub closed spec fn spec_sampler(&self) -> wgpu::Sampler {
        self.linear_sampler
    }

    /// The quad that every pass draws.
    pub closed spec fn spec_quad(&self) -> QuadGeometry {
        self.quad
    }

    /// The format of the image that the effect is applied to.
    pub closed spec fn spec_format(&self) -> PixelFormat {
        self.format
    }

    /// The device that created every resource of the renderer.
    pub open spec fn spec_device(&self) -> wgpu::Device {
        self.spec_source().spec_device()
    }

    /// The width of the output in pixels.
    pub open spec fn spec_width(&self) -> u32 {
        self.spec_source().spec_width()
    }

    /// The height of the output in pixels.
    pub open spec fn spec_height(&self) -> u32 {
        self.spec_source().spec_height()
    }

    /// The shader module that all four pipelines were built from.
    pub open spec fn spec_shader(&self) -> wgpu::ShaderModule {
        pipeline_model(self.spec_pipeline(PassKind::Extract)).shader
    }

    /// What holds of every renderer.
    ///
    /// The pipeline of each pass has the fixed state of that pass; all four
    /// come from one shader module and lie over the two bind group layouts
    /// of the renderer, parameters first. The layouts and the sampler are
    /// those of the effect. One device created every resource, and it
    /// allows buffers as large as the quad's. Both
    /// surfaces have the shape of an offscreen
    /// surface at the size of the output, and the buffers of the quad hold
    /// the quad.
    #[verifier::type_invariant]
    pub open spec fn well_formed(&self) -> bool {
        &&& self.has_pipeline(PassKind::Extract)
        &&& self.has_pipeline(PassKind::BlurHorizontal)
        &&& self.has_pipeline(PassKind::BlurVertical)
        &&& self.has_pipeline(PassKind::Composite)
        &&& layout_entries(self.spec_uniform_layout()) == spec_uniform_layout()
        &&& layout_entries(self.spec_texture_layout()) == spec_texture_layout()
        &&& sampler_settings(self.spec_sampler()) == spec_linear_clamp_sampler()
        &&& self.spec_source().well_formed()
        &&& self.spec_temp().well_formed()
        &&& self.spec_temp().spec_width() == self.spec_source().spec_width()
        &&& self.spec_temp().spec_height() == self.spec_source().spec_height()
        &&& self.spec_source().spec_texture() != self.spec_temp().spec_texture()
        &&& self.spec_quad().well_formed()
        &&& self.spec_temp().spec_device() == self.spec_device()
        &&& self.spec_quad().spec_device() == self.spec_device()
        &&& buffer_device(self.spec_quad().spec_indices()) == self.spec_device()
        &&& sampler_device(self.spec_sampler()) == self.spec_device()
        &&& layout_device(self.spec_uniform_layout()) == self.spec_device()
        &&& layout_device(self.spec_texture_layout()) == self.spec_device()
        &&& max_buffer_size(self.spec_device()) >= QUAD_VERTEX_BYTES
    }

    /// Whether the pipeline that the renderer holds for a pass is the one
    /// of that pass.
    pub open spec fn has_pipeline(&self, kind: PassKind) -> bool {
        &&& pipeline_device(self.spec_pipeline(kind)) == self.spec_device()
        &&& pipeline_is(
            self.spec_pipeline(kind),
            kind,
            self.spec_format(),
            self.spec_shader(),
            self.spec_uniform_layout(),
            self.spec_texture_layout(),
        )
    }

    /// The view of one of the images that the passes work on, where `main`
    /// is the view of the caller's image.
    pub open spec fn spec_view(&self, surface: Surface, main: wgpu::TextureView) -> wgpu::TextureView {
        match surface {
            Surface::Main => main,
            Surface::Source => self.spec_source().spec_view(),
            Surface::Temp => self.spec_temp().spec_view(),
        }
    }

    /// The width of the output in pixels.
    pub fn width(&self) -> (width: u32)
        ensures
            width == self.spec_width(),
    {
        self.surfaces.source().width()
    }

    /// The height of the output in pixels.
    pub fn height(&self) -> (height: u32)
        ensures
            height == self.spec_height(),
    {
        self.surfaces.source().height()
    }

    /// The format of the image that the effect is applied to.
    pub fn format(&self) -> (format: PixelFormat)
        ensures
            format == self.spec_format(),
    {
        self.format
    }

    /// The first offscreen surface.
    pub fn source(&self) -> (surface: &OffscreenSurface)
        ensures
            *surface == self.spec_source(),
            surface.spec_width() == self.spec_width(),
            surface.spec_height() == self.spec_height(),
    {
        self.surfaces.source()
    }

    /// The second offscreen surface.
    pub fn temp(&self) -> (surface: &OffscreenSurface)
        ensures
            *surface == self.spec_temp(),
            surface.spec_width() == self.spec_width(),
            surface.spec_height() == self.spec_height(),
    {
        proof {
            use_type_invariant(self);
        }
        self.surfaces.temp()
    }

    /// The pipeline of a pass.
    pub fn pipeline(&self, kind: PassKind) -> (pipeline: &wgpu::RenderPipeline)
        ensures
            *pipeline == self.spec_pipeline(kind),
            pipeline_model(*pipeline).state == spec_pipeline(kind, self.spec_format()),
    {
        proof {
            use_type_invariant(self);
        }
        self.pipelines.get(kind)
    }

    /// The quad that every pass draws.
    pub fn quad(&self) -> (quad: &QuadGeometry)
        ensures
            *quad == self.spec_quad(),
    {
        &self.quad
    }

    /// The sampler through which every pass reads its input.
    pub fn sampler(&self) -> (sampler: &wgpu::Sampler)
        ensures
            *sampler == self.spec_sampler(),
            sampler_settings(*sampler) == spec_linear_clamp_sampler(),
    {
        proof {
            use_type_invariant(self);
        }
        &self.linear_sampler
    }

    /// The view of one of the images that the passes work on.
    fn view<'a>(&'a self, surface: Surface, main: &'a wgpu::TextureView) -> (view: &'a wgpu::TextureView)
        ensures
            *view == self.spec_view(surface, *main),
    {
        match surface {
            Surface::Main => main,
            Surface::Source => self.surfaces.source().view(),
            Surface::Temp => self.surfaces.temp().view(),
        }
    }

    /// Creates the resources of the effect one after the other and stops at
    /// the first that the device refuses.
    fn build(
        device: &wgpu::Device,
        surface_format: PixelFormat,
        width: u32,
        height: u32,
        shader_source: &str,
    ) -> (result: Result<GlowRenderer, GlowError>)
        ensures
            max_buffer_size(*device) < QUAD_VERTEX_BYTES ==> result is Err,
            result matches Ok(renderer) ==> renderer.well_formed() && renderer.spec_device()
                == *device && renderer.built_from(surface_format, width, height, shader_source@),
            result matches Err(error) ==> {
                &&& error@ is BufferTooLarge || error@ is Device || error@ is Unanswered
                    || error@ is SharedSurface
                &&& error@ is BufferTooLarge ==> max_buffer_size(*device) < QUAD_VERTEX_BYTES
            },
    {
        let mut watcher = watch(device);
        let surfaces = match create_surfaces(&mut watcher, width, height) {
            Ok(surfaces) => surfaces,
            Err(error) => {
                return Err(error);
            },
        };
        let linear_sampler = match create_linear_sampler(&mut watcher) {
            Ok(sampler) => sampler,
            Err(error) => {
                return Err(error);
            },
        };
        let uniform_entries = uniform_layout();
        let uniform_bind_group_layout = match create_layout(
            &mut watcher,
            "Glow Uniform Bind Group Layout",
            &uniform_entries,
        ) {
            Ok(layout) => layout,
            Err(error) => {
                return Err(error);
            },
        };
        let texture_entries = texture_layout();
        let texture_bind_group_layout = match create_layout(
            &mut watcher,
            "Glow Texture Bind Group Layout",
            &texture_entries,
        ) {
            Ok(layout) => layout,
            Err(error) => {
                return Err(error);
            },
        };
        let shader = match create_shader(&mut watcher, shader_source) {
            Ok(module) => module,
            Err(error) => {
                return Err(error);
            },
        };
        let extract = match create_pipeline(
            &mut watcher,
            &shader,
            PassKind::Extract,
            &uniform_bind_group_layout,
            &texture_bind_group_layout,
            surface_format,
        ) {
            Ok(pipeline) => pipeline,
            Err(error) => {
                return Err(error);
            },
        };
        let blur_horizontal = match create_pipeline(
            &mut watcher,
            &shader,
            PassKind::BlurHorizontal,
            &uniform_bind_group_layout,
            &texture_bind_group_layout,
            surface_format,
        ) {
            Ok(pipeline) => pipeline,
            Err(error) => {
                return Err(error);
            },
        };
        let blur_vertical = match create_pipeline(
            &mut watcher,
            &shader,
            PassKind::BlurVertical,
            &uniform_bind_group_layout,
            &texture_bind_group_layout,
            surface_format,
        ) {
            Ok(pipeline) => pipeline,
            Err(error) => {
                return Err(error);
            },
        };
        let composite = match create_pipeline(
            &mut watcher,
            &shader,
            PassKind::Composite,
            &uniform_bind_group_layout,
            &texture_bind_group_layout,
            surface_format,
        ) {
            Ok(pipeline) => pipeline,
            Err(error) => {
                return Err(error);
            },
        };
        let quad = match create_fullscreen_quad(&mut watcher) {
            Ok(quad) => quad,
            Err(error) => {
                return Err(error);
            },
        };
        let renderer = GlowRenderer {
            surfaces,
            pipelines: PipelineSet::new(extract, blur_horizontal, blur_vertical, composite),
            uniform_bind_group_layout,
            texture_bind_group_layout,
            linear_sampler,
            quad,
            format: surface_format,
        };
        proof {
            use_type_invariant(&renderer);
        }
        Ok(renderer)
    }

    /// Whether the renderer is as [`GlowRenderer::new`] makes it from these
    /// arguments: of this size, with pipelines for a target of this format,
    /// built from a shader module of this text.
    pub open spec fn built_from(
        &self,
        format: PixelFormat,
        width: u32,
        height: u32,
        shader_text: Seq<char>,
    ) -> bool {
        &&& self.spec_format() == format
        &&& self.spec_width() == width
        &&& self.spec_height() == height
        &&& shader_source(self.spec_shader()) == shader_text
    }

    /// Creates the effect for an output of the given format and size, with
    /// the shader whose WGSL text is given.
    ///
    /// The text has to define the vertex entry point `vs_fullscreen` and the
    /// fragment entry points `fs_extract`, `fs_blur_h`, `fs_blur_v` and
    /// `fs_composite`, over the bind groups and the vertex record of this
    /// library. Whether it does is for the device to say. The resources are
    /// created in a fixed order: the source surface, the temp surface, the
    /// sampler, the two bind group layouts, the shader module, the pipelines
    /// of the four passes in their order, the quad. The device is asked
    /// after each what it refused; at the first refusal that is returned
    /// and nothing is kept.
    ///
    /// All four pipelines are built for a target of `surface_format`, those
    /// of the passes that draw into an offscreen surface too. A device that
    /// holds the format of a pipeline against the target of each pass will
    /// record a frame only for an output in the format of the offscreen
    /// surfaces.
    pub fn new(
        device: &wgpu::Device,
        surface_format: PixelFormat,
        dimensions: &Dimensions,
        shader_source: &str,
    ) -> (result: Result<GlowRenderer, GlowError>)
        ensures
            result matches Ok(renderer) ==> renderer.well_formed() && renderer.spec_device()
                == *device && renderer.built_from(
                surface_format,
                dimensions.spec_width(),
                dimensions.spec_height(),
                shader_source@,
            ),
            max_buffer_size(*device) < QUAD_VERTEX_BYTES ==> result is Err,
            result matches Err(error) ==> {
                &&& error@ is BufferTooLarge || error@ is Device || error@ is Unanswered
                    || error@ is SharedSurface
                &&& error@ is BufferTooLarge ==> max_buffer_size(*device) < QUAD_VERTEX_BYTES
            },
    {
        let width = dimensions.width();
        let height = dimensions.height();
        GlowRenderer::build(device, surface_format, width, height, shader_source)
    }
}

/// What a call of [`GlowRenderer::resize`] to the given size makes of a
/// renderer, where `ok` says whether the call succeeded.
///
/// Nothing but the surfaces is ever touched, and the renderer stays with
/// its device. A call to the size that the
/// renderer already has changes nothing and succeeds. Any other call either
/// succeeds, and the renderer has the new size, or fails, and the renderer
/// is as it was.
pub open spec fn resize_outcome(
    before: GlowRenderer,
    after: GlowRenderer,
    width: u32,
    height: u32,
    ok: bool,
) -> bool {
    &&& forall|kind: PassKind| #[trigger] after.spec_pipeline(kind) == before.spec_pipeline(kind)
    &&& after.spec_uniform_layout() == before.spec_uniform_layout()
    &&& after.spec_texture_layout() == before.spec_texture_layout()
    &&& after.spec_sampler() == before.spec_sampler()
    &&& after.spec_quad() == before.spec_quad()
    &&& after.spec_format() == before.spec_format()
    &&& after.spec_device() == before.spec_device()
    &&& if before.spec_width() == width && before.spec_height() == height {
        ok && after == before
    } else if ok {
        after.spec_width() == width && after.spec_height() == height
    } else {
        after == before
    }
}

/// Resizing twice to the same size is resizing once: after a call that
/// succeeded, a second call to that size succeeds too and leaves every
/// resource, the surfaces included, as the first call left it.
pub proof fn lemma_resize_is_idempotent(
    start: GlowRenderer,
    once: GlowRenderer,
    twice: GlowRenderer,
    width: u32,
    height: u32,
    second_ok: bool,
)
    requires
        resize_outcome(start, once, width, height, true),
        resize_outcome(once, twice, width, height, second_ok),
    ensures
        second_ok,
        twice == once,
{
}

/// In every renderer the composite pipeline adds what it draws to its
/// target, with factors of one for color and for alpha, and the pipeline of
/// every other pass overwrites its target.
pub proof fn lemma_renderer_blends(renderer: GlowRenderer, kind: PassKind)
    requires
        renderer.well_formed(),
    ensures
        pipeline_model(renderer.spec_pipeline(kind)).state.target.blend == kind.spec_blend(),
        kind == PassKind::Composite ==> pipeline_model(renderer.spec_pipeline(kind)).state.target.blend
            == spec_additive_blend(),
        kind != PassKind::Composite ==> pipeline_model(renderer.spec_pipeline(kind)).state.target.blend
            == spec_replace_blend(),
{
    assert(renderer.has_pipeline(kind));
}

/// The passes of a recorded frame are kept apart.
///
/// The extract pass samples the caller's image and draws into the source
/// surface. The horizontal blur samples the source surface and draws into
/// the temp surface; the vertical blur samples the temp surface and draws
/// into the source surface. The composite pass samples the source surface
/// and draws into the caller's image, which it alone keeps instead of
/// clearing. Each pass samples through one bind group that holds a single
/// view, so it reads no other image. The views of the two surfaces show two
/// different textures, so neither blur samples the texture it draws into.
pub proof fn lemma_frame_isolation(
    renderer: GlowRenderer,
    passes: Seq<RecordedPass>,
    main: wgpu::TextureView,
    config: ExperimentalGlow,
)
    requires
        renderer.well_formed(),
        renderer.is_frame(passes, main, config),
    ensures
        viewed_texture(renderer.spec_source().spec_view()) != viewed_texture(
            renderer.spec_temp().spec_view(),
        ),
        passes[0].target == renderer.spec_source().spec_view(),
        renderer.holds_input(passes[0].groups[1], main),
        passes[1].target == renderer.spec_temp().spec_view(),
        renderer.holds_input(passes[1].groups[1], renderer.spec_source().spec_view()),
        passes[2].target == renderer.spec_source().spec_view(),
        renderer.holds_input(passes[2].groups[1], renderer.spec_temp().spec_view()),
        passes[3].target == main,
        renderer.holds_input(passes[3].groups[1], renderer.spec_source().spec_view()),
        forall|i: int|
            0 <= i < 4 ==> ((#[trigger] passes[i]).load == LoadPolicy::Load <==> i == 3),
        forall|i: int|
            0 <= i < 4 ==> ((#[trigger] passes[i]).load == LoadPolicy::ClearBlack <==> i != 3),
        forall|i: int|
            0 <= i < 4 ==> {
                &&& bound_group((#[trigger] passes[i]).groups[1]).entries.len() == 2
                &&& bound_group(passes[i].groups[1]).entries[0].resource is Texture
                &&& bound_group(passes[i].groups[1]).entries[1].resource == Bound::Sampler(
                    renderer.spec_sampler(),
                )
            },
{
}

/// The render passes that a frame adds to those recorded `before`, given
/// all that are recorded `after` it.
pub open spec fn passes_added(before: Seq<RecordedPass>, after: Seq<RecordedPass>) -> Seq<RecordedPass> {
    after.skip(before.len() as int)
}

impl GlowRenderer {
    /// Whether the bind group holds the parameters of a frame: one uniform
    /// buffer whose bytes are the four numbers of the settings, as they lie
    /// in memory, under the parameter layout of the renderer.
    pub open spec fn holds_parameters(&self, uniforms: wgpu::BindGroup, config: ExperimentalGlow) -> bool {
        let group = bound_group(uniforms);
        &&& group.layout == self.spec_uniform_layout()
        &&& group.entries.len() == 1
        &&& group.entries[0].binding == 0
        &&& group.entries[0].resource matches Bound::Buffer(buffer)
        &&& buffer_accepted(buffer)
        &&& buffer_role(buffer) == BufferRole::Uniform
        &&& is_image_of_words(buffer_contents(buffer), config.spec_uniform().spec_words())
    }

    /// Whether the bind group holds the input of a pass: the given view and
    /// the sampler of the renderer, under its image layout.
    pub open spec fn holds_input(&self, images: wgpu::BindGroup, view: wgpu::TextureView) -> bool {
        bound_group(images) == (BoundGroup {
            layout: self.spec_texture_layout(),
            entries: seq![
                BoundEntry { binding: 0, resource: Bound::Texture(view) },
                BoundEntry { binding: 1, resource: Bound::Sampler(self.spec_sampler()) },
            ],
        })
    }

    /// Whether a recorded pass is the pass of the given kind of a frame on
    /// the image behind `main`, with the parameters in `uniforms`.
    ///
    /// It runs the pipeline of the kind, samples the input of the kind and
    /// nothing else, draws the quad into the target of the kind, and clears
    /// or keeps the target as the kind says.
    pub open spec fn is_pass(
        &self,
        pass: RecordedPass,
        kind: PassKind,
        main: wgpu::TextureView,
        uniforms: wgpu::BindGroup,
    ) -> bool {
        &&& pass.pipeline == self.spec_pipeline(kind)
        &&& pass.target == self.spec_view(kind.spec_target(), main)
        &&& pass.load == kind.spec_load()
        &&& pass.store == StorePolicy::Store
        &&& pass.groups.len() == 2
        &&& pass.groups[UNIFORM_GROUP as int] == uniforms
        &&& self.holds_input(
            pass.groups[TEXTURE_GROUP as int],
            self.spec_view(kind.spec_input(), main),
        )
        &&& pass.vertices == self.spec_quad().spec_vertices()
        &&& pass.indices == self.spec_quad().spec_indices()
        &&& pass.index_format == IndexFormat::Uint16
        &&& pass.index_count == QUAD_INDICES
        &&& pass.instance_count == 1
    }

    /// Whether `passes` are the passes of one frame of the effect on the
    /// image behind `main`: extract, horizontal blur, vertical blur and
    /// composite in this order, all with one bind group of parameters, which
    /// holds the given settings.
    pub open spec fn is_frame(
        &self,
        passes: Seq<RecordedPass>,
        main: wgpu::TextureView,
        config: ExperimentalGlow,
    ) -> bool {
        &&& passes.len() == PASS_COUNT
        &&& self.holds_parameters(passes[0].groups[0], config)
        &&& self.is_pass(passes[0], PassKind::Extract, main, passes[0].groups[0])
        &&& self.is_pass(passes[1], PassKind::BlurHorizontal, main, passes[0].groups[0])
        &&& self.is_pass(passes[2], PassKind::BlurVertical, main, passes[0].groups[0])
        &&& self.is_pass(passes[3], PassKind::Composite, main, passes[0].groups[0])
    }

    /// Brings the surfaces to the size of the output, on a device that is
    /// watched.
    ///
    /// Nothing happens when the size is the one the renderer has: the
    /// device is asked nothing, so the watcher is left as it was. Otherwise
    /// both surfaces are created anew; the old ones are kept until the
    /// device has accepted the new ones, and for good if it refuses. For
    /// that the device has to be the one that the renderer was created on.
    pub fn resize_watched(&mut self, watcher: &mut Watcher<'_>, dimensions: &Dimensions) -> (result:
        Result<(), GlowError>)
        requires
            old(watcher).captures() <= u64::MAX - 2,
            dimensions.spec_width() != old(self).spec_width() || dimensions.spec_height() != old(
                self,
            ).spec_height() ==> old(watcher).device() == old(self).spec_device(),
        ensures
            resize_outcome(
                *old(self),
                *final(self),
                dimensions.spec_width(),
                dimensions.spec_height(),
                result is Ok,
            ),
            final(self).well_formed(),
            final(watcher).device() == old(watcher).device(),
            old(watcher).captures() <= final(watcher).captures() <= old(watcher).captures() + 2,
            dimensions.spec_width() == old(self).spec_width() && dimensions.spec_height() == old(
                self,
            ).spec_height() ==> *final(watcher) == *old(watcher),
            result matches Err(error) ==> error@ is Device || error@ is Unanswered || error@
                is SharedSurface,
    {
        let new_width = dimensions.width();
        let new_height = dimensions.height();
        if new_width != self.width() || new_height != self.height() {
            proof {
                use_type_invariant(&*self);
            }
            let surfaces = match create_surfaces(watcher, new_width, new_height) {
                Ok(surfaces) => surfaces,
                Err(error) => {
                    return Err(error);
                },
            };
            self.surfaces = surfaces;
        }
        proof {
            use_type_invariant(&*self);
        }
        Ok(())
    }

    /// Brings the surfaces to the size of the output.
    ///
    /// Nothing happens when the size is the one the renderer has. Otherwise
    /// both surfaces are created anew; the old ones are kept until the
    /// device has accepted the new ones, and for good if it refuses. For
    /// that the device has to be the one that the renderer was created on.
    pub fn resize(&mut self, device: &wgpu::Device, dimensions: &Dimensions) -> (result: Result<
        (),
        GlowError,
    >)
        requires
            dimensions.spec_width() != old(self).spec_width() || dimensions.spec_height() != old(
                self,
            ).spec_height() ==> *device == old(self).spec_device(),
        ensures
            resize_outcome(
                *old(self),
                *final(self),
                dimensions.spec_width(),
                dimensions.spec_height(),
                result is Ok,
            ),
            final(self).well_formed(),
            result matches Err(error) ==> error@ is Device || error@ is Unanswered || error@
                is SharedSurface,
    {
        let mut watcher = watch(device);
        self.resize_watched(&mut watcher, dimensions)
    }

    /// Creates the bind group that holds the parameters of a frame.
    fn bind_parameters(
        &self,
        capture: &Capture<'_>,
        buffer: &wgpu::Buffer,
        config: &ExperimentalGlow,
    ) -> (uniforms: wgpu::BindGroup)
        requires
            capture.device() == self.spec_device(),
            buffer_device(*buffer) == capture.device(),
            buffer_accepted(*buffer),
            buffer_role(*buffer) == BufferRole::Uniform,
            is_image_of_words(buffer_contents(*buffer), config.spec_uniform().spec_words()),
        ensures
            group_device(uniforms) == capture.device(),
            self.holds_parameters(uniforms, *config),
    {
        proof {
            use_type_invariant(self);
        }
        let mut bindings: Vec<Binding<'_>> = Vec::new();
        bindings.push(Binding { binding: 0, resource: Resource::Buffer(buffer) });
        let uniforms = create_bind_group(
            capture,
            "Glow Uniform Bind Group",
            &self.uniform_bind_group_layout,
            bindings.as_slice(),
        );
        assert(bound_group(uniforms).entries[0].resource == Bound::Buffer(*buffer));
        uniforms
    }

    /// Creates the bind group through which a pass reads `view`.
    fn bind_input(&self, capture: &Capture<'_>, label: &str, view: &wgpu::TextureView) -> (images:
        wgpu::BindGroup)
        requires
            capture.device() == self.spec_device(),
            view_device(*view) == capture.device(),
        ensures
            group_device(images) == capture.device(),
            self.holds_input(images, *view),
    {
        proof {
            use_type_invariant(self);
        }
        let mut bindings: Vec<Binding<'_>> = Vec::new();
        bindings.push(Binding { binding: 0, resource: Resource::Texture(view) });
        bindings.push(Binding { binding: 1, resource: Resource::Sampler(&self.linear_sampler) });
        let images = create_bind_group(
            capture,
            label,
            &self.texture_bind_group_layout,
            bindings.as_slice(),
        );
        assert(bound_group(images).entries =~= seq![
            BoundEntry { binding: 0, resource: Bound::Texture(*view) },
            BoundEntry { binding: 1, resource: Bound::Sampler(self.spec_sampler()) },
        ]);
        images
    }

    /// Asks the encoder for one pass of a frame.
    fn record(
        &self,
        capture: &Capture<'_>,
        encoder: &mut wgpu::CommandEncoder,
        main_color_view: &wgpu::TextureView,
        uniforms: &wgpu::BindGroup,
        kind: PassKind,
    )
        requires
            capture.device() == self.spec_device(),
            encoder_device(*old(encoder)) == capture.device(),
            view_device(*main_color_view) == capture.device(),
            group_device(*uniforms) == capture.device(),
        ensures
            encoder_device(*final(encoder)) == encoder_device(*old(encoder)),
            requested_passes(*final(encoder)).len() == requested_passes(*old(encoder)).len() + 1,
            requested_passes(*final(encoder)).drop_last() == requested_passes(*old(encoder)),
            self.is_pass(requested_passes(*final(encoder)).last(), kind, *main_color_view, *uniforms),
    {
        proof {
            use_type_invariant(self);
            use_type_invariant(&self.quad);
            assert(self.has_pipeline(kind));
        }
        let input = self.view(kind.input(), main_color_view);
        let images = self.bind_input(capture, kind.input_label(), input);
        let target = self.view(kind.target(), main_color_view);
        record_pass(
            capture,
            encoder,
            kind.pass_label(),
            target,
            kind.load(),
            self.pipelines.get(kind),
            (uniforms, &images),
            (self.quad.vertices(), self.quad.indices()),
            QUAD_INDICES,
        );
        assert(requested_passes(*encoder).drop_last() =~= requested_passes(*old(encoder)));
    }

    /// Asks the encoder for the passes of a frame, one after the other.
    fn record_frame(
        &self,
        capture: &Capture<'_>,
        encoder: &mut wgpu::CommandEncoder,
        main_color_view: &wgpu::TextureView,
        uniforms: &wgpu::BindGroup,
        passes: &Vec<PassKind>,
    )
        requires
            capture.device() == self.spec_device(),
            encoder_device(*old(encoder)) == capture.device(),
            view_device(*main_color_view) == capture.device(),
            group_device(*uniforms) == capture.device(),
            passes@ == spec_pass_order(),
        ensures
            encoder_device(*final(encoder)) == encoder_device(*old(encoder)),
            self.frame_added(
                requested_passes(*old(encoder)),
                requested_passes(*final(encoder)),
                *main_color_view,
                *uniforms,
            ),
    {
        let ghost before = requested_passes(*encoder);
        let mut done: usize = 0;
        while done < passes.len()
            invariant
                0 <= done <= PASS_COUNT,
                passes@ == spec_pass_order(),
                capture.device() == self.spec_device(),
                view_device(*main_color_view) == capture.device(),
                group_device(*uniforms) == capture.device(),
                encoder_device(*encoder) == capture.device(),
                encoder_device(*encoder) == encoder_device(*old(encoder)),
                requested_passes(*encoder).len() == before.len() + done,
                requested_passes(*encoder).take(before.len() as int) == before,
                forall|kind: PassKind|
                    kind.spec_index() < done ==> self.is_pass(
                        #[trigger] requested_passes(*encoder)[before.len() + kind.spec_index()],
                        kind,
                        *main_color_view,
                        *uniforms,
                    ),
            decreases PASS_COUNT - done,
        {
            let kind: PassKind = passes[done];
            let ghost earlier = requested_passes(*encoder);
            self.record(capture, encoder, main_color_view, uniforms, kind);
            proof {
                let now = requested_passes(*encoder);
                assert(now.drop_last() == earlier);
                assert(forall|i: int| 0 <= i < earlier.len() ==> now[i] == now.drop_last()[i]);
                assert(now.take(before.len() as int) =~= before);
                assert(kind.spec_index() == done);
                assert(now[before.len() + done] == now.last());
            }
            done = done + 1;
        }
        proof {
            let after = requested_passes(*encoder);
            let added = passes_added(before, after);
            assert(added[0] == after[before.len() + PassKind::Extract.spec_index()]);
            assert(added[1] == after[before.len() + PassKind::BlurHorizontal.spec_index()]);
            assert(added[2] == after[before.len() + PassKind::BlurVertical.spec_index()]);
            assert(added[3] == after[before.len() + PassKind::Composite.spec_index()]);
        }
    }

    /// Whether the passes asked `after` a frame are those asked `before` it
    /// followed by the four passes of the effect on the image behind `main`,
    /// all with the bind group `uniforms` for parameters.
    pub open spec fn frame_added(
        &self,
        before: Seq<RecordedPass>,
        after: Seq<RecordedPass>,
        main: wgpu::TextureView,
        uniforms: wgpu::BindGroup,
    ) -> bool {
        let added = passes_added(before, after);
        &&& after.len() == before.len() + PASS_COUNT
        &&& after.take(before.len() as int) == before
        &&& self.is_pass(added[0], PassKind::Extract, main, uniforms)
        &&& self.is_pass(added[1], PassKind::BlurHorizontal, main, uniforms)
        &&& self.is_pass(added[2], PassKind::BlurVertical, main, uniforms)
        &&& self.is_pass(added[3], PassKind::Composite, main, uniforms)
    }

    /// Whether `after` is what a frame of the effect makes of the encoder
    /// `before`: the same encoder of the same device, asked for four more
    /// passes, which are the frame of the effect on the image behind `main`
    /// with the given settings.
    pub open spec fn frame_asked(
        &self,
        before: wgpu::CommandEncoder,
        after: wgpu::CommandEncoder,
        main: wgpu::TextureView,
        config: ExperimentalGlow,
    ) -> bool {
        &&& encoder_device(after) == encoder_device(before)
        &&& requested_passes(after).len() == requested_passes(before).len() + PASS_COUNT
        &&& requested_passes(after).take(requested_passes(before).len() as int) == requested_passes(
            before,
        )
        &&& self.is_frame(
            passes_added(requested_passes(before), requested_passes(after)),
            main,
            config,
        )
    }

    /// Creates an encoder of `device`, which nothing has been asked of yet,
    /// for [`GlowRenderer::render_glow`] to ask for a frame.
    ///
    /// The queue has to be that of `device`; as long as it is there, the
    /// device can make encoders.
    pub fn create_encoder(device: &wgpu::Device, queue: &wgpu::Queue, label: &str) -> (result: Result<
        wgpu::CommandEncoder,
        GlowError,
    >)
        requires
            queue_device(*queue) == *device,
        ensures
            result matches Ok(encoder) ==> encoder_device(encoder) == *device && requested_passes(
                encoder,
            ) == Seq::<RecordedPass>::empty(),
            result matches Err(error) ==> error@ is Device || error@ is Unanswered,
    {
        let mut watcher = watch(device);
        let capture = begin_capture(&mut watcher);
        let encoder = create_command_encoder(&capture, queue, label);
        match close(capture) {
            Some(error) => Err(error),
            None => Ok(encoder),
        }
    }

    /// Asks the encoder for the effect of one frame, on a device that is
    /// watched.
    ///
    /// For a frame that runs the effect, the device has to be the one that
    /// the renderer was created on, and the encoder and the caller's image
    /// have to come from it too: the encoder reports what it refuses to the
    /// device that created it, and that is where this call listens.
    ///
    /// With the effect switched off, or a strength or a radius that is at
    /// most zero, nothing at all is asked, of the encoder or of the device:
    /// encoder and watcher are left as they were, and the call succeeds.
    /// Otherwise the settings go into a fresh uniform buffer, which is
    /// never too large for a device that holds the quad; if the device does
    /// not accept that buffer the call fails and nothing is asked of the
    /// encoder. Then the four passes are asked after whatever the encoder
    /// holds: extract from the caller's image into the source surface, blur
    /// from source to temp and from temp to source, and composite from
    /// source onto the caller's image. The call succeeds if the device
    /// refused none of it.
    pub fn render_glow_watched(
        &self,
        watcher: &mut Watcher<'_>,
        encoder: &mut wgpu::CommandEncoder,
        main_color_view: &wgpu::TextureView,
        glow_config: &ExperimentalGlow,
    ) -> (result: Result<(), GlowError>)
        requires
            old(watcher).captures() <= u64::MAX - 3,
            glow_config.spec_is_active() ==> {
                &&& old(watcher).device() == self.spec_device()
                &&& encoder_device(*old(encoder)) == old(watcher).device()
                &&& view_device(*main_color_view) == old(watcher).device()
            },
        ensures
            final(watcher).device() == old(watcher).device(),
            old(watcher).captures() <= final(watcher).captures() <= old(watcher).captures() + 3,
            !glow_config.spec_is_active() ==> {
                &&& result is Ok
                &&& *final(encoder) == *old(encoder)
                &&& *final(watcher) == *old(watcher)
            },
            glow_config.spec_is_active() ==> {
                ||| result is Err && *final(encoder) == *old(encoder)
                ||| self.frame_asked(*old(encoder), *final(encoder), *main_color_view, *glow_config)
            },
            glow_config.spec_is_active() && result is Ok ==> self.frame_asked(
                *old(encoder),
                *final(encoder),
                *main_color_view,
                *glow_config,
            ),
            result matches Err(error) ==> error@ is Device || error@ is Unanswered,
    {
        proof {
            use_type_invariant(self);
        }
        let passes = frame_passes(glow_config);
        if passes.len() == 0 {
            return Ok(());
        }
        let uniform = GlowUniform::from(glow_config);
        let bytes = uniform.bytes();
        let buffer = match upload(watcher, "Glow Uniform Buffer", &bytes, BufferRole::Uniform) {
            Ok(buffer) => buffer,
            Err(error) => {
                return Err(error);
            },
        };
        let capture = begin_capture(watcher);
        let uniforms = self.bind_parameters(&capture, &buffer, glow_config);
        self.record_frame(&capture, encoder, main_color_view, &uniforms, &passes);
        match close(capture) {
            Some(error) => Err(error),
            None => Ok(()),
        }
    }

    /// Asks the encoder for the effect of one frame.
    ///
    /// For a frame that runs the effect, `device` has to be the device that
    /// the renderer was created on, and the encoder and the caller's image
    /// have to come from it too. [`GlowRenderer::create_encoder`] makes such
    /// an encoder.
    ///
    /// With the effect switched off, or a strength or a radius that is at
    /// most zero, nothing at all is asked and the call succeeds. Otherwise
    /// the four passes of the effect are asked after whatever the encoder
    /// holds, as [`GlowRenderer::render_glow_watched`] tells.
    pub fn render_glow(
        &self,
        encoder: &mut wgpu::CommandEncoder,
        device: &wgpu::Device,
        main_color_view: &wgpu::TextureView,
        glow_config: &ExperimentalGlow,
    ) -> (result: Result<(), GlowError>)
        requires
            glow_config.spec_is_active() ==> {
                &&& *device == self.spec_device()
                &&& encoder_device(*old(encoder)) == *device
                &&& view_device(*main_color_view) == *device
            },
        ensures
            !glow_config.spec_is_active() ==> result is Ok && *final(encoder) == *old(encoder),
            glow_config.spec_is_active() ==> {
                ||| result is Err && *final(encoder) == *old(encoder)
                ||| self.frame_asked(*old(encoder), *final(encoder), *main_color_view, *glow_config)
            },
            glow_config.spec_is_active() && result is Ok ==> self.frame_asked(
                *old(encoder),
                *final(encoder),
                *main_color_view,
                *glow_config,
            ),
            result matches Err(error) ==> error@ is Device || error@ is Unanswered,
    {
        let mut watcher = watch(device);
        self.render_glow_watched(&mut watcher, encoder, main_color_view, glow_config)
    }
}

} // verus!
