//! The calls into `wgpu`.
//!
//! This file holds everything that is believed rather than proved: the
//! `wgpu` types the library handles, a name for what each handle was made
//! from, and one short function around each call. A function here turns a
//! description into its `wgpu` counterpart, field for field, makes the call,
//! and says of the handle that it stands for what was asked.
//!
//! `wgpu` reports a refused request to the innermost error scope of the
//! device and hands out a handle all the same; with no scope open it
//! panics. So every function here that asks something of a device takes a
//! [`Capture`]: the evidence that scopes for all three classes of failure
//! are open on that device. What a contract says of a handle, it says
//! whether or not the request was refused; whether it was comes back from
//! [`end_capture`].
//!
//! `wgpu` looks a handle up in the tables of the instance that the device
//! belongs to, and panics on one that those tables do not hold. So every
//! function here that is handed a handle requires that the device of the
//! capture created it, and says of each handle it makes which device made
//! it.
//!
//! A capture stands for the topmost scopes of its device. Within one
//! operation of the effect that is kept by the borrow checker: a capture
//! borrows the operation's [`Watcher`] exclusively, so a second capture
//! cannot be begun before the first is gone. It also takes that nothing but
//! this library pushes or pops scopes on the device while an operation
//! runs, and that operations on one device do not run at the same time.

use vstd::prelude::*;
use std::future::Future;
use std::task::{Context, Poll, Waker};
use wgpu::{
    BindGroupLayoutDescriptor,
    BindGroupLayoutEntry,
    BindingType,
    BufferBindingType,
    SamplerBindingType,
    ShaderStages,
    TextureSampleType,
    TextureViewDimension,
};
use crate::descriptors::{
    AddressMode,
    BindingKind,
    BlendComponent,
    BlendFactor,
    BlendOperation,
    Blend,
    BufferRole,
    ColorTarget,
    CullMode,
    FilterMode,
    FrontFace,
    IndexFormat,
    LayoutEntry,
    LoadPolicy,
    MultisampleSpec,
    PipelineSpecView,
    PixelFormat,
    PrimitiveSpec,
    SamplerSettings,
    StorePolicy,
    TextureDimension,
    TextureSpec,
    Topology,
};
use crate::error::{Answer, Reports};
use crate::geometry::{Attribute, VertexFormat};

verus! {

// The types of `wgpu` that pass through the library. Each is a handle or a
// plain value that Verus does not look into.

#[verifier::external_type_specification]
#[verifier::external_body]
pub struct ExDevice(wgpu::Device);

#[verifier::external_type_specification]
#[verifier::external_body]
pub struct ExTexture(wgpu::Texture);

#[verifier::external_type_specification]
#[verifier::external_body]
pub struct ExTextureView(wgpu::TextureView);

#[verifier::external_type_specification]
#[verifier::external_body]
pub struct ExSampler(wgpu::Sampler);

#[verifier::external_type_specification]
#[verifier::external_body]
pub struct ExBindGroupLayout(wgpu::BindGroupLayout);

#[verifier::external_type_specification]
#[verifier::external_body]
pub struct ExBindGroup(wgpu::BindGroup);

#[verifier::external_type_specification]
#[verifier::external_body]
pub struct ExShaderModule(wgpu::ShaderModule);

#[verifier::external_type_specification]
#[verifier::external_body]
pub struct ExPipelineLayout(wgpu::PipelineLayout);

#[verifier::external_type_specification]
#[verifier::external_body]
pub struct ExRenderPipeline(wgpu::RenderPipeline);

#[verifier::external_type_specification]
#[verifier::external_body]
pub struct ExBuffer(wgpu::Buffer);

#[verifier::external_type_specification]
#[verifier::external_body]
pub struct ExCommandEncoder(wgpu::CommandEncoder);

#[verifier::external_type_specification]
#[verifier::external_body]
pub struct ExQueue(wgpu::Queue);

#[verifier::external_type_specification]
#[verifier::external_body]
pub struct ExBlendState(wgpu::BlendState);

#[verifier::external_type_specification]
#[verifier::external_body]
pub struct ExColorTargetState(wgpu::ColorTargetState);

#[verifier::external_type_specification]
#[verifier::external_body]
pub struct ExPrimitiveState(wgpu::PrimitiveState);

#[verifier::external_type_specification]
#[verifier::external_body]
pub struct ExVertexAttribute(wgpu::VertexAttribute);

/// The largest buffer that the device allows, in bytes: the limit that
/// `Device::limits` reports as `max_buffer_size`.
pub uninterp spec fn max_buffer_size(device: wgpu::Device) -> u64;

/// The shape that a texture was created with.
pub uninterp spec fn texture_shape(texture: wgpu::Texture) -> TextureSpec;

/// The device that created a texture, to which the texture reports what it
/// refuses.
pub uninterp spec fn texture_device(texture: wgpu::Texture) -> wgpu::Device;

/// The texture that a view shows, whole.
pub uninterp spec fn viewed_texture(view: wgpu::TextureView) -> wgpu::Texture;

/// The settings that a sampler was created with.
pub uninterp spec fn sampler_settings(sampler: wgpu::Sampler) -> SamplerSettings;

/// The bindings that a bind group layout was created with.
pub uninterp spec fn layout_entries(layout: wgpu::BindGroupLayout) -> Seq<LayoutEntry>;

/// The WGSL text that a shader module was created from.
pub uninterp spec fn shader_source(module: wgpu::ShaderModule) -> Seq<char>;

/// The bind group layouts of a pipeline layout, by group number.
pub uninterp spec fn pipeline_groups(layout: wgpu::PipelineLayout) -> Seq<wgpu::BindGroupLayout>;

/// What a `wgpu::BlendState` holds.
pub uninterp spec fn blend_model(state: wgpu::BlendState) -> Blend;

/// What a `wgpu::ColorTargetState` with a blend holds.
pub uninterp spec fn target_model(target: wgpu::ColorTargetState) -> ColorTarget;

/// What a `wgpu::PrimitiveState` that fills its primitives holds.
pub uninterp spec fn primitive_model(state: wgpu::PrimitiveState) -> PrimitiveSpec;

/// What a `wgpu::VertexAttribute` holds.
pub uninterp spec fn attribute_model(attribute: wgpu::VertexAttribute) -> Attribute;

/// What a render pipeline was created from.
pub uninterp spec fn pipeline_model(pipeline: wgpu::RenderPipeline) -> PipelineModel;

/// The bytes that a buffer was filled with before it was first unmapped.
pub uninterp spec fn buffer_contents(buffer: wgpu::Buffer) -> Seq<u8>;

/// What a buffer was created for.
pub uninterp spec fn buffer_role(buffer: wgpu::Buffer) -> BufferRole;

/// The size of a buffer in bytes, as `Buffer::size` reports it.
pub uninterp spec fn buffer_size(buffer: wgpu::Buffer) -> u64;

/// The layout and the resources that a bind group was created with.
pub uninterp spec fn bound_group(group: wgpu::BindGroup) -> BoundGroup;

/// The render passes that have been asked of a command encoder, in the
/// order in which they were asked. A pass that the device refused is among
/// them; the refusal is reported to the capture it was asked under.
pub uninterp spec fn requested_passes(encoder: wgpu::CommandEncoder) -> Seq<RecordedPass>;

/// The device that a command encoder was created by, to which it reports
/// what it refuses.
pub uninterp spec fn encoder_device(encoder: wgpu::CommandEncoder) -> wgpu::Device;

/// Whether the device accepted the request that created the buffer.
pub uninterp spec fn buffer_accepted(buffer: wgpu::Buffer) -> bool;

/// The device that created a buffer.
pub uninterp spec fn buffer_device(buffer: wgpu::Buffer) -> wgpu::Device;

/// The device that created a sampler.
pub uninterp spec fn sampler_device(sampler: wgpu::Sampler) -> wgpu::Device;

/// The device that created a bind group layout.
pub uninterp spec fn layout_device(layout: wgpu::BindGroupLayout) -> wgpu::Device;

/// The device that created a shader module.
pub uninterp spec fn shader_device(module: wgpu::ShaderModule) -> wgpu::Device;

/// The device that created a pipeline layout.
pub uninterp spec fn pipeline_layout_device(layout: wgpu::PipelineLayout) -> wgpu::Device;

/// The device that created a render pipeline.
pub uninterp spec fn pipeline_device(pipeline: wgpu::RenderPipeline) -> wgpu::Device;

/// The device that created a bind group.
pub uninterp spec fn group_device(group: wgpu::BindGroup) -> wgpu::Device;

/// The device that a queue belongs to.
pub uninterp spec fn queue_device(queue: wgpu::Queue) -> wgpu::Device;

/// The device that created the texture behind a view.
pub open spec fn view_device(view: wgpu::TextureView) -> wgpu::Device {
    texture_device(viewed_texture(view))
}

/// The device that created a resource of a bind group.
pub open spec fn bound_device(resource: Bound) -> wgpu::Device {
    match resource {
        Bound::Buffer(buffer) => buffer_device(buffer),
        Bound::Texture(view) => view_device(view),
        Bound::Sampler(sampler) => sampler_device(sampler),
    }
}

/// What a render pipeline was created from: its layout, its shader module
/// and its fixed state.
pub struct PipelineModel {
    pub layout: wgpu::PipelineLayout,
    pub shader: wgpu::ShaderModule,
    pub state: PipelineSpecView,
}

/// A resource as a bind group holds it.
pub enum Bound {
    /// A whole buffer.
    Buffer(wgpu::Buffer),
    /// A view of a texture.
    Texture(wgpu::TextureView),
    /// A sampler.
    Sampler(wgpu::Sampler),
}

/// An entry of a bind group as the group holds it.
pub struct BoundEntry {
    /// The number the shader knows the binding by.
    pub binding: u32,
    pub resource: Bound,
}

/// A resource to put into a bind group.
#[derive(Clone, Copy)]
pub enum Resource<'a> {
    /// A whole buffer.
    Buffer(&'a wgpu::Buffer),
    /// A view of a texture.
    Texture(&'a wgpu::TextureView),
    /// A sampler.
    Sampler(&'a wgpu::Sampler),
}

/// An entry to put into a bind group.
#[derive(Clone, Copy)]
pub struct Binding<'a> {
    /// The number the shader knows the binding by.
    pub binding: u32,
    pub resource: Resource<'a>,
}

impl<'a> View for Resource<'a> {
    type V = Bound;

    open spec fn view(&self) -> Bound {
        match self {
            Resource::Buffer(buffer) => Bound::Buffer(**buffer),
            Resource::Texture(view) => Bound::Texture(**view),
            Resource::Sampler(sampler) => Bound::Sampler(**sampler),
        }
    }
}

impl<'a> View for Binding<'a> {
    type V = BoundEntry;

    open spec fn view(&self) -> BoundEntry {
        BoundEntry { binding: self.binding, resource: self.resource@ }
    }
}

/// What a bind group was created from.
pub struct BoundGroup {
    pub layout: wgpu::BindGroupLayout,
    pub entries: Seq<BoundEntry>,
}

/// One render pass as it is asked of a command encoder: a single indexed
/// draw into one color target.
pub struct RecordedPass {
    /// The view that is drawn into.
    pub target: wgpu::TextureView,
    /// What happens to the target before the draw.
    pub load: LoadPolicy,
    /// What happens to what was drawn when the pass ends.
    pub store: StorePolicy,
    pub pipeline: wgpu::RenderPipeline,
    /// The bind groups, by group number.
    pub groups: Seq<wgpu::BindGroup>,
    /// The buffer in vertex slot 0, whole.
    pub vertices: wgpu::Buffer,
    /// The buffer of indices, whole.
    pub indices: wgpu::Buffer,
    /// The width of an index.
    pub index_format: IndexFormat,
    /// The draw reads the indices from 0 up to this number.
    pub index_count: u32,
    /// The draw runs for the instances from 0 up to this number.
    pub instance_count: u32,
}

/// The views of a list of bindings.
pub open spec fn binding_views(bindings: Seq<Binding<'_>>) -> Seq<BoundEntry> {
    Seq::new(bindings.len(), |i: int| bindings[i]@)
}

/// The models of a list of `wgpu` vertex attributes.
pub open spec fn attribute_models(attributes: Seq<wgpu::VertexAttribute>) -> Seq<Attribute> {
    Seq::new(attributes.len(), |i: int| attribute_model(attributes[i]))
}

/// The size of the buffer that holds `len` bytes of contents: nothing for
/// no contents, else `len` rounded up to a multiple of four, which a buffer
/// that is created mapped has to be.
pub open spec fn spec_padded_size(len: nat) -> nat {
    if len == 0 {
        0
    } else {
        ((len + 3) / 4 * 4) as nat
    }
}

/// The evidence that error scopes for validation, memory and internal
/// failures are open on a device, pushed in that order by
/// [`begin_capture`] and not popped yet. It may hold a buffer that was
/// created under it and is waiting for the device's answer.
pub struct Capture<'a> {
    device: &'a wgpu::Device,
    pending: Option<wgpu::Buffer>,
}

impl<'a> Capture<'a> {
    /// The device that is watched.
    pub closed spec fn device(&self) -> wgpu::Device {
        *self.device
    }

    /// The buffer that was created under the capture, if one was.
    pub closed spec fn pending(&self) -> Option<wgpu::Buffer> {
        self.pending
    }
}

/// A buffer that was created mapped and has been neither filled nor
/// unmapped. Only [`end_capture`] makes one.
pub struct PendingBuffer {
    device: wgpu::Device,
    buffer: wgpu::Buffer,
}

impl PendingBuffer {
    /// The device that created the buffer.
    pub closed spec fn device(&self) -> wgpu::Device {
        self.device
    }

    /// The buffer.
    pub closed spec fn buffer(&self) -> wgpu::Buffer {
        self.buffer
    }
}

/// What the end of a capture gives back.
pub struct Ended {
    /// The answers of the device.
    pub reports: Reports,
    /// The buffer that was created under the capture, if one was.
    pub pending: Option<PendingBuffer>,
}

/// The one place from which an operation of the effect watches a device.
/// A capture borrows it for as long as the capture is open, so that no
/// second capture can be begun from it in between. It counts the captures
/// that were begun from it: nothing is asked of the device but under a
/// capture, so a count that stands still says that the device was left
/// alone.
pub struct Watcher<'a> {
    device: &'a wgpu::Device,
    captures: u64,
}

impl<'a> Watcher<'a> {
    /// The device that is watched.
    pub closed spec fn device(&self) -> wgpu::Device {
        *self.device
    }

    /// The number of captures that were begun from the watcher.
    pub closed spec fn captures(&self) -> u64 {
        self.captures
    }

    /// The number of captures that were begun from the watcher.
    pub fn count(&self) -> (count: u64)
        ensures
            count == self.captures(),
    {
        self.captures
    }
}

/// Takes a device to watch. Nothing is asked of the device yet.
pub fn watch<'a>(device: &'a wgpu::Device) -> (watcher: Watcher<'a>)
    ensures
        watcher.device() == *device,
        watcher.captures() == 0,
{
    Watcher { device, captures: 0 }
}

/// Calls `Device::push_error_scope` three times: for validation failures,
/// then for memory, then for the rest.
///
/// From this call until the scopes are popped, the device keeps the first
/// failure of each class to itself instead of handing it to the handler
/// for uncaptured errors. The result stands for the three scopes.
#[verifier::external_body]
fn push_scopes<'b>(watcher: &'b mut Watcher<'_>) -> (capture: Capture<'b>)
    ensures
        capture.device() == old(watcher).device(),
        capture.pending() is None,
        *final(watcher) == *old(watcher),
{
    watcher.device.push_error_scope(wgpu::ErrorFilter::Validation);
    watcher.device.push_error_scope(wgpu::ErrorFilter::OutOfMemory);
    watcher.device.push_error_scope(wgpu::ErrorFilter::Internal);
    Capture { device: watcher.device, pending: None }
}

/// Begins a capture and counts it.
pub(crate) fn begin_capture<'b>(watcher: &'b mut Watcher<'_>) -> (capture: Capture<'b>)
    requires
        old(watcher).captures() < u64::MAX,
    ensures
        capture.device() == old(watcher).device(),
        capture.pending() is None,
        final(watcher).device() == old(watcher).device(),
        final(watcher).captures() == old(watcher).captures() + 1,
{
    watcher.captures = watcher.captures + 1;
    push_scopes(watcher)
}

/// Calls `Device::pop_error_scope` three times, for the scopes that the
/// capture stands for, innermost first, and asks each answer once.
///
/// `wgpu` panics when no scope is open; the capture is the evidence that
/// three are, on its own device, and this call uses it up. An answer is
/// the text of the first failure of its class, if there was one. A refused
/// request for a buffer is such a failure: so where every answer is clear,
/// the device accepted the buffer that was created under the capture.
#[verifier::external_body]
pub(crate) fn end_capture(capture: Capture<'_>) -> (ended: Ended)
    ensures
        ended.pending is Some <==> capture.pending() is Some,
        ended.pending matches Some(pending) ==> {
            &&& Some(pending.buffer()) == capture.pending()
            &&& pending.device() == capture.device()
            &&& ended.reports.spec_clear() ==> buffer_accepted(pending.buffer())
        },
{
    let mut context = Context::from_waker(Waker::noop());
    let mut pop = || match Box::pin(capture.device.pop_error_scope()).as_mut().poll(&mut context) {
        Poll::Ready(None) => Answer::Clear,
        Poll::Ready(Some(error)) => Answer::Failed(error.to_string()),
        Poll::Pending => Answer::NotReady,
    };
    let (internal, out_of_memory, validation) = (pop(), pop(), pop());
    let pending = capture.pending.map(|buffer| PendingBuffer { device: capture.device.clone(), buffer });
    Ended { reports: Reports { validation, out_of_memory, internal }, pending }
}

/// Reads `max_buffer_size` from `Device::limits`.
#[verifier::external_body]
pub(crate) fn device_max_buffer_size(watcher: &Watcher<'_>) -> (limit: u64)
    ensures
        limit == max_buffer_size(watcher.device()),
{
    watcher.device.limits().max_buffer_size
}

/// Calls `Device::create_texture`.
///
/// The texture keeps the description it was created from, and its getters
/// (`size`, `format`, `usage` and the others) return it from then on. The
/// contract claims that of the result.
#[verifier::external_body]
pub(crate) fn create_texture(
    capture: &Capture<'_>,
    label: &str,
    spec: &TextureSpec,
) -> (texture: wgpu::Texture)
    ensures
        texture_shape(texture) == *spec,
        texture_device(texture) == capture.device(),
{
    let size = wgpu::Extent3d { width: spec.width, height: spec.height, depth_or_array_layers: spec.depth_or_array_layers };
    let dimension = match spec.dimension {
        TextureDimension::D1 => wgpu::TextureDimension::D1,
        TextureDimension::D2 => wgpu::TextureDimension::D2,
        TextureDimension::D3 => wgpu::TextureDimension::D3,
    };
    let format = match spec.format {
        PixelFormat::Rgba8Unorm => wgpu::TextureFormat::Rgba8Unorm,
        PixelFormat::Rgba8UnormSrgb => wgpu::TextureFormat::Rgba8UnormSrgb,
        PixelFormat::Bgra8Unorm => wgpu::TextureFormat::Bgra8Unorm,
        PixelFormat::Bgra8UnormSrgb => wgpu::TextureFormat::Bgra8UnormSrgb,
    };
    let usage = wgpu::TextureUsages::from_bits_retain(spec.usage);
    capture.device.create_texture(&wgpu::TextureDescriptor { label: Some(label), size, mip_level_count: spec.mip_level_count, sample_count: spec.sample_count, dimension, format, usage, view_formats: &[] })
}

/// Calls `Texture::create_view` with the default description, which shows
/// the whole texture in its own format. A refusal goes to the device that
/// created the texture, which has to be the one that is watched.
#[verifier::external_body]
pub(crate) fn create_view(capture: &Capture<'_>, texture: &wgpu::Texture) -> (view: wgpu::TextureView)
    requires
        texture_device(*texture) == capture.device(),
    ensures
        viewed_texture(view) == *texture,
{
    let _ = capture;
    texture.create_view(&wgpu::TextureViewDescriptor::default())
}

/// Compares two textures with `==`, which `wgpu` decides by the number
/// that the instance of the device gave the texture. Among the textures of
/// one device that number tells them apart: hence the precondition.
#[verifier::external_body]
pub(crate) fn same_texture(first: &wgpu::Texture, second: &wgpu::Texture) -> (same: bool)
    requires
        texture_device(*first) == texture_device(*second),
    ensures
        same == (*first == *second),
{
    first == second
}

/// Calls `Device::create_sampler`. Whatever the settings do not speak of is
/// left at its default.
#[verifier::external_body]
pub(crate) fn create_sampler(capture: &Capture<'_>, settings: &SamplerSettings) -> (sampler: wgpu::Sampler)
    ensures
        sampler_settings(sampler) == *settings,
        sampler_device(sampler) == capture.device(),
{
    let address = match settings.address_mode {
        AddressMode::ClampToEdge => wgpu::AddressMode::ClampToEdge,
        AddressMode::Repeat => wgpu::AddressMode::Repeat,
        AddressMode::MirrorRepeat => wgpu::AddressMode::MirrorRepeat,
    };
    let filter = match settings.filter {
        FilterMode::Nearest => wgpu::FilterMode::Nearest,
        FilterMode::Linear => wgpu::FilterMode::Linear,
    };
    capture.device.create_sampler(&wgpu::SamplerDescriptor {
        address_mode_u: address, address_mode_v: address, address_mode_w: address,
        mag_filter: filter, min_filter: filter, mipmap_filter: filter,
        ..Default::default()
    })
}

/// Calls `Device::create_bind_group_layout`. No binding is an array.
#[verifier::external_body]
pub(crate) fn create_bind_group_layout(
    capture: &Capture<'_>,
    label: &str,
    entries: &[LayoutEntry],
) -> (layout: wgpu::BindGroupLayout)
    ensures
        layout_entries(layout) == entries@,
        layout_device(layout) == capture.device(),
{
    let kind = |kind: BindingKind| match kind {
        BindingKind::UniformBuffer => {
            BindingType::Buffer { ty: BufferBindingType::Uniform, has_dynamic_offset: false, min_binding_size: None }
        },
        BindingKind::Texture { filterable, multisampled } => BindingType::Texture {
            sample_type: TextureSampleType::Float { filterable }, view_dimension: TextureViewDimension::D2, multisampled,
        },
        BindingKind::Sampler { filtering: true } => BindingType::Sampler(SamplerBindingType::Filtering),
        BindingKind::Sampler { filtering: false } => BindingType::Sampler(SamplerBindingType::NonFiltering),
    };
    let entry = |e: &LayoutEntry| BindGroupLayoutEntry { binding: e.binding, visibility: ShaderStages::from_bits_retain(e.visibility), ty: kind(e.kind), count: None };
    let entries: Vec<BindGroupLayoutEntry> = entries.iter().map(entry).collect();
    capture.device.create_bind_group_layout(&BindGroupLayoutDescriptor { label: Some(label), entries: &entries })
}

/// Calls `Device::create_shader_module` on WGSL text.
#[verifier::external_body]
pub(crate) fn create_shader_module(
    capture: &Capture<'_>,
    label: &str,
    source: &str,
) -> (module: wgpu::ShaderModule)
    ensures
        shader_source(module) == source@,
        shader_device(module) == capture.device(),
{
    capture.device.create_shader_module(wgpu::ShaderModuleDescriptor {
        label: Some(label),
        source: wgpu::ShaderSource::Wgsl(source.into()),
    })
}

/// Calls `Device::create_pipeline_layout` for a pipeline with two bind
/// groups and no push constants.
#[verifier::external_body]
pub(crate) fn create_pipeline_layout(
    capture: &Capture<'_>,
    label: &str,
    first: &wgpu::BindGroupLayout,
    second: &wgpu::BindGroupLayout,
) -> (layout: wgpu::PipelineLayout)
    requires
        layout_device(*first) == capture.device(),
        layout_device(*second) == capture.device(),
    ensures
        pipeline_groups(layout) == seq![*first, *second],
        pipeline_layout_device(layout) == capture.device(),
{
    capture.device.create_pipeline_layout(&wgpu::PipelineLayoutDescriptor {
        label: Some(label),
        bind_group_layouts: &[first, second],
        push_constant_ranges: &[],
    })
}

/// Writes a blend as a `wgpu::BlendState`.
#[verifier::external_body]
pub(crate) fn blend_state(blend: &Blend) -> (state: wgpu::BlendState)
    ensures
        blend_model(state) == *blend,
{
    let factor = |f: BlendFactor| match f {
        BlendFactor::Zero => wgpu::BlendFactor::Zero,
        BlendFactor::One => wgpu::BlendFactor::One,
    };
    let operation = |o: BlendOperation| match o {
        BlendOperation::Add => wgpu::BlendOperation::Add,
        BlendOperation::Subtract => wgpu::BlendOperation::Subtract,
        BlendOperation::ReverseSubtract => wgpu::BlendOperation::ReverseSubtract,
        BlendOperation::Min => wgpu::BlendOperation::Min,
        BlendOperation::Max => wgpu::BlendOperation::Max,
    };
    let part = |c: &BlendComponent| wgpu::BlendComponent { src_factor: factor(c.src_factor), dst_factor: factor(c.dst_factor), operation: operation(c.operation) };
    wgpu::BlendState { color: part(&blend.color), alpha: part(&blend.alpha) }
}

/// Writes a color target as a `wgpu::ColorTargetState`.
#[verifier::external_body]
pub(crate) fn color_target_state(
    format: PixelFormat,
    blend: wgpu::BlendState,
    write_mask: u32,
) -> (target: wgpu::ColorTargetState)
    ensures
        target_model(target) == (ColorTarget { format, blend: blend_model(blend), write_mask }),
{
    let format = match format {
        PixelFormat::Rgba8Unorm => wgpu::TextureFormat::Rgba8Unorm,
        PixelFormat::Rgba8UnormSrgb => wgpu::TextureFormat::Rgba8UnormSrgb,
        PixelFormat::Bgra8Unorm => wgpu::TextureFormat::Bgra8Unorm,
        PixelFormat::Bgra8UnormSrgb => wgpu::TextureFormat::Bgra8UnormSrgb,
    };
    wgpu::ColorTargetState {
        format,
        blend: Some(blend),
        write_mask: wgpu::ColorWrites::from_bits_retain(write_mask),
    }
}

/// Writes a primitive state as a `wgpu::PrimitiveState`. Whatever the
/// description does not speak of is left at its default.
#[verifier::external_body]
pub(crate) fn primitive_state(primitive: &PrimitiveSpec) -> (state: wgpu::PrimitiveState)
    ensures
        primitive_model(state) == *primitive,
{
    let topology = match primitive.topology {
        Topology::TriangleList => wgpu::PrimitiveTopology::TriangleList,
        Topology::TriangleStrip => wgpu::PrimitiveTopology::TriangleStrip,
    };
    let front_face = match primitive.front_face {
        FrontFace::Ccw => wgpu::FrontFace::Ccw,
        FrontFace::Cw => wgpu::FrontFace::Cw,
    };
    let cull_mode = match primitive.cull_mode {
        CullMode::Off => None,
        CullMode::Front => Some(wgpu::Face::Front),
        CullMode::Back => Some(wgpu::Face::Back),
    };
    wgpu::PrimitiveState { topology, front_face, cull_mode, ..Default::default() }
}

/// Writes vertex attributes as `wgpu::VertexAttribute` values.
#[verifier::external_body]
pub(crate) fn vertex_attributes(attributes: &[Attribute]) -> (converted: Vec<wgpu::VertexAttribute>)
    ensures
        converted@.len() == attributes@.len(),
        forall|i: int|
            0 <= i < converted@.len() ==> attribute_model(#[trigger] converted@[i]) == attributes@[i],
{
    let format = |f: VertexFormat| match f {
        VertexFormat::Float32 => wgpu::VertexFormat::Float32,
        VertexFormat::Float32x2 => wgpu::VertexFormat::Float32x2,
        VertexFormat::Float32x3 => wgpu::VertexFormat::Float32x3,
        VertexFormat::Float32x4 => wgpu::VertexFormat::Float32x4,
    };
    let attribute = |a: &Attribute| wgpu::VertexAttribute {
        format: format(a.format),
        offset: a.offset,
        shader_location: a.shader_location,
    };
    attributes.iter().map(attribute).collect()
}

/// Calls `Device::create_render_pipeline` for a pipeline with one vertex
/// buffer, stepped once per vertex, and one color target; without depth or
/// stencil test, multiview or pipeline cache.
///
/// `entries` holds the entry points of the vertex and of the fragment
/// stage, both in `shader`.
#[verifier::external_body]
pub(crate) fn create_render_pipeline(
    capture: &Capture<'_>,
    label: &str,
    layout: &wgpu::PipelineLayout,
    shader: &wgpu::ShaderModule,
    entries: (&str, &str),
    stride: u64,
    attributes: &[wgpu::VertexAttribute],
    target: wgpu::ColorTargetState,
    primitive: wgpu::PrimitiveState,
    multisample: &MultisampleSpec,
) -> (pipeline: wgpu::RenderPipeline)
    requires
        pipeline_layout_device(*layout) == capture.device(),
        shader_device(*shader) == capture.device(),
    ensures
        pipeline_device(pipeline) == capture.device(),
        pipeline_model(pipeline) == (PipelineModel {
            layout: *layout,
            shader: *shader,
            state: PipelineSpecView {
                vertex_entry: entries.0@,
                fragment_entry: entries.1@,
                vertex_stride: stride,
                attributes: attribute_models(attributes@),
                target: target_model(target),
                primitive: primitive_model(primitive),
                multisample: *multisample,
            },
        }),
{
    let buffers = [wgpu::VertexBufferLayout { array_stride: stride, step_mode: wgpu::VertexStepMode::Vertex, attributes }];
    let vertex = wgpu::VertexState {
        module: shader, entry_point: Some(entries.0), buffers: &buffers, compilation_options: Default::default(),
    };
    let targets = [Some(target)];
    let fragment = wgpu::FragmentState {
        module: shader, entry_point: Some(entries.1), targets: &targets, compilation_options: Default::default(),
    };
    let multisample = wgpu::MultisampleState { count: multisample.count, mask: multisample.mask, alpha_to_coverage_enabled: multisample.alpha_to_coverage };
    capture.device.create_render_pipeline(&wgpu::RenderPipelineDescriptor {
        label: Some(label), layout: Some(layout), vertex, fragment: Some(fragment), primitive,
        depth_stencil: None, multisample, multiview: None, cache: None,
    })
}

/// Calls `Device::create_buffer` for a buffer that is mapped from the
/// start, and keeps the buffer in the capture until the device has
/// answered.
#[verifier::external_body]
pub(crate) fn create_mapped_buffer<'a>(
    capture: Capture<'a>,
    label: &str,
    size: u64,
    role: BufferRole,
) -> (watching: Capture<'a>)
    ensures
        watching.device() == capture.device(),
        watching.pending() is Some,
        buffer_size(watching.pending().unwrap()) == size,
        buffer_role(watching.pending().unwrap()) == role,
        buffer_device(watching.pending().unwrap()) == capture.device(),
{
    let usage = match role {
        BufferRole::Vertex => wgpu::BufferUsages::VERTEX,
        BufferRole::Index => wgpu::BufferUsages::INDEX,
        BufferRole::Uniform => wgpu::BufferUsages::UNIFORM,
    };
    let descriptor = wgpu::BufferDescriptor { label: Some(label), size, usage, mapped_at_creation: true };
    Capture { device: capture.device, pending: Some(capture.device.create_buffer(&descriptor)) }
}

/// Copies the contents into a mapped buffer and unmaps it: gets the whole
/// buffer with `Buffer::slice` and `BufferSlice::get_mapped_range_mut`,
/// copies, and calls `Buffer::unmap`.
///
/// `wgpu` panics on a slice of an empty buffer and on the mapped range of a
/// buffer that the device refused or that is not mapped: hence the
/// precondition, and a pending buffer is one that is still mapped. The
/// buffer reports to the device that created it, which has to be the one
/// that is watched.
#[verifier::external_body]
pub(crate) fn fill_buffer(capture: &Capture<'_>, pending: PendingBuffer, contents: &[u8]) -> (buffer: wgpu::Buffer)
    requires
        pending.device() == capture.device(),
        buffer_accepted(pending.buffer()),
        0 < contents@.len() <= buffer_size(pending.buffer()),
    ensures
        buffer == pending.buffer(),
        buffer_contents(buffer) == contents@,
{
    let _ = capture;
    pending.buffer.slice(..).get_mapped_range_mut()[..contents.len()].copy_from_slice(contents);
    pending.buffer.unmap();
    pending.buffer
}

/// Calls `Device::create_bind_group`.
#[verifier::external_body]
pub(crate) fn create_bind_group(
    capture: &Capture<'_>,
    label: &str,
    layout: &wgpu::BindGroupLayout,
    bindings: &[Binding<'_>],
) -> (group: wgpu::BindGroup)
    requires
        layout_device(*layout) == capture.device(),
        forall|i: int|
            0 <= i < bindings@.len() ==> bound_device((#[trigger] bindings@[i])@.resource)
                == capture.device(),
    ensures
        group_device(group) == capture.device(),
        bound_group(group) == (BoundGroup { layout: *layout, entries: binding_views(bindings@) }),
{
    let entries: Vec<wgpu::BindGroupEntry> = bindings.iter().map(|b| wgpu::BindGroupEntry {
        binding: b.binding,
        resource: match b.resource {
            Resource::Buffer(buffer) => buffer.as_entire_binding(),
            Resource::Texture(view) => wgpu::BindingResource::TextureView(view),
            Resource::Sampler(sampler) => wgpu::BindingResource::Sampler(sampler),
        },
    }).collect();
    capture.device.create_bind_group(&wgpu::BindGroupDescriptor { label: Some(label), layout, entries: &entries })
}

/// Calls `Device::create_command_encoder`.
///
/// `wgpu` panics where the queue of the device is gone. The reference to
/// the queue is the evidence that it is not.
#[verifier::external_body]
pub(crate) fn create_command_encoder(
    capture: &Capture<'_>,
    queue: &wgpu::Queue,
    label: &str,
) -> (encoder: wgpu::CommandEncoder)
    requires
        queue_device(*queue) == capture.device(),
    ensures
        encoder_device(encoder) == queue_device(*queue),
        requested_passes(encoder) == Seq::<RecordedPass>::empty(),
{
    let _ = queue;
    capture.device.create_command_encoder(&wgpu::CommandEncoderDescriptor { label: Some(label) })
}

/// Asks an encoder for one render pass: calls
/// `CommandEncoder::begin_render_pass` for one color target whose result is
/// stored, sets the pipeline, the bind groups of groups 0 and 1, the vertex
/// buffer of slot 0 and the buffer of 16-bit indices, draws one instance
/// with the first `index_count` indices, and ends the pass.
///
/// The encoder reports what it refuses to the device that created it, which
/// has to be the one that is watched, and looks every handle up in the
/// tables of that device. `wgpu` panics on a slice of an empty buffer:
/// hence the rest of the precondition.
#[verifier::external_body]
pub(crate) fn record_pass(
    capture: &Capture<'_>,
    encoder: &mut wgpu::CommandEncoder,
    label: &str,
    target: &wgpu::TextureView,
    load: LoadPolicy,
    pipeline: &wgpu::RenderPipeline,
    groups: (&wgpu::BindGroup, &wgpu::BindGroup),
    mesh: (&wgpu::Buffer, &wgpu::Buffer),
    index_count: u32,
)
    requires
        encoder_device(*old(encoder)) == capture.device(),
        view_device(*target) == capture.device(),
        pipeline_device(*pipeline) == capture.device(),
        group_device(*groups.0) == capture.device(),
        group_device(*groups.1) == capture.device(),
        buffer_device(*mesh.0) == capture.device(),
        buffer_device(*mesh.1) == capture.device(),
        buffer_size(*mesh.0) > 0,
        buffer_size(*mesh.1) > 0,
    ensures
        encoder_device(*final(encoder)) == encoder_device(*old(encoder)),
        requested_passes(*final(encoder)) == requested_passes(*old(encoder)).push(
            (RecordedPass {
                target: *target,
                load,
                store: StorePolicy::Store,
                pipeline: *pipeline,
                groups: seq![*groups.0, *groups.1],
                vertices: *mesh.0,
                indices: *mesh.1,
                index_format: IndexFormat::Uint16,
                index_count,
                instance_count: 1,
            }),
        ),
{
    let load = match load {
        LoadPolicy::ClearBlack => wgpu::LoadOp::Clear(wgpu::Color::BLACK),
        LoadPolicy::Load => wgpu::LoadOp::Load,
    };
    let ops = wgpu::Operations { load, store: wgpu::StoreOp::Store };
    let attachment = wgpu::RenderPassColorAttachment { view: target, resolve_target: None, ops };
    let mut pass = encoder.begin_render_pass(&wgpu::RenderPassDescriptor { label: Some(label), color_attachments: &[Some(attachment)], ..Default::default() });
    pass.set_pipeline(pipeline);
    pass.set_bind_group(0, groups.0, &[]);
    pass.set_bind_group(1, groups.1, &[]);
    pass.set_vertex_buffer(0, mesh.0.slice(..));
    pass.set_index_buffer(mesh.1.slice(..), wgpu::IndexFormat::Uint16);
    pass.draw_indexed(0..index_count, 0, 0..1);
}

} // verus!
