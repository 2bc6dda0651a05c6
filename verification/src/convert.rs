//! The descriptions of this library as the values that `wgpu` takes.
//!
//! A host that builds pipelines of its own to run beside the effect can ask
//! here for the very values that the effect hands to `wgpu`.

use vstd::prelude::*;
use crate::descriptors::{Blend, ColorTarget, PrimitiveSpec};
use crate::geometry::Attribute;
use crate::gpu::{
    attribute_models,
    blend_model,
    blend_state,
    color_target_state,
    primitive_model,
    primitive_state,
    target_model,
    vertex_attributes,
};

verus! {

/// The blend as `wgpu` takes it.
pub fn to_blend_state(blend: &Blend) -> (state: wgpu::BlendState)
    ensures
        blend_model(state) == *blend,
{
    blend_state(blend)
}

/// The color target as `wgpu` takes it.
pub fn to_color_target(target: &ColorTarget) -> (state: wgpu::ColorTargetState)
    ensures
        target_model(state) == *target,
{
    let blend = blend_state(&target.blend);
    color_target_state(target.format, blend, target.write_mask)
}

/// The primitive state as `wgpu` takes it.
pub fn to_primitive_state(primitive: &PrimitiveSpec) -> (state: wgpu::PrimitiveState)
    ensures
        primitive_model(state) == *primitive,
{
    primitive_state(primitive)
}

/// The vertex attributes as `wgpu` takes them, in the same order.
pub fn to_vertex_attributes(attributes: &Vec<Attribute>) -> (converted: Vec<wgpu::VertexAttribute>)
    ensures
        attribute_models(converted@) == attributes@,
{
    let converted = vertex_attributes(attributes.as_slice());
    assert(attribute_models(converted@) =~= attributes@);
    converted
}

} // verus!
