use glow_effect::convert::{to_blend_state, to_color_target, to_primitive_state, to_vertex_attributes};
use glow_effect::descriptors::{
    additive_blend, linear_clamp_sampler, offscreen_texture, quad_primitive, replace_blend, single_sample,
    texture_layout, uniform_layout, AddressMode, BindingKind, Blend, BlendComponent, BlendFactor, BlendOperation,
    ColorTarget, CullMode, FilterMode, FrontFace, LayoutEntry, PixelFormat, PrimitiveSpec, TextureDimension,
    Topology, COLOR_WRITE_ALL, OFFSCREEN_USAGE, STAGE_COMPUTE, STAGE_FRAGMENT, STAGE_VERTEX, TEXTURE_BINDING,
    TEXTURE_COPY_DST, TEXTURE_COPY_SRC, TEXTURE_GROUP, TEXTURE_RENDER_ATTACHMENT, TEXTURE_STORAGE_BINDING,
    UNIFORM_GROUP,
};
use glow_effect::geometry::vertex_layout;

#[test]
fn stage_bits_are_those_of_wgpu() {
    assert_eq!(STAGE_VERTEX, wgpu::ShaderStages::VERTEX.bits());
    assert_eq!(STAGE_FRAGMENT, wgpu::ShaderStages::FRAGMENT.bits());
    assert_eq!(STAGE_COMPUTE, wgpu::ShaderStages::COMPUTE.bits());
}

#[test]
fn texture_usage_bits_are_those_of_wgpu() {
    assert_eq!(TEXTURE_COPY_SRC, wgpu::TextureUsages::COPY_SRC.bits());
    assert_eq!(TEXTURE_COPY_DST, wgpu::TextureUsages::COPY_DST.bits());
    assert_eq!(TEXTURE_BINDING, wgpu::TextureUsages::TEXTURE_BINDING.bits());
    assert_eq!(TEXTURE_STORAGE_BINDING, wgpu::TextureUsages::STORAGE_BINDING.bits());
    assert_eq!(TEXTURE_RENDER_ATTACHMENT, wgpu::TextureUsages::RENDER_ATTACHMENT.bits());
    assert_eq!(
        OFFSCREEN_USAGE,
        (wgpu::TextureUsages::RENDER_ATTACHMENT | wgpu::TextureUsages::TEXTURE_BINDING).bits()
    );
}

#[test]
fn color_write_mask_is_that_of_wgpu() {
    assert_eq!(COLOR_WRITE_ALL, wgpu::ColorWrites::ALL.bits());
}

#[test]
fn sampler_is_linear_and_clamped() {
    let settings = linear_clamp_sampler();
    assert_eq!(settings.address_mode, AddressMode::ClampToEdge);
    assert_eq!(settings.filter, FilterMode::Linear);
}

#[test]
fn uniform_layout_is_one_buffer_for_the_fragment_stage() {
    assert_eq!(
        uniform_layout(),
        vec![LayoutEntry { binding: 0, visibility: STAGE_FRAGMENT, kind: BindingKind::UniformBuffer }]
    );
    assert_eq!(UNIFORM_GROUP, 0);
}

#[test]
fn texture_layout_is_a_texture_and_a_sampler_for_the_fragment_stage() {
    assert_eq!(
        texture_layout(),
        vec![
            LayoutEntry {
                binding: 0,
                visibility: STAGE_FRAGMENT,
                kind: BindingKind::Texture { filterable: true, multisampled: false },
            },
            LayoutEntry { binding: 1, visibility: STAGE_FRAGMENT, kind: BindingKind::Sampler { filtering: true } },
        ]
    );
    assert_eq!(TEXTURE_GROUP, 1);
}

#[test]
fn offscreen_texture_has_the_fixed_shape() {
    let spec = offscreen_texture(800, 600);
    assert_eq!(spec.width, 800);
    assert_eq!(spec.height, 600);
    assert_eq!(spec.depth_or_array_layers, 1);
    assert_eq!(spec.mip_level_count, 1);
    assert_eq!(spec.sample_count, 1);
    assert_eq!(spec.dimension, TextureDimension::D2);
    assert_eq!(spec.format, PixelFormat::Rgba8UnormSrgb);
    assert_eq!(spec.usage, 20);
    assert_ne!(spec.usage & TEXTURE_RENDER_ATTACHMENT, 0);
    assert_ne!(spec.usage & TEXTURE_BINDING, 0);
    assert_eq!(spec.usage & !(TEXTURE_RENDER_ATTACHMENT | TEXTURE_BINDING), 0);
}

#[test]
fn offscreen_texture_takes_any_size() {
    let spec = offscreen_texture(0, u32::MAX);
    assert_eq!(spec.width, 0);
    assert_eq!(spec.height, u32::MAX);
}

#[test]
fn quad_primitive_and_single_sample() {
    assert_eq!(
        quad_primitive(),
        PrimitiveSpec { topology: Topology::TriangleList, front_face: FrontFace::Ccw, cull_mode: CullMode::Off }
    );
    let multisample = single_sample();
    assert_eq!(multisample.count, 1);
    assert_eq!(multisample.mask, !0);
    assert!(!multisample.alpha_to_coverage);
}

#[test]
fn replace_blend_is_the_replace_of_wgpu() {
    assert_eq!(to_blend_state(&replace_blend()), wgpu::BlendState::REPLACE);
}

#[test]
fn additive_blend_adds_with_factors_of_one() {
    let component = wgpu::BlendComponent {
        src_factor: wgpu::BlendFactor::One,
        dst_factor: wgpu::BlendFactor::One,
        operation: wgpu::BlendOperation::Add,
    };
    assert_eq!(to_blend_state(&additive_blend()), wgpu::BlendState { color: component, alpha: component });
}

#[test]
fn blend_conversion_keeps_every_field_apart() {
    let blend = Blend {
        color: BlendComponent {
            src_factor: BlendFactor::Zero,
            dst_factor: BlendFactor::One,
            operation: BlendOperation::Subtract,
        },
        alpha: BlendComponent {
            src_factor: BlendFactor::One,
            dst_factor: BlendFactor::Zero,
            operation: BlendOperation::Max,
        },
    };
    let expected = wgpu::BlendState {
        color: wgpu::BlendComponent {
            src_factor: wgpu::BlendFactor::Zero,
            dst_factor: wgpu::BlendFactor::One,
            operation: wgpu::BlendOperation::Subtract,
        },
        alpha: wgpu::BlendComponent {
            src_factor: wgpu::BlendFactor::One,
            dst_factor: wgpu::BlendFactor::Zero,
            operation: wgpu::BlendOperation::Max,
        },
    };
    assert_eq!(to_blend_state(&blend), expected);
    for (operation, expected) in [
        (BlendOperation::Add, wgpu::BlendOperation::Add),
        (BlendOperation::Subtract, wgpu::BlendOperation::Subtract),
        (BlendOperation::ReverseSubtract, wgpu::BlendOperation::ReverseSubtract),
        (BlendOperation::Min, wgpu::BlendOperation::Min),
        (BlendOperation::Max, wgpu::BlendOperation::Max),
    ] {
        let component = BlendComponent { src_factor: BlendFactor::One, dst_factor: BlendFactor::One, operation };
        assert_eq!(to_blend_state(&Blend { color: component, alpha: component }).color.operation, expected);
    }
}

#[test]
fn color_target_conversion() {
    for (format, expected) in [
        (PixelFormat::Rgba8Unorm, wgpu::TextureFormat::Rgba8Unorm),
        (PixelFormat::Rgba8UnormSrgb, wgpu::TextureFormat::Rgba8UnormSrgb),
        (PixelFormat::Bgra8Unorm, wgpu::TextureFormat::Bgra8Unorm),
        (PixelFormat::Bgra8UnormSrgb, wgpu::TextureFormat::Bgra8UnormSrgb),
    ] {
        let target = ColorTarget { format, blend: additive_blend(), write_mask: COLOR_WRITE_ALL };
        let state = to_color_target(&target);
        assert_eq!(state.format, expected);
        assert_eq!(state.blend, Some(to_blend_state(&additive_blend())));
        assert_eq!(state.write_mask, wgpu::ColorWrites::ALL);
    }
    let red_only = ColorTarget { format: PixelFormat::Rgba8Unorm, blend: replace_blend(), write_mask: 1 };
    let state = to_color_target(&red_only);
    assert_eq!(state.write_mask, wgpu::ColorWrites::RED);
    assert_eq!(state.blend, Some(wgpu::BlendState::REPLACE));
}

#[test]
fn primitive_conversion() {
    let expected = wgpu::PrimitiveState {
        topology: wgpu::PrimitiveTopology::TriangleList,
        strip_index_format: None,
        front_face: wgpu::FrontFace::Ccw,
        cull_mode: None,
        unclipped_depth: false,
        polygon_mode: wgpu::PolygonMode::Fill,
        conservative: false,
    };
    assert_eq!(to_primitive_state(&quad_primitive()), expected);
    let other = PrimitiveSpec { topology: Topology::TriangleStrip, front_face: FrontFace::Cw, cull_mode: CullMode::Back };
    let state = to_primitive_state(&other);
    assert_eq!(state.topology, wgpu::PrimitiveTopology::TriangleStrip);
    assert_eq!(state.front_face, wgpu::FrontFace::Cw);
    assert_eq!(state.cull_mode, Some(wgpu::Face::Back));
    let front = PrimitiveSpec { cull_mode: CullMode::Front, ..quad_primitive() };
    assert_eq!(to_primitive_state(&front).cull_mode, Some(wgpu::Face::Front));
}

#[test]
fn vertex_attribute_conversion() {
    let expected = vec![
        wgpu::VertexAttribute { format: wgpu::VertexFormat::Float32x2, offset: 0, shader_location: 0 },
        wgpu::VertexAttribute { format: wgpu::VertexFormat::Float32x2, offset: 8, shader_location: 1 },
        wgpu::VertexAttribute { format: wgpu::VertexFormat::Float32x4, offset: 16, shader_location: 2 },
        wgpu::VertexAttribute { format: wgpu::VertexFormat::Float32x4, offset: 32, shader_location: 3 },
        wgpu::VertexAttribute { format: wgpu::VertexFormat::Float32x3, offset: 48, shader_location: 4 },
        wgpu::VertexAttribute { format: wgpu::VertexFormat::Float32, offset: 60, shader_location: 5 },
        wgpu::VertexAttribute { format: wgpu::VertexFormat::Float32, offset: 64, shader_location: 6 },
    ];
    assert_eq!(to_vertex_attributes(&vertex_layout().attributes), expected);
    assert!(to_vertex_attributes(&Vec::new()).is_empty());
}

#[test]
fn vertex_format_sizes_are_those_of_wgpu() {
    for attribute in to_vertex_attributes(&vertex_layout().attributes).iter().zip(vertex_layout().attributes) {
        assert_eq!(attribute.0.format.size(), attribute.1.format.size());
    }
}
