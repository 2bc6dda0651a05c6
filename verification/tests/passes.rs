use glow_effect::descriptors::{
    additive_blend, blended, quad_primitive, replace_blend, single_sample, Blend, BlendComponent, BlendFactor,
    BlendOperation, LoadPolicy, PixelFormat, COLOR_WRITE_ALL,
};
use glow_effect::geometry::vertex_layout;
use glow_effect::params::ExperimentalGlow;
use glow_effect::passes::{frame_passes, pipeline_spec, vertex_entry, PassKind, Surface, PASS_COUNT};

const ALL: [PassKind; 4] =
    [PassKind::Extract, PassKind::BlurHorizontal, PassKind::BlurVertical, PassKind::Composite];

fn settings(enabled: bool, radius: f32, strength: f32) -> ExperimentalGlow {
    ExperimentalGlow {
        enabled,
        radius: radius.to_bits(),
        threshold: 0.5f32.to_bits(),
        strength: strength.to_bits(),
        color_boost: 1.0f32.to_bits(),
    }
}

#[test]
fn passes_read_and_draw_as_the_table_says() {
    assert_eq!(PassKind::Extract.input(), Surface::Main);
    assert_eq!(PassKind::Extract.target(), Surface::Source);
    assert_eq!(PassKind::BlurHorizontal.input(), Surface::Source);
    assert_eq!(PassKind::BlurHorizontal.target(), Surface::Temp);
    assert_eq!(PassKind::BlurVertical.input(), Surface::Temp);
    assert_eq!(PassKind::BlurVertical.target(), Surface::Source);
    assert_eq!(PassKind::Composite.input(), Surface::Source);
    assert_eq!(PassKind::Composite.target(), Surface::Main);
}

#[test]
fn no_pass_reads_what_it_draws_into() {
    for kind in ALL {
        assert_ne!(kind.input(), kind.target());
    }
}

#[test]
fn only_the_composite_pass_touches_the_main_target() {
    for kind in ALL {
        assert_eq!(kind.target() == Surface::Main, kind == PassKind::Composite);
        assert_eq!(kind.input() == Surface::Main, kind == PassKind::Extract);
    }
}

#[test]
fn each_pass_reads_what_the_one_before_drew() {
    let mut kind = PassKind::first();
    assert_eq!(kind.input(), Surface::Main);
    while let Some(following) = kind.next() {
        assert_eq!(following.input(), kind.target());
        kind = following;
    }
    assert_eq!(kind, PassKind::Composite);
}

#[test]
fn next_walks_the_four_passes_in_order() {
    assert_eq!(PassKind::first(), PassKind::Extract);
    assert_eq!(PassKind::Extract.next(), Some(PassKind::BlurHorizontal));
    assert_eq!(PassKind::BlurHorizontal.next(), Some(PassKind::BlurVertical));
    assert_eq!(PassKind::BlurVertical.next(), Some(PassKind::Composite));
    assert_eq!(PassKind::Composite.next(), None);
}

#[test]
fn offscreen_targets_are_cleared_and_the_main_target_is_kept() {
    assert_eq!(PassKind::Extract.load(), LoadPolicy::ClearBlack);
    assert_eq!(PassKind::BlurHorizontal.load(), LoadPolicy::ClearBlack);
    assert_eq!(PassKind::BlurVertical.load(), LoadPolicy::ClearBlack);
    assert_eq!(PassKind::Composite.load(), LoadPolicy::Load);
    for kind in ALL {
        assert_eq!(kind.load() == LoadPolicy::Load, kind.target() == Surface::Main);
    }
}

#[test]
fn composite_blend_is_one_one_add_for_color_and_alpha() {
    let additive =
        BlendComponent { src_factor: BlendFactor::One, dst_factor: BlendFactor::One, operation: BlendOperation::Add };
    assert_eq!(PassKind::Composite.blend(), Blend { color: additive, alpha: additive });
    assert_eq!(PassKind::Composite.blend(), additive_blend());
}

#[test]
fn every_other_blend_replaces() {
    let replace =
        BlendComponent { src_factor: BlendFactor::One, dst_factor: BlendFactor::Zero, operation: BlendOperation::Add };
    for kind in [PassKind::Extract, PassKind::BlurHorizontal, PassKind::BlurVertical] {
        assert_eq!(kind.blend(), Blend { color: replace, alpha: replace });
        assert_eq!(kind.blend(), replace_blend());
    }
    assert_ne!(additive_blend(), replace_blend());
}

#[test]
fn fragment_entry_points() {
    assert_eq!(PassKind::Extract.fragment_entry(), "fs_extract");
    assert_eq!(PassKind::BlurHorizontal.fragment_entry(), "fs_blur_h");
    assert_eq!(PassKind::BlurVertical.fragment_entry(), "fs_blur_v");
    assert_eq!(PassKind::Composite.fragment_entry(), "fs_composite");
    assert_eq!(vertex_entry(), "vs_fullscreen");
}

#[test]
fn labels() {
    assert_eq!(PassKind::Extract.pipeline_label(), "Glow Extract Pipeline");
    assert_eq!(PassKind::BlurHorizontal.pipeline_label(), "Glow Blur H Pipeline");
    assert_eq!(PassKind::BlurVertical.pipeline_label(), "Glow Blur V Pipeline");
    assert_eq!(PassKind::Composite.pipeline_label(), "Glow Composite Pipeline");
    for kind in ALL {
        assert_eq!(kind.layout_label(), format!("{} Layout", kind.pipeline_label()));
    }
    assert_eq!(PassKind::Extract.pass_label(), "Glow Extract Pass");
    assert_eq!(PassKind::BlurHorizontal.pass_label(), "Glow Blur H Pass");
    assert_eq!(PassKind::BlurVertical.pass_label(), "Glow Blur V Pass");
    assert_eq!(PassKind::Composite.pass_label(), "Glow Composite Pass");
    assert_eq!(PassKind::Extract.input_label(), "Main Texture Bind Group");
    assert_eq!(PassKind::BlurHorizontal.input_label(), "Glow Src Bind Group");
    assert_eq!(PassKind::BlurVertical.input_label(), "Glow Tmp Bind Group");
    assert_eq!(PassKind::Composite.input_label(), "Glow Final Bind Group");
}

#[test]
fn pipelines_differ_only_in_entry_point_and_blend() {
    let layout = vertex_layout();
    for kind in ALL {
        let spec = pipeline_spec(kind, PixelFormat::Bgra8Unorm);
        assert_eq!(spec.vertex_entry, "vs_fullscreen");
        assert_eq!(spec.fragment_entry, kind.fragment_entry());
        assert_eq!(spec.vertex_stride, 68);
        assert_eq!(spec.attributes, layout.attributes);
        assert_eq!(spec.target.format, PixelFormat::Bgra8Unorm);
        assert_eq!(spec.target.blend, kind.blend());
        assert_eq!(spec.target.write_mask, COLOR_WRITE_ALL);
        assert_eq!(spec.target.write_mask, 15);
        assert_eq!(spec.primitive, quad_primitive());
        assert_eq!(spec.multisample, single_sample());
    }
}

#[test]
fn pipeline_takes_the_format_it_is_given() {
    for format in
        [PixelFormat::Rgba8Unorm, PixelFormat::Rgba8UnormSrgb, PixelFormat::Bgra8Unorm, PixelFormat::Bgra8UnormSrgb]
    {
        assert_eq!(pipeline_spec(PassKind::Composite, format).target.format, format);
    }
}

#[test]
fn an_active_frame_runs_all_four_passes_in_order() {
    let passes = frame_passes(&settings(true, 2.0, 1.0));
    assert_eq!(passes, ALL.to_vec());
    assert_eq!(passes.len(), PASS_COUNT);
}

#[test]
fn an_inactive_frame_runs_no_pass() {
    assert!(frame_passes(&settings(false, 2.0, 1.0)).is_empty());
    assert!(frame_passes(&settings(true, 0.0, 1.0)).is_empty());
    assert!(frame_passes(&settings(true, 2.0, 0.0)).is_empty());
    assert!(frame_passes(&settings(true, -1.0, 1.0)).is_empty());
    assert!(frame_passes(&settings(true, 2.0, -1.0)).is_empty());
    assert!(frame_passes(&settings(false, 0.0, 0.0)).is_empty());
}

#[test]
fn composite_onto_mid_gray_never_darkens() {
    let blend = PassKind::Composite.blend();
    let gray: u8 = 128;
    for glow in 0..=255u8 {
        let color = blended(&blend.color, glow, gray);
        let alpha = blended(&blend.alpha, glow, 255);
        assert!(color >= gray);
        assert_eq!(color as u32, (glow as u32 + gray as u32).min(255));
        assert_eq!(alpha, 255);
    }
    assert_eq!(blended(&blend.color, 0, gray), gray);
    assert_eq!(blended(&blend.color, 100, gray), 228);
    assert_eq!(blended(&blend.color, 200, gray), 255);
}

#[test]
fn additive_blend_never_darkens_any_channel() {
    let blend = additive_blend();
    for destination in [0u8, 1, 127, 128, 254, 255] {
        for source in [0u8, 1, 127, 128, 254, 255] {
            assert!(blended(&blend.color, source, destination) >= destination);
            assert!(blended(&blend.alpha, source, destination) >= destination);
        }
    }
}

#[test]
fn offscreen_passes_overwrite_their_target() {
    for kind in [PassKind::Extract, PassKind::BlurHorizontal, PassKind::BlurVertical] {
        let blend = kind.blend();
        for destination in [0u8, 128, 255] {
            for source in [0u8, 7, 128, 255] {
                assert_eq!(blended(&blend.color, source, destination), source);
                assert_eq!(blended(&blend.alpha, source, destination), source);
            }
        }
    }
}

#[test]
fn blend_operations_on_concrete_values() {
    let component = |src_factor, dst_factor, operation| BlendComponent { src_factor, dst_factor, operation };
    let one = BlendFactor::One;
    let zero = BlendFactor::Zero;
    assert_eq!(blended(&component(one, one, BlendOperation::Add), 10, 20), 30);
    assert_eq!(blended(&component(one, one, BlendOperation::Add), 250, 20), 255);
    assert_eq!(blended(&component(one, zero, BlendOperation::Add), 10, 20), 10);
    assert_eq!(blended(&component(zero, one, BlendOperation::Add), 10, 20), 20);
    assert_eq!(blended(&component(zero, zero, BlendOperation::Add), 10, 20), 0);
    assert_eq!(blended(&component(one, one, BlendOperation::Subtract), 30, 20), 10);
    assert_eq!(blended(&component(one, one, BlendOperation::Subtract), 10, 20), 0);
    assert_eq!(blended(&component(one, one, BlendOperation::ReverseSubtract), 10, 20), 10);
    assert_eq!(blended(&component(one, one, BlendOperation::ReverseSubtract), 30, 20), 0);
    assert_eq!(blended(&component(zero, zero, BlendOperation::Min), 10, 20), 10);
    assert_eq!(blended(&component(zero, zero, BlendOperation::Max), 10, 20), 20);
    assert_eq!(blended(&component(one, one, BlendOperation::Min), 30, 20), 20);
    assert_eq!(blended(&component(one, one, BlendOperation::Max), 30, 20), 30);
}
