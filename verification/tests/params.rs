use glow_effect::params::{at_most_zero, extent, Dimensions, ExperimentalGlow, GlowUniform};

fn settings(enabled: bool, radius: f32, threshold: f32, strength: f32, color_boost: f32) -> ExperimentalGlow {
    ExperimentalGlow {
        enabled,
        radius: radius.to_bits(),
        threshold: threshold.to_bits(),
        strength: strength.to_bits(),
        color_boost: color_boost.to_bits(),
    }
}

#[test]
fn test_glow_uniform_from_config() {
    let config = settings(true, 3.0, 0.6, 0.8, 1.2);

    let uniform = GlowUniform::from(&config);
    assert_eq!(f32::from_bits(uniform.radius), 3.0);
    assert_eq!(f32::from_bits(uniform.strength), 0.8);
    assert_eq!(f32::from_bits(uniform.threshold), 0.6);
    assert_eq!(f32::from_bits(uniform.color_boost), 1.2);
}

#[test]
fn test_glow_uniform_default() {
    let uniform = GlowUniform::default();
    assert_eq!(f32::from_bits(uniform.radius), 0.0);
    assert_eq!(f32::from_bits(uniform.strength), 0.0);
    assert_eq!(f32::from_bits(uniform.threshold), 0.0);
    assert_eq!(f32::from_bits(uniform.color_boost), 0.0);
}

#[test]
fn default_uniform_is_all_zero_bits() {
    let uniform = GlowUniform::default();
    assert_eq!(uniform.words(), vec![0, 0, 0, 0]);
    assert_eq!(uniform.bytes(), vec![0u8; 16]);
}

#[test]
fn from_keeps_every_bit_of_every_field() {
    let patterns = [0u32, 1, 0x7fc0_0001, 0xffff_ffff, 0x8000_0000, 0x3f80_0000, 0x0012_3456];
    for (i, &radius) in patterns.iter().enumerate() {
        let threshold = patterns[(i + 1) % patterns.len()];
        let strength = patterns[(i + 2) % patterns.len()];
        let color_boost = patterns[(i + 3) % patterns.len()];
        let config = ExperimentalGlow { enabled: i % 2 == 0, radius, threshold, strength, color_boost };
        let uniform = GlowUniform::from(&config);
        assert_eq!(uniform.radius, radius);
        assert_eq!(uniform.threshold, threshold);
        assert_eq!(uniform.strength, strength);
        assert_eq!(uniform.color_boost, color_boost);
    }
}

#[test]
fn words_follow_the_order_of_the_uniform_block() {
    let uniform = GlowUniform::from(&settings(true, 3.0, 0.6, 0.8, 1.2));
    assert_eq!(
        uniform.words(),
        vec![3.0f32.to_bits(), 0.6f32.to_bits(), 0.8f32.to_bits(), 1.2f32.to_bits()]
    );
}

#[test]
fn bytes_are_the_memory_of_four_floats() {
    let uniform = GlowUniform::from(&settings(true, 3.0, 0.6, 0.8, 1.2));
    let mut expected: Vec<u8> = Vec::new();
    for value in [3.0f32, 0.6, 0.8, 1.2] {
        expected.extend_from_slice(&value.to_ne_bytes());
    }
    assert_eq!(uniform.bytes(), expected);
    assert_eq!(uniform.bytes().len(), 16);
}

#[test]
fn at_most_zero_agrees_with_the_float_comparison() {
    let values = [
        0.0f32,
        -0.0,
        1.0,
        -1.0,
        f32::MIN_POSITIVE,
        -f32::MIN_POSITIVE,
        f32::from_bits(1),
        f32::from_bits(0x8000_0001),
        f32::MAX,
        f32::MIN,
        f32::INFINITY,
        f32::NEG_INFINITY,
        f32::NAN,
        -f32::NAN,
        f32::from_bits(0x7f80_0001),
        f32::from_bits(0xff80_0001),
        f32::from_bits(0xffff_ffff),
        0.8,
        -3.5e-12,
    ];
    for value in values {
        assert_eq!(at_most_zero(value.to_bits()), value <= 0.0, "{value:?}");
    }
}

#[test]
fn at_most_zero_at_the_edges_of_each_class() {
    assert!(at_most_zero(0));
    assert!(!at_most_zero(1));
    assert!(!at_most_zero(0x7f80_0000));
    assert!(!at_most_zero(0x7fff_ffff));
    assert!(at_most_zero(0x8000_0000));
    assert!(at_most_zero(0xff80_0000));
    assert!(!at_most_zero(0xff80_0001));
    assert!(!at_most_zero(0xffff_ffff));
}

#[test]
fn effect_is_active_only_when_enabled_with_positive_strength_and_radius() {
    assert!(settings(true, 2.0, 0.0, 1.0, 1.0).is_active());
    assert!(!settings(false, 2.0, 0.0, 1.0, 1.0).is_active());
    assert!(!settings(true, 0.0, 0.0, 1.0, 1.0).is_active());
    assert!(!settings(true, -0.0, 0.0, 1.0, 1.0).is_active());
    assert!(!settings(true, -2.0, 0.0, 1.0, 1.0).is_active());
    assert!(!settings(true, 2.0, 0.0, 0.0, 1.0).is_active());
    assert!(!settings(true, 2.0, 0.0, -0.5, 1.0).is_active());
    assert!(!settings(true, 2.0, 0.0, f32::NEG_INFINITY, 1.0).is_active());
    assert!(settings(true, f32::MIN_POSITIVE, -1.0, f32::INFINITY, 0.0).is_active());
}

#[test]
fn a_nan_is_not_at_most_zero_so_it_does_not_disable() {
    assert!(settings(true, f32::NAN, 0.0, 1.0, 1.0).is_active());
    assert!(settings(true, 2.0, 0.0, f32::NAN, 1.0).is_active());
    assert!(!settings(false, f32::NAN, 0.0, f32::NAN, 1.0).is_active());
}

#[test]
fn threshold_and_color_boost_do_not_gate_the_effect() {
    assert!(settings(true, 1.0, -5.0, 1.0, -5.0).is_active());
    assert!(settings(true, 1.0, 0.0, 1.0, 0.0).is_active());
}

#[test]
fn extent_keeps_the_low_32_bits() {
    assert_eq!(extent(0), 0);
    assert_eq!(extent(1920), 1920);
    assert_eq!(extent(u32::MAX as usize), u32::MAX);
    let wide: u64 = 0x1_0000_0005;
    assert_eq!(extent(wide as usize), (wide as usize) as u32);
    assert_eq!(extent(usize::MAX), usize::MAX as u32);
}

#[test]
fn dimensions_give_the_texture_extent() {
    let dimensions = Dimensions { pixel_width: 1280, pixel_height: 720, dpi: 96 };
    assert_eq!(dimensions.width(), 1280);
    assert_eq!(dimensions.height(), 720);
}
