use glow_effect::encoding::{image_of_halves, image_of_words};
use glow_effect::geometry::{
    fullscreen_quad, packed_layout, quad_indices, vertex_formats, vertex_layout, vertex_words, Attribute,
    Vertex, VertexFormat, MINUS_ONE, ONE, QUAD_INDICES, QUAD_VERTICES, VERTEX_SIZE, VERTEX_WORDS, ZERO,
};

fn floats(bits: &[u32]) -> Vec<f32> {
    bits.iter().map(|b| f32::from_bits(*b)).collect()
}

#[test]
fn float_constants_are_the_bits_of_the_floats() {
    assert_eq!(ONE, 1.0f32.to_bits());
    assert_eq!(MINUS_ONE, (-1.0f32).to_bits());
    assert_eq!(ZERO, 0.0f32.to_bits());
}

#[test]
fn format_sizes() {
    assert_eq!(VertexFormat::Float32.size(), 4);
    assert_eq!(VertexFormat::Float32x2.size(), 8);
    assert_eq!(VertexFormat::Float32x3.size(), 12);
    assert_eq!(VertexFormat::Float32x4.size(), 16);
}

#[test]
fn vertex_record_has_seven_packed_attributes() {
    let layout = vertex_layout();
    assert_eq!(layout.array_stride, 68);
    assert_eq!(layout.array_stride, VERTEX_SIZE);
    assert_eq!(VERTEX_SIZE as usize, 4 * VERTEX_WORDS);
    let expected = vec![
        Attribute { format: VertexFormat::Float32x2, offset: 0, shader_location: 0 },
        Attribute { format: VertexFormat::Float32x2, offset: 8, shader_location: 1 },
        Attribute { format: VertexFormat::Float32x4, offset: 16, shader_location: 2 },
        Attribute { format: VertexFormat::Float32x4, offset: 32, shader_location: 3 },
        Attribute { format: VertexFormat::Float32x3, offset: 48, shader_location: 4 },
        Attribute { format: VertexFormat::Float32, offset: 60, shader_location: 5 },
        Attribute { format: VertexFormat::Float32, offset: 64, shader_location: 6 },
    ];
    assert_eq!(layout.attributes, expected);
}

#[test]
fn vertex_formats_are_those_of_the_record() {
    assert_eq!(
        vertex_formats(),
        vec![
            VertexFormat::Float32x2,
            VertexFormat::Float32x2,
            VertexFormat::Float32x4,
            VertexFormat::Float32x4,
            VertexFormat::Float32x3,
            VertexFormat::Float32,
            VertexFormat::Float32,
        ]
    );
}

#[test]
fn packed_layout_of_nothing_is_empty() {
    let layout = packed_layout(&Vec::new()).unwrap();
    assert_eq!(layout.array_stride, 0);
    assert!(layout.attributes.is_empty());
}

#[test]
fn packed_layout_puts_each_attribute_after_the_one_before() {
    let formats = vec![VertexFormat::Float32x3, VertexFormat::Float32, VertexFormat::Float32x4, VertexFormat::Float32x2];
    let layout = packed_layout(&formats).unwrap();
    assert_eq!(layout.array_stride, 12 + 4 + 16 + 8);
    let offsets: Vec<u64> = layout.attributes.iter().map(|a| a.offset).collect();
    assert_eq!(offsets, vec![0, 12, 16, 32]);
    let locations: Vec<u32> = layout.attributes.iter().map(|a| a.shader_location).collect();
    assert_eq!(locations, vec![0, 1, 2, 3]);
    let kept: Vec<VertexFormat> = layout.attributes.iter().map(|a| a.format).collect();
    assert_eq!(kept, formats);
}

#[test]
fn packed_attributes_do_not_overlap() {
    let layout = vertex_layout();
    for pair in layout.attributes.windows(2) {
        assert_eq!(pair[0].offset + pair[0].format.size(), pair[1].offset);
    }
    let last = layout.attributes.last().unwrap();
    assert_eq!(last.offset + last.format.size(), layout.array_stride);
}

#[test]
fn quad_has_the_four_corners_of_the_viewport() {
    let quad = fullscreen_quad();
    assert_eq!(quad.len(), QUAD_VERTICES);
    let positions: Vec<Vec<f32>> = quad.iter().map(|v| floats(&v.position)).collect();
    assert_eq!(
        positions,
        vec![vec![-1.0, -1.0], vec![1.0, -1.0], vec![1.0, 1.0], vec![-1.0, 1.0]]
    );
    let tex: Vec<Vec<f32>> = quad.iter().map(|v| floats(&v.tex)).collect();
    assert_eq!(tex, vec![vec![0.0, 1.0], vec![1.0, 1.0], vec![1.0, 0.0], vec![0.0, 0.0]]);
}

#[test]
fn quad_texture_coordinates_follow_the_positions() {
    for vertex in fullscreen_quad() {
        let position = floats(&vertex.position);
        let tex = floats(&vertex.tex);
        assert_eq!(tex[0], (position[0] + 1.0) / 2.0);
        assert_eq!(tex[1], (1.0 - position[1]) / 2.0);
    }
}

#[test]
fn quad_colors_change_nothing() {
    for vertex in fullscreen_quad() {
        assert_eq!(floats(&vertex.fg_color), vec![1.0, 1.0, 1.0, 1.0]);
        assert_eq!(floats(&vertex.alt_color), vec![0.0, 0.0, 0.0, 0.0]);
        assert_eq!(floats(&vertex.hsv), vec![1.0, 1.0, 1.0]);
        assert_eq!(f32::from_bits(vertex.has_color), 0.0);
        assert_eq!(f32::from_bits(vertex.mix_value), 0.0);
    }
}

#[test]
fn corner_sets_position_and_texture_coordinate() {
    let vertex = Vertex::corner(7, 8, 9, 10);
    assert_eq!(vertex.position, [7, 8]);
    assert_eq!(vertex.tex, [9, 10]);
    assert_eq!(vertex.fg_color, [ONE, ONE, ONE, ONE]);
    assert_eq!(vertex.alt_color, [ZERO, ZERO, ZERO, ZERO]);
    assert_eq!(vertex.hsv, [ONE, ONE, ONE]);
    assert_eq!(vertex.has_color, ZERO);
    assert_eq!(vertex.mix_value, ZERO);
}

#[test]
fn quad_indices_are_two_triangles_over_one_diagonal() {
    let indices = quad_indices();
    assert_eq!(indices, vec![0, 1, 2, 0, 2, 3]);
    assert_eq!(indices.len() as u32, QUAD_INDICES);
    for corner in 0..QUAD_VERTICES as u16 {
        assert!(indices.contains(&corner));
    }
}

#[test]
fn write_words_appends_the_record_in_field_order() {
    let vertex = Vertex {
        position: [1, 2],
        tex: [3, 4],
        fg_color: [5, 6, 7, 8],
        alt_color: [9, 10, 11, 12],
        hsv: [13, 14, 15],
        has_color: 16,
        mix_value: 17,
    };
    let mut out: Vec<u32> = vec![99];
    vertex.write_words(&mut out);
    let mut expected: Vec<u32> = vec![99];
    expected.extend(1..=17);
    assert_eq!(out, expected);
}

#[test]
fn vertex_words_lay_the_records_end_to_end() {
    let quad = fullscreen_quad();
    let words = vertex_words(&quad);
    assert_eq!(words.len(), QUAD_VERTICES * VERTEX_WORDS);
    let as_floats = floats(&words);
    let first: Vec<f32> = vec![
        -1.0, -1.0, 0.0, 1.0, 1.0, 1.0, 1.0, 1.0, 0.0, 0.0, 0.0, 0.0, 1.0, 1.0, 1.0, 0.0, 0.0,
    ];
    assert_eq!(&as_floats[..17], &first[..]);
    assert_eq!(&as_floats[17..21], &[1.0, -1.0, 1.0, 1.0]);
    assert_eq!(&as_floats[34..38], &[1.0, 1.0, 1.0, 0.0]);
    assert_eq!(&as_floats[51..55], &[-1.0, 1.0, 0.0, 0.0]);
    assert!(vertex_words(&Vec::new()).is_empty());
}

#[test]
fn quad_buffers_have_the_expected_sizes() {
    let vertex_bytes = image_of_words(&vertex_words(&fullscreen_quad()));
    assert_eq!(vertex_bytes.len(), 272);
    let index_bytes = image_of_halves(&quad_indices());
    assert_eq!(index_bytes.len(), 12);
    let mut expected: Vec<u8> = Vec::new();
    for index in [0u16, 1, 2, 0, 2, 3] {
        expected.extend_from_slice(&index.to_ne_bytes());
    }
    assert_eq!(index_bytes, expected);
}
