//! The vertex record of the renderer and the quad that every pass draws.
//!
//! The record is the one the rest of the renderer uses for its glyph quads,
//! so that the passes of the effect can share its pipelines' vertex input.
//! Only the position and the texture coordinate matter here. Each number is
//! held as the bit pattern of a 32-bit float.

use vstd::prelude::*;

verus! {

/// The bit pattern of `1.0`.
pub const ONE: u32 = 0x3f80_0000;

/// The bit pattern of `-1.0`.
pub const MINUS_ONE: u32 = 0xbf80_0000;

/// The bit pattern of `0.0`.
pub const ZERO: u32 = 0;

/// The type of one vertex attribute: one to four 32-bit floats.
#[derive(Clone, Copy, Debug, PartialEq, Eq, Structural)]
pub enum VertexFormat {
    Float32,
    Float32x2,
    Float32x3,
    Float32x4,
}

impl VertexFormat {
    /// The number of 32-bit words in an attribute of this format.
    pub open spec fn spec_words(&self) -> nat {
        match self {
            VertexFormat::Float32 => 1,
            VertexFormat::Float32x2 => 2,
            VertexFormat::Float32x3 => 3,
            VertexFormat::Float32x4 => 4,
        }
    }

    /// The number of bytes in an attribute of this format.
    pub open spec fn spec_size(&self) -> nat {
        4 * self.spec_words()
    }

    /// The number of bytes in an attribute of this format.
    pub fn size(&self) -> (bytes: u64)
        ensures
            bytes == self.spec_size(),
    {
        match self {
            VertexFormat::Float32 => 4,
            VertexFormat::Float32x2 => 8,
            VertexFormat::Float32x3 => 12,
            VertexFormat::Float32x4 => 16,
        }
    }
}

/// One input of the vertex shader: where it lies in the record, how it is
/// read, and the location the shader knows it by.
#[derive(Clone, Copy, Debug, PartialEq, Eq, Structural)]
pub struct Attribute {
    pub format: VertexFormat,
    pub offset: u64,
    pub shader_location: u32,
}

/// How a vertex buffer is read: one record every `array_stride` bytes, once
/// per vertex.
#[derive(Debug)]
pub struct VertexLayout {
    pub array_stride: u64,
    pub attributes: Vec<Attribute>,
}

/// The bytes that the first `count` formats take when packed without gaps.
pub open spec fn packed_size(formats: Seq<VertexFormat>, count: int) -> nat
    decreases count,
{
    if count <= 0 {
        0
    } else {
        packed_size(formats, count - 1) + formats[count - 1].spec_size()
    }
}

/// The attribute at `index` of a record that packs `formats` without gaps:
/// it starts where the one before it ends and has its index as location.
pub open spec fn packed_attribute(formats: Seq<VertexFormat>, index: int) -> Attribute {
    Attribute {
        format: formats[index],
        offset: packed_size(formats, index) as u64,
        shader_location: index as u32,
    }
}

/// A packed record takes at most sixteen bytes for each of its attributes.
pub proof fn lemma_packed_size_bound(formats: Seq<VertexFormat>, count: int)
    requires
        0 <= count <= formats.len(),
    ensures
        packed_size(formats, count) <= 16 * count,
    decreases count,
{
    if count > 0 {
        lemma_packed_size_bound(formats, count - 1);
    }
}

/// Lays the attributes out one after another, in the order given, and
/// numbers their shader locations from zero.
///
/// Returns `None` when there are more attributes than a location can count.
pub fn packed_layout(formats: &Vec<VertexFormat>) -> (layout: Option<VertexLayout>)
    ensures
        layout is Some <==> formats@.len() <= u32::MAX,
        layout matches Some(l) ==> {
            &&& l.array_stride == packed_size(formats@, formats@.len() as int)
            &&& l.attributes@.len() == formats@.len()
            &&& forall|i: int|
                0 <= i < formats@.len() ==> l.attributes@[i] == packed_attribute(formats@, i)
        },
{
    if formats.len() > u32::MAX as usize {
        return None;
    }
    let mut attributes: Vec<Attribute> = Vec::new();
    let mut offset: u64 = 0;
    let mut index: usize = 0;
    while index < formats.len()
        invariant
            index <= formats@.len() <= u32::MAX,
            offset == packed_size(formats@, index as int),
            attributes@.len() == index,
            forall|i: int| 0 <= i < index ==> attributes@[i] == packed_attribute(formats@, i),
        decreases formats@.len() - index,
    {
        let format: VertexFormat = formats[index];
        proof {
            lemma_packed_size_bound(formats@, index as int);
        }
        attributes.push(Attribute { format, offset, shader_location: index as u32 });
        offset = offset + format.size();
        index = index + 1;
    }
    Some(VertexLayout { array_stride: offset, attributes })
}

/// One corner of a quad, as the renderer's shaders read it.
#[derive(Clone, Copy, Debug)]
pub struct Vertex {
    /// Where the corner lies, in normalized device coordinates.
    pub position: [u32; 2],
    /// Where the corner lies in the texture that is sampled.
    pub tex: [u32; 2],
    /// The foreground color.
    pub fg_color: [u32; 4],
    /// The secondary color.
    pub alt_color: [u32; 4],
    /// The hue, saturation and value adjustment.
    pub hsv: [u32; 3],
    /// Non-zero when the texel carries its own color.
    pub has_color: u32,
    /// How far to mix from the foreground to the secondary color.
    pub mix_value: u32,
}

/// The number of 32-bit words in a [`Vertex`].
pub const VERTEX_WORDS: usize = 17;

/// The number of bytes in a [`Vertex`].
pub const VERTEX_SIZE: u64 = 68;

/// The formats of the fields of a [`Vertex`], in the order of the record.
pub open spec fn spec_vertex_formats() -> Seq<VertexFormat> {
    seq![
        VertexFormat::Float32x2,
        VertexFormat::Float32x2,
        VertexFormat::Float32x4,
        VertexFormat::Float32x4,
        VertexFormat::Float32x3,
        VertexFormat::Float32,
        VertexFormat::Float32,
    ]
}

/// The formats of the fields of a [`Vertex`], in the order of the record.
pub fn vertex_formats() -> (formats: Vec<VertexFormat>)
    ensures
        formats@ == spec_vertex_formats(),
{
    let mut formats: Vec<VertexFormat> = Vec::new();
    formats.push(VertexFormat::Float32x2);
    formats.push(VertexFormat::Float32x2);
    formats.push(VertexFormat::Float32x4);
    formats.push(VertexFormat::Float32x4);
    formats.push(VertexFormat::Float32x3);
    formats.push(VertexFormat::Float32);
    formats.push(VertexFormat::Float32);
    formats
}

/// The byte offsets of the fields of a [`Vertex`].
pub open spec fn spec_vertex_offsets() -> Seq<u64> {
    seq![0, 8, 16, 32, 48, 60, 64]
}

/// The attributes of a [`Vertex`]: its seven fields at locations 0 to 6,
/// packed without gaps.
pub open spec fn spec_vertex_attributes() -> Seq<Attribute> {
    Seq::new(
        7,
        |i: int|
            Attribute {
                format: spec_vertex_formats()[i],
                offset: spec_vertex_offsets()[i],
                shader_location: i as u32,
            },
    )
}

/// The fields of a [`Vertex`] fill its 68 bytes exactly.
pub proof fn lemma_vertex_is_packed()
    ensures
        packed_size(spec_vertex_formats(), 7) == VERTEX_SIZE,
        VERTEX_SIZE == 4 * VERTEX_WORDS,
        forall|i: int|
            0 <= i < 7 ==> packed_attribute(spec_vertex_formats(), i) == spec_vertex_attributes()[i],
{
    let f = spec_vertex_formats();
    reveal_with_fuel(packed_size, 8);
    assert(packed_size(f, 0) == 0);
    assert(packed_size(f, 1) == 8);
    assert(packed_size(f, 2) == 16);
    assert(packed_size(f, 3) == 32);
    assert(packed_size(f, 4) == 48);
    assert(packed_size(f, 5) == 60);
    assert(packed_size(f, 6) == 64);
    assert(packed_size(f, 7) == 68);
}

/// How the vertex buffers of the renderer are read.
pub fn vertex_layout() -> (layout: VertexLayout)
    ensures
        layout.array_stride == VERTEX_SIZE,
        layout.attributes@ == spec_vertex_attributes(),
{
    let formats = vertex_formats();
    proof {
        lemma_vertex_is_packed();
    }
    let layout = packed_layout(&formats).unwrap();
    assert(layout.attributes@ =~= spec_vertex_attributes());
    layout
}

impl Vertex {
    /// The record as the words that lie in a vertex buffer.
    pub open spec fn spec_words(&self) -> Seq<u32> {
        self.position@ + self.tex@ + self.fg_color@ + self.alt_color@ + self.hsv@ + seq![
            self.has_color,
            self.mix_value,
        ]
    }

    /// A corner at `(x, y)` that samples the texture at `(u, v)`, with the
    /// color fields set so that they change nothing: white foreground, no
    /// secondary color, unit hue, saturation and value, no color of its own.
    pub open spec fn spec_corner(x: u32, y: u32, u: u32, v: u32) -> Vertex {
        Vertex {
            position: [x, y],
            tex: [u, v],
            fg_color: [ONE, ONE, ONE, ONE],
            alt_color: [ZERO, ZERO, ZERO, ZERO],
            hsv: [ONE, ONE, ONE],
            has_color: ZERO,
            mix_value: ZERO,
        }
    }

    /// A corner of a quad that only carries a position and a texture
    /// coordinate.
    pub fn corner(x: u32, y: u32, u: u32, v: u32) -> (vertex: Vertex)
        ensures
            vertex == Vertex::spec_corner(x, y, u, v),
    {
        Vertex {
            position: [x, y],
            tex: [u, v],
            fg_color: [ONE, ONE, ONE, ONE],
            alt_color: [ZERO, ZERO, ZERO, ZERO],
            hsv: [ONE, ONE, ONE],
            has_color: ZERO,
            mix_value: ZERO,
        }
    }

    /// Appends the words of the record to `out`.
    pub fn write_words(&self, out: &mut Vec<u32>)
        ensures
            final(out)@ == old(out)@ + self.spec_words(),
    {
        out.push(self.position[0]);
        out.push(self.position[1]);
        out.push(self.tex[0]);
        out.push(self.tex[1]);
        out.push(self.fg_color[0]);
        out.push(self.fg_color[1]);
        out.push(self.fg_color[2]);
        out.push(self.fg_color[3]);
        out.push(self.alt_color[0]);
        out.push(self.alt_color[1]);
        out.push(self.alt_color[2]);
        out.push(self.alt_color[3]);
        out.push(self.hsv[0]);
        out.push(self.hsv[1]);
        out.push(self.hsv[2]);
        out.push(self.has_color);
        out.push(self.mix_value);
        assert(out@ =~= old(out)@ + self.spec_words());
    }
}

/// The number of corners of the quad.
pub const QUAD_VERTICES: usize = 4;

/// The number of indices that draw the quad as two triangles.
pub const QUAD_INDICES: u32 = 6;

/// The quad that covers the whole viewport.
///
/// Its corners lie at plus and minus one on both axes, starting at the
/// bottom left and going round counter-clockwise. The texture coordinates
/// cover the unit square, with the top of the texture at the top of the
/// viewport.
pub open spec fn spec_fullscreen_quad() -> Seq<Vertex> {
    seq![
        Vertex::spec_corner(MINUS_ONE, MINUS_ONE, ZERO, ONE),
        Vertex::spec_corner(ONE, MINUS_ONE, ONE, ONE),
        Vertex::spec_corner(ONE, ONE, ONE, ZERO),
        Vertex::spec_corner(MINUS_ONE, ONE, ZERO, ZERO),
    ]
}

/// The two triangles of the quad, which share the diagonal from the first
/// corner to the third.
pub open spec fn spec_quad_indices() -> Seq<u16> {
    seq![0, 1, 2, 0, 2, 3]
}

/// The words of all vertices of `vertices`, one record after another.
pub open spec fn spec_vertex_words(vertices: Seq<Vertex>) -> Seq<u32>
    decreases vertices.len(),
{
    if vertices.len() == 0 {
        Seq::empty()
    } else {
        spec_vertex_words(vertices.drop_last()) + vertices.last().spec_words()
    }
}

/// Every record takes [`VERTEX_WORDS`] words.
pub proof fn lemma_vertex_words_len(vertices: Seq<Vertex>)
    ensures
        spec_vertex_words(vertices).len() == VERTEX_WORDS * vertices.len(),
    decreases vertices.len(),
{
    if vertices.len() > 0 {
        lemma_vertex_words_len(vertices.drop_last());
        let v = vertices.last();
        assert(v.position@.len() == 2 && v.tex@.len() == 2 && v.fg_color@.len() == 4
            && v.alt_color@.len() == 4 && v.hsv@.len() == 3);
    }
}

/// The quad that covers the whole viewport.
pub fn fullscreen_quad() -> (vertices: Vec<Vertex>)
    ensures
        vertices@ == spec_fullscreen_quad(),
{
    let mut vertices: Vec<Vertex> = Vec::with_capacity(QUAD_VERTICES);
    vertices.push(Vertex::corner(MINUS_ONE, MINUS_ONE, ZERO, ONE));
    vertices.push(Vertex::corner(ONE, MINUS_ONE, ONE, ONE));
    vertices.push(Vertex::corner(ONE, ONE, ONE, ZERO));
    vertices.push(Vertex::corner(MINUS_ONE, ONE, ZERO, ZERO));
    assert(vertices@ =~= spec_fullscreen_quad());
    vertices
}

/// The indices that draw the quad as two triangles.
pub fn quad_indices() -> (indices: Vec<u16>)
    ensures
        indices@ == spec_quad_indices(),
        indices@.len() == QUAD_INDICES,
{
    let mut indices: Vec<u16> = Vec::with_capacity(6);
    indices.push(0);
    indices.push(1);
    indices.push(2);
    indices.push(0);
    indices.push(2);
    indices.push(3);
    assert(indices@ =~= spec_quad_indices());
    indices
}

/// The words of a list of vertices as they lie in a vertex buffer.
pub fn vertex_words(vertices: &Vec<Vertex>) -> (words: Vec<u32>)
    ensures
        words@ == spec_vertex_words(vertices@),
        words@.len() == VERTEX_WORDS * vertices@.len(),
{
    let mut words: Vec<u32> = Vec::new();
    let mut index: usize = 0;
    while index < vertices.len()
        invariant
            index <= vertices@.len(),
            words@ == spec_vertex_words(vertices@.take(index as int)),
        decreases vertices@.len() - index,
    {
        vertices[index].write_words(&mut words);
        proof {
            let next = vertices@.take(index + 1);
            assert(next.drop_last() =~= vertices@.take(index as int));
            assert(next.last() == vertices@[index as int]);
        }
        index = index + 1;
    }
    proof {
        assert(vertices@.take(index as int) =~= vertices@);
        lemma_vertex_words_len(vertices@);
    }
    words
}

/// Whether the bit pattern is that of `1.0` or of `-1.0`.
pub open spec fn is_unit(bits: u32) -> bool {
    bits == ONE || bits == MINUS_ONE
}

/// The texture coordinate that belongs to a position on one axis: the low
/// edge of the viewport samples at `low`, the high edge at the other end.
pub open spec fn edge_coordinate(position: u32, low: u32) -> u32 {
    if position == MINUS_ONE {
        low
    } else if low == ZERO {
        ONE
    } else {
        ZERO
    }
}

/// The quad covers the viewport and the texture.
///
/// Each of the four corners of the viewport is the position of exactly one
/// vertex. The texture coordinate of a vertex follows from its position:
/// left is 0 and right is 1, bottom is 1 and top is 0. The color fields are
/// the same at every corner.
pub proof fn lemma_quad_covers_viewport()
    ensures
        spec_fullscreen_quad().len() == QUAD_VERTICES,
        forall|x: u32, y: u32|
            is_unit(x) && is_unit(y) ==> exists|i: int|
                0 <= i < 4 && #[trigger] spec_fullscreen_quad()[i].position@ == seq![x, y],
        forall|i: int, j: int|
            0 <= i < j < 4 ==> spec_fullscreen_quad()[i].position@
                != spec_fullscreen_quad()[j].position@,
        forall|i: int|
            0 <= i < 4 ==> {
                let v = #[trigger] spec_fullscreen_quad()[i];
                &&& is_unit(v.position@[0]) && is_unit(v.position@[1])
                &&& v.tex@[0] == edge_coordinate(v.position@[0], ZERO)
                &&& v.tex@[1] == edge_coordinate(v.position@[1], ONE)
                &&& v == Vertex::spec_corner(v.position@[0], v.position@[1], v.tex@[0], v.tex@[1])
            },
{
    let q = spec_fullscreen_quad();
    assert forall|x: u32, y: u32| is_unit(x) && is_unit(y) implies exists|i: int|
        0 <= i < 4 && #[trigger] spec_fullscreen_quad()[i].position@ == seq![x, y] by {
        let i: int = if x == MINUS_ONE {
            if y == MINUS_ONE {
                0
            } else {
                3
            }
        } else {
            if y == MINUS_ONE {
                1
            } else {
                2
            }
        };
        assert(q[i].position@ =~= seq![x, y]);
    }
    assert forall|i: int, j: int| 0 <= i < j < 4 implies spec_fullscreen_quad()[i].position@
        != spec_fullscreen_quad()[j].position@ by {
        let a = q[i].position@;
        let b = q[j].position@;
        assert(a[0] != b[0] || a[1] != b[1]);
    }
}

/// The six indices draw two triangles that share a diagonal and between
/// them use every corner of the quad.
pub proof fn lemma_quad_indices_form_two_triangles()
    ensures
        spec_quad_indices().len() == QUAD_INDICES,
        forall|k: int| 0 <= k < 6 ==> (#[trigger] spec_quad_indices()[k]) < QUAD_VERTICES,
        forall|v: u16| v < QUAD_VERTICES ==> spec_quad_indices().contains(v),
        spec_quad_indices()[0] == spec_quad_indices()[3],
        spec_quad_indices()[2] == spec_quad_indices()[4],
        spec_quad_indices()[1] != spec_quad_indices()[5],
{
    let s = spec_quad_indices();
    assert forall|v: u16| v < QUAD_VERTICES implies spec_quad_indices().contains(v) by {
        let k: int = if v == 3 {
            5
        } else {
            v as int
        };
        assert(s[k] == v);
    }
}

} // verus!
