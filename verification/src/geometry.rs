//! Vertex and instance records, the built-in quad and the buffers that are
//! uploaded for drawing.
//!
//! Every 32-bit floating-point component is held as its IEEE-754 bit
//! pattern, so that a record's words are exactly what the GPU reads.

use crate::bytes::{is_u32_image, u32_image, word_bytes, ByteOrder};
use crate::layout::{
    lemma_offsets_cumulative, packed_attribute, packed_offset, packed_size, BufferLayout, StepMode,
    VertexAttribute, VertexFormat,
};
use vstd::prelude::*;

verus! {

/// One corner of a mesh: a position and a colour, three components each.
#[derive(Clone, Copy, Debug, PartialEq, Eq)]
pub struct Vertex {
    pub position: [u32; 3],
    pub color: [u32; 3],
}

/// The uploaded form of one instance: a 4x4 transform, column by column.
#[derive(Clone, Copy, Debug, PartialEq, Eq)]
pub struct InstanceRaw {
    pub model: [[u32; 4]; 4],
}

/// First shader slot of the per-vertex attributes.
pub const VERTEX_FIRST_SLOT: u32 = 0;

/// First shader slot of the per-instance attributes. The slots between the
/// vertex attributes and this one are kept free for later vertex attributes.
pub const INSTANCE_FIRST_SLOT: u32 = 5;

impl Vertex {
    /// The record's fields in memory order.
    pub open spec fn fields() -> Seq<VertexFormat> {
        seq![VertexFormat::Float32x3, VertexFormat::Float32x3]
    }

    /// The record's 32-bit words in memory order.
    pub open spec fn words(self) -> Seq<u32> {
        self.position@ + self.color@
    }

    /// The layout of a buffer of vertices: position in slot 0, colour in
    /// slot 1, advancing once per vertex.
    pub fn desc() -> (layout: BufferLayout)
        ensures
            layout.describes(Vertex::fields(), VERTEX_FIRST_SLOT),
            layout.step_mode == StepMode::Vertex,
            layout.array_stride == 24,
            layout.attributes@ == seq![
                VertexAttribute { offset: 0, shader_location: 0, format: VertexFormat::Float32x3 },
                VertexAttribute { offset: 12, shader_location: 1, format: VertexFormat::Float32x3 },
            ],
    {
        let fields = [VertexFormat::Float32x3, VertexFormat::Float32x3];
        assert(fields@ == Vertex::fields());
        let layout = BufferLayout::packed(fields.as_slice(), VERTEX_FIRST_SLOT, StepMode::Vertex);
        proof {
            lemma_vertex_offsets();
            assert(layout.attributes@[0] == packed_attribute(fields@, 0, 0));
            assert(layout.attributes@[1] == packed_attribute(fields@, 0, 1));
        }
        layout
    }
}

/// Where the fields of a vertex start and end.
pub proof fn lemma_vertex_offsets()
    ensures
        packed_offset(Vertex::fields(), 0) == 0,
        packed_offset(Vertex::fields(), 1) == 12,
        packed_size(Vertex::fields()) == 24,
{
    let f = Vertex::fields();
    lemma_offsets_cumulative(f, 0);
    lemma_offsets_cumulative(f, 1);
}

impl InstanceRaw {
    /// The record's fields in memory order: the transform's four columns.
    pub open spec fn fields() -> Seq<VertexFormat> {
        seq![
            VertexFormat::Float32x4,
            VertexFormat::Float32x4,
            VertexFormat::Float32x4,
            VertexFormat::Float32x4,
        ]
    }

    /// The record's 32-bit words in memory order.
    pub open spec fn words(self) -> Seq<u32> {
        self.model@[0]@ + self.model@[1]@ + self.model@[2]@ + self.model@[3]@
    }

    /// The layout of a buffer of instances: one slot per column of the
    /// transform, slots 5 to 8, advancing once per instance.
    pub fn desc() -> (layout: BufferLayout)
        ensures
            layout.describes(InstanceRaw::fields(), INSTANCE_FIRST_SLOT),
            layout.step_mode == StepMode::Instance,
            layout.array_stride == 64,
            layout.attributes@ == seq![
                VertexAttribute { offset: 0, shader_location: 5, format: VertexFormat::Float32x4 },
                VertexAttribute { offset: 16, shader_location: 6, format: VertexFormat::Float32x4 },
                VertexAttribute { offset: 32, shader_location: 7, format: VertexFormat::Float32x4 },
                VertexAttribute { offset: 48, shader_location: 8, format: VertexFormat::Float32x4 },
            ],
    {
        let fields = [
            VertexFormat::Float32x4,
            VertexFormat::Float32x4,
            VertexFormat::Float32x4,
            VertexFormat::Float32x4,
        ];
        assert(fields@ == InstanceRaw::fields());
        let layout = BufferLayout::packed(
            fields.as_slice(),
            INSTANCE_FIRST_SLOT,
            StepMode::Instance,
        );
        proof {
            lemma_instance_offsets();
            assert(layout.attributes@[0] == packed_attribute(fields@, 5, 0));
            assert(layout.attributes@[1] == packed_attribute(fields@, 5, 1));
            assert(layout.attributes@[2] == packed_attribute(fields@, 5, 2));
            assert(layout.attributes@[3] == packed_attribute(fields@, 5, 3));
        }
        layout
    }
}

/// Where the columns of an instance transform start and end.
pub proof fn lemma_instance_offsets()
    ensures
        packed_offset(InstanceRaw::fields(), 0) == 0,
        packed_offset(InstanceRaw::fields(), 1) == 16,
        packed_offset(InstanceRaw::fields(), 2) == 32,
        packed_offset(InstanceRaw::fields(), 3) == 48,
        packed_size(InstanceRaw::fields()) == 64,
{
    let f = InstanceRaw::fields();
    lemma_offsets_cumulative(f, 0);
    lemma_offsets_cumulative(f, 1);
    lemma_offsets_cumulative(f, 2);
    lemma_offsets_cumulative(f, 3);
}

/// The words of an array of vertices, record after record.
pub open spec fn vertex_words(vertices: Seq<Vertex>) -> Seq<u32> {
    Seq::new(6 * vertices.len(), |j: int| vertices[j / 6].words()[j % 6])
}

/// The words of an array of instances, record after record.
pub open spec fn instance_words(instances: Seq<InstanceRaw>) -> Seq<u32> {
    Seq::new(16 * instances.len(), |j: int| instances[j / 16].words()[j % 16])
}

/// Flattens vertices into the words that make up their buffer.
pub fn flatten_vertices(vertices: &[Vertex]) -> (words: Vec<u32>)
    ensures
        words@ == vertex_words(vertices@),
{
    let mut words: Vec<u32> = Vec::new();
    let mut i: usize = 0;
    while i < vertices.len()
        invariant
            0 <= i <= vertices@.len(),
            words@ == vertex_words(vertices@.take(i as int)),
        decreases vertices@.len() - i,
    {
        let vertex = vertices[i];
        let ghost before = words@;
        words.push(vertex.position[0]);
        words.push(vertex.position[1]);
        words.push(vertex.position[2]);
        words.push(vertex.color[0]);
        words.push(vertex.color[1]);
        words.push(vertex.color[2]);
        proof {
            assert(words@ == before + vertex.words());
            let next = vertices@.take(i + 1);
            assert forall|j: int| 0 <= j < 6 * (i + 1) implies words@[j] == vertex_words(next)[j] by {
                if j < 6 * i {
                    assert(next[j / 6] == vertices@.take(i as int)[j / 6]);
                } else {
                    assert(j / 6 == i);
                    assert(j % 6 == j - 6 * i);
                }
            }
            assert(words@ == vertex_words(next));
        }
        i = i + 1;
    }
    proof {
        assert(vertices@.take(vertices@.len() as int) == vertices@);
    }
    words
}

/// Flattens instance transforms into the words that make up their buffer.
pub fn flatten_instances(instances: &[InstanceRaw]) -> (words: Vec<u32>)
    ensures
        words@ == instance_words(instances@),
{
    let mut words: Vec<u32> = Vec::new();
    let mut i: usize = 0;
    while i < instances.len()
        invariant
            0 <= i <= instances@.len(),
            words@ == instance_words(instances@.take(i as int)),
        decreases instances@.len() - i,
    {
        let instance = instances[i];
        let ghost before = words@;
        let mut column: usize = 0;
        while column < 4
            invariant
                0 <= column <= 4,
                words@.len() == before.len() + 4 * column,
                forall|j: int| 0 <= j < before.len() ==> words@[j] == before[j],
                forall|j: int|
                    0 <= j < 4 * column ==> words@[before.len() + j] == instance.words()[j],
            decreases 4 - column,
        {
            let ghost start = words@;
            let cells = instance.model[column];
            words.push(cells[0]);
            words.push(cells[1]);
            words.push(cells[2]);
            words.push(cells[3]);
            proof {
                assert(words@ == start + cells@);
                assert forall|j: int| 0 <= j < 4 * (column + 1) implies words@[before.len() + j]
                    == instance.words()[j] by {
                    if j >= 4 * column {
                        assert(words@[before.len() + j] == cells@[j - 4 * column]);
                    }
                }
            }
            column = column + 1;
        }
        proof {
            let next = instances@.take(i + 1);
            assert forall|j: int| 0 <= j < 16 * (i + 1) implies words@[j] == instance_words(
                next,
            )[j] by {
                if j < 16 * i {
                    assert(words@[j] == before[j]);
                    assert(next[j / 16] == instances@.take(i as int)[j / 16]);
                } else {
                    assert(j / 16 == i);
                    assert(j % 16 == j - 16 * i);
                    assert(words@[before.len() + (j - 16 * i)] == instance.words()[j - 16 * i]);
                }
            }
            assert(words@ == instance_words(next));
        }
        i = i + 1;
    }
    proof {
        assert(instances@.take(instances@.len() as int) == instances@);
    }
    words
}

/// The contents of a vertex buffer: 24 bytes for each vertex, in order.
pub fn vertex_bytes(vertices: &[Vertex]) -> (bytes: Vec<u8>)
    ensures
        is_u32_image(vertex_words(vertices@), bytes@),
        bytes@.len() == 24 * vertices@.len(),
{
    let words = flatten_vertices(vertices);
    word_bytes(words.as_slice())
}

/// The contents of an instance buffer: 64 bytes for each instance, in order.
pub fn instance_bytes(instances: &[InstanceRaw]) -> (bytes: Vec<u8>)
    ensures
        is_u32_image(instance_words(instances@), bytes@),
        bytes@.len() == 64 * instances@.len(),
{
    let words = flatten_instances(instances);
    word_bytes(words.as_slice())
}

/// Bit pattern of 0.0.
pub const ZERO: u32 = 0x0000_0000;

/// Bit pattern of 1.0.
pub const ONE: u32 = 0x3f80_0000;

/// Bit pattern of 0.05, half the side of the quad.
pub const HALF_SIDE: u32 = 0x3d4c_cccd;

/// Bit pattern of -0.05.
pub const MINUS_HALF_SIDE: u32 = 0xbd4c_cccd;

/// A white vertex in the plane z = 0.
pub open spec fn white_vertex(x: u32, y: u32) -> Vertex {
    Vertex { position: [x, y, ZERO], color: [ONE, ONE, ONE] }
}

/// The corners of the quad, counter-clockwise from the upper left.
pub open spec fn quad_corners() -> Seq<Vertex> {
    seq![
        white_vertex(MINUS_HALF_SIDE, HALF_SIDE),
        white_vertex(MINUS_HALF_SIDE, MINUS_HALF_SIDE),
        white_vertex(HALF_SIDE, MINUS_HALF_SIDE),
        white_vertex(HALF_SIDE, HALF_SIDE),
    ]
}

/// The two triangles of the quad, as positions in `quad_corners`.
pub open spec fn quad_triangles() -> Seq<u16> {
    seq![0u16, 1u16, 2u16, 0u16, 2u16, 3u16]
}

/// The vertices of the quad that every instance draws: a white square of
/// side 0.1 around the origin.
pub fn quad_vertices() -> (vertices: Vec<Vertex>)
    ensures
        vertices@ == quad_corners(),
{
    let mut vertices: Vec<Vertex> = Vec::new();
    vertices.push(Vertex { position: [MINUS_HALF_SIDE, HALF_SIDE, ZERO], color: [ONE, ONE, ONE] });
    vertices.push(
        Vertex { position: [MINUS_HALF_SIDE, MINUS_HALF_SIDE, ZERO], color: [ONE, ONE, ONE] },
    );
    vertices.push(Vertex { position: [HALF_SIDE, MINUS_HALF_SIDE, ZERO], color: [ONE, ONE, ONE] });
    vertices.push(Vertex { position: [HALF_SIDE, HALF_SIDE, ZERO], color: [ONE, ONE, ONE] });
    vertices
}

/// The indices of the quad's two triangles, both counter-clockwise.
pub fn quad_indices() -> (indices: Vec<u16>)
    ensures
        indices@ == quad_triangles(),
{
    let mut indices: Vec<u16> = Vec::new();
    indices.push(0);
    indices.push(1);
    indices.push(2);
    indices.push(0);
    indices.push(2);
    indices.push(3);
    indices
}

/// The bytes that an attribute of a layout reads for one record of a
/// buffer: they start at the record's stride times its position plus the
/// attribute's offset, and are as many as the format takes.
pub open spec fn attribute_bytes(buffer: Seq<u8>, layout: BufferLayout, record: int, i: int) -> Seq<
    u8,
> {
    let start = record * layout.array_stride + layout.attributes@[i].offset;
    buffer.subrange(start, start + layout.attributes@[i].format.byte_size())
}

/// The vertex layout matches the vertex buffer byte for byte: for every
/// vertex, slot 0 reads the image of its position and slot 1 the image of
/// its colour, whatever the machine's byte order.
pub proof fn lemma_vertex_layout_matches_bytes(
    order: ByteOrder,
    vertices: Seq<Vertex>,
    layout: BufferLayout,
    k: int,
)
    requires
        layout.describes(Vertex::fields(), VERTEX_FIRST_SLOT),
        0 <= k < vertices.len(),
    ensures
        attribute_bytes(u32_image(order, vertex_words(vertices)), layout, k, 0) == u32_image(
            order,
            vertices[k].position@,
        ),
        attribute_bytes(u32_image(order, vertex_words(vertices)), layout, k, 1) == u32_image(
            order,
            vertices[k].color@,
        ),
{
    lemma_vertex_offsets();
    let buffer = u32_image(order, vertex_words(vertices));
    let words = vertex_words(vertices);
    assert(layout.attributes@[0] == packed_attribute(Vertex::fields(), VERTEX_FIRST_SLOT, 0));
    assert(layout.attributes@[1] == packed_attribute(Vertex::fields(), VERTEX_FIRST_SLOT, 1));
    let position = attribute_bytes(buffer, layout, k, 0);
    let color = attribute_bytes(buffer, layout, k, 1);
    assert forall|j: int| 0 <= j < 12 implies position[j] == u32_image(
        order,
        vertices[k].position@,
    )[j] by {
        let at = 24 * k + j;
        assert(position[j] == buffer[at]);
        assert(at / 4 == 6 * k + j / 4);
        assert(at % 4 == j % 4);
        assert((6 * k + j / 4) / 6 == k);
        assert((6 * k + j / 4) % 6 == j / 4);
        assert(words[at / 4] == vertices[k].words()[j / 4]);
    }
    assert(position =~= u32_image(order, vertices[k].position@));
    assert forall|j: int| 0 <= j < 12 implies color[j] == u32_image(order, vertices[k].color@)[j] by {
        let at = 24 * k + 12 + j;
        assert(color[j] == buffer[at]);
        assert(at / 4 == 6 * k + 3 + j / 4);
        assert(at % 4 == j % 4);
        assert((6 * k + 3 + j / 4) / 6 == k);
        assert((6 * k + 3 + j / 4) % 6 == 3 + j / 4);
        assert(words[at / 4] == vertices[k].words()[3 + j / 4]);
    }
    assert(color =~= u32_image(order, vertices[k].color@));
}

/// The instance layout matches the instance buffer byte for byte: for
/// every instance, the slot of column `c` reads the image of that column
/// of its transform, whatever the machine's byte order.
pub proof fn lemma_instance_layout_matches_bytes(
    order: ByteOrder,
    instances: Seq<InstanceRaw>,
    layout: BufferLayout,
    k: int,
    c: int,
)
    requires
        layout.describes(InstanceRaw::fields(), INSTANCE_FIRST_SLOT),
        0 <= k < instances.len(),
        0 <= c < 4,
    ensures
        layout.attributes@[c].shader_location == INSTANCE_FIRST_SLOT + c,
        attribute_bytes(u32_image(order, instance_words(instances)), layout, k, c) == u32_image(
            order,
            instances[k].model@[c]@,
        ),
{
    lemma_instance_offsets();
    let buffer = u32_image(order, instance_words(instances));
    let words = instance_words(instances);
    assert(layout.attributes@[c] == packed_attribute(InstanceRaw::fields(), INSTANCE_FIRST_SLOT, c));
    assert(layout.attributes@[c].offset == 16 * c);
    let column = attribute_bytes(buffer, layout, k, c);
    assert forall|j: int| 0 <= j < 16 implies column[j] == u32_image(
        order,
        instances[k].model@[c]@,
    )[j] by {
        let at = 64 * k + 16 * c + j;
        assert(column[j] == buffer[at]);
        assert(at / 4 == 16 * k + 4 * c + j / 4);
        assert(at % 4 == j % 4);
        assert((16 * k + 4 * c + j / 4) / 16 == k);
        assert((16 * k + 4 * c + j / 4) % 16 == 4 * c + j / 4);
        assert(words[at / 4] == instances[k].words()[4 * c + j / 4]);
    }
    assert(column =~= u32_image(order, instances[k].model@[c]@));
}

/// Vertex attributes feed slots 0 and 1, instance attributes slots 5 to 8:
/// no slot is fed by both buffers.
pub proof fn lemma_slots_do_not_collide(vertex: BufferLayout, instance: BufferLayout, i: int, j: int)
    requires
        vertex.describes(Vertex::fields(), VERTEX_FIRST_SLOT),
        instance.describes(InstanceRaw::fields(), INSTANCE_FIRST_SLOT),
        0 <= i < 2,
        0 <= j < 4,
    ensures
        vertex.attributes@[i].shader_location == i,
        instance.attributes@[j].shader_location == 5 + j,
        vertex.attributes@[i].shader_location != instance.attributes@[j].shader_location,
{
    assert(vertex.attributes@[i] == packed_attribute(Vertex::fields(), VERTEX_FIRST_SLOT, i));
    assert(instance.attributes@[j] == packed_attribute(
        InstanceRaw::fields(),
        INSTANCE_FIRST_SLOT,
        j,
    ));
}

} // verus!
