//! How the fields of a vertex or instance record map to shader input slots.

use vstd::prelude::*;

verus! {

/// The element format of one attribute: 32-bit floating-point components.
#[derive(Clone, Copy, Debug, PartialEq, Eq, Structural)]
pub enum VertexFormat {
    Float32,
    Float32x2,
    Float32x3,
    Float32x4,
}

/// Whether a buffer advances once per vertex or once per instance.
#[derive(Clone, Copy, Debug, PartialEq, Eq, Structural)]
pub enum StepMode {
    Vertex,
    Instance,
}

/// One shader input: where it starts inside a record, which slot reads it
/// and how its bytes are interpreted.
#[derive(Clone, Copy, Debug, PartialEq, Eq, Structural)]
pub struct VertexAttribute {
    pub offset: u64,
    pub shader_location: u32,
    pub format: VertexFormat,
}

/// The layout of one bound buffer.
#[derive(Clone, Debug, PartialEq, Eq)]
pub struct BufferLayout {
    pub array_stride: u64,
    pub step_mode: StepMode,
    pub attributes: Vec<VertexAttribute>,
}

/// Bytes taken by one 32-bit component.
pub const COMPONENT_BYTES: u64 = 4;

impl VertexFormat {
    /// Number of 32-bit components.
    pub open spec fn components(self) -> nat {
        match self {
            VertexFormat::Float32 => 1,
            VertexFormat::Float32x2 => 2,
            VertexFormat::Float32x3 => 3,
            VertexFormat::Float32x4 => 4,
        }
    }

    /// Bytes taken by one element of the format.
    pub open spec fn byte_size(self) -> nat {
        4 * self.components()
    }

    /// Bytes taken by one element of the format.
    pub fn size(self) -> (bytes: u64)
        ensures
            bytes == self.byte_size(),
    {
        match self {
            VertexFormat::Float32 => COMPONENT_BYTES,
            VertexFormat::Float32x2 => 2 * COMPONENT_BYTES,
            VertexFormat::Float32x3 => 3 * COMPONENT_BYTES,
            VertexFormat::Float32x4 => 4 * COMPONENT_BYTES,
        }
    }
}

/// Total bytes of a record whose fields lie one after another.
pub open spec fn packed_size(fields: Seq<VertexFormat>) -> nat
    decreases fields.len(),
{
    if fields.len() == 0 {
        0
    } else {
        packed_size(fields.drop_last()) + fields.last().byte_size()
    }
}

/// Byte offset of field `i` in such a record: the bytes of the fields
/// before it.
pub open spec fn packed_offset(fields: Seq<VertexFormat>, i: int) -> nat {
    packed_size(fields.take(i))
}

/// The attribute that describes field `i` when slots are handed out in
/// field order from `first_slot`.
pub open spec fn packed_attribute(fields: Seq<VertexFormat>, first_slot: u32, i: int)
    -> VertexAttribute {
    VertexAttribute {
        offset: packed_offset(fields, i) as u64,
        shader_location: (first_slot + i) as u32,
        format: fields[i],
    }
}

/// A record's size is bounded by its widest possible fields.
pub proof fn lemma_packed_size_bound(fields: Seq<VertexFormat>)
    ensures
        4 * fields.len() <= packed_size(fields) <= 16 * fields.len(),
    decreases fields.len(),
{
    if fields.len() > 0 {
        lemma_packed_size_bound(fields.drop_last());
    }
}

/// Offsets are cumulative: a field starts where the one before it ends, the
/// first starts at zero and the last ends at the stride.
pub proof fn lemma_offsets_cumulative(fields: Seq<VertexFormat>, i: int)
    requires
        0 <= i < fields.len(),
    ensures
        packed_offset(fields, 0) == 0,
        packed_offset(fields, i + 1) == packed_offset(fields, i) + fields[i].byte_size(),
        packed_offset(fields, fields.len() as int) == packed_size(fields),
        packed_offset(fields, i) < packed_offset(fields, i + 1) <= packed_size(fields),
{
    assert(fields.take(i + 1).drop_last() == fields.take(i));
    assert(fields.take(fields.len() as int) == fields);
    lemma_offset_monotonic(fields, i + 1, fields.len() as int);
}

/// Later fields never start before earlier ones end.
pub proof fn lemma_offset_monotonic(fields: Seq<VertexFormat>, i: int, j: int)
    requires
        0 <= i <= j <= fields.len(),
    ensures
        packed_offset(fields, i) <= packed_offset(fields, j),
    decreases j - i,
{
    if i < j {
        lemma_offset_monotonic(fields, i, j - 1);
        assert(fields.take(j).drop_last() == fields.take(j - 1));
    }
}

impl BufferLayout {
    /// The layout describes exactly the record `fields`, packed without
    /// gaps, read through consecutive slots from `first_slot`.
    pub open spec fn describes(self, fields: Seq<VertexFormat>, first_slot: u32) -> bool {
        &&& self.array_stride == packed_size(fields)
        &&& self.attributes@.len() == fields.len()
        &&& forall|i: int|
            0 <= i < fields.len() ==> #[trigger] self.attributes@[i] == packed_attribute(
                fields,
                first_slot,
                i,
            )
    }

    /// Lays the fields of a record out one after another and assigns them
    /// consecutive shader slots starting at `first_slot`.
    pub fn packed(fields: &[VertexFormat], first_slot: u32, step_mode: StepMode) -> (layout:
        BufferLayout)
        requires
            first_slot + fields@.len() <= u32::MAX + 1,
        ensures
            layout.describes(fields@, first_slot),
            layout.step_mode == step_mode,
    {
        proof {
            lemma_packed_size_bound(fields@);
        }
        let mut attributes: Vec<VertexAttribute> = Vec::new();
        let mut offset: u64 = 0;
        let mut i: usize = 0;
        while i < fields.len()
            invariant
                0 <= i <= fields@.len(),
                first_slot + fields@.len() <= u32::MAX + 1,
                packed_size(fields@) <= u64::MAX,
                offset == packed_offset(fields@, i as int),
                attributes@.len() == i,
                forall|k: int|
                    0 <= k < i ==> #[trigger] attributes@[k] == packed_attribute(
                        fields@,
                        first_slot,
                        k,
                    ),
            decreases fields@.len() - i,
        {
            proof {
                lemma_offsets_cumulative(fields@, i as int);
            }
            let format = fields[i];
            attributes.push(
                VertexAttribute { offset, shader_location: first_slot + i as u32, format },
            );
            offset = offset + format.size();
            i = i + 1;
        }
        proof {
            assert(fields@.take(fields@.len() as int) == fields@);
        }
        BufferLayout { array_stride: offset, step_mode, attributes }
    }
}

/// In a record of three-component fields every field starts at a multiple
/// of twelve bytes: field `i` at `12 * i`. The next field, or the end of
/// the record after the last one, follows at once, so the fields neither
/// overlap nor leave a gap.
pub proof fn lemma_triplet_offsets(fields: Seq<VertexFormat>, i: int)
    requires
        forall|j: int| 0 <= j < fields.len() ==> fields[j] == VertexFormat::Float32x3,
        0 <= i < fields.len(),
    ensures
        packed_offset(fields, i) == 12 * i,
        packed_offset(fields, i + 1) == 12 * i + 12,
        packed_size(fields) == 12 * fields.len(),
{
    lemma_triplet_size(fields.take(i));
    lemma_triplet_size(fields.take(i + 1));
    lemma_triplet_size(fields);
}

/// A record of three-component fields takes twelve bytes for each field.
pub proof fn lemma_triplet_size(fields: Seq<VertexFormat>)
    requires
        forall|j: int| 0 <= j < fields.len() ==> fields[j] == VertexFormat::Float32x3,
    ensures
        packed_size(fields) == 12 * fields.len(),
    decreases fields.len(),
{
    if fields.len() > 0 {
        lemma_triplet_size(fields.drop_last());
    }
}

/// A packed layout feeds consecutive shader slots and keeps every
/// attribute inside the record.
pub proof fn lemma_packed_layout(layout: BufferLayout, fields: Seq<VertexFormat>, first_slot: u32, i: int)
    requires
        layout.describes(fields, first_slot),
        first_slot + fields.len() <= u32::MAX + 1,
        0 <= i < fields.len(),
    ensures
        layout.attributes@[i].shader_location == first_slot + i,
        layout.attributes@[i].format == fields[i],
        layout.attributes@[i].offset == packed_offset(fields, i),
        layout.attributes@[i].offset + fields[i].byte_size() <= layout.array_stride,
{
    lemma_offsets_cumulative(fields, i);
    lemma_packed_size_bound(fields);
    lemma_packed_size_bound(fields.take(i));
}

} // verus!
