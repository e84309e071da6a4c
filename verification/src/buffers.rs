//! The geometry that is uploaded once and drawn every frame.

use crate::bytes::{index_bytes, is_u16_image, is_u32_image};
use crate::geometry::{
    instance_bytes, instance_words, quad_corners, quad_indices, quad_triangles, quad_vertices,
    vertex_bytes, vertex_words, InstanceRaw, Vertex,
};
use vstd::prelude::*;

verus! {

/// Why a set of arrays cannot be drawn.
#[derive(Clone, Copy, Debug, PartialEq, Eq, Structural)]
pub enum GeometryError {
    /// An array has more elements than a draw call can count.
    TooLarge,
    /// An index points past the end of the vertex array.
    IndexOutOfRange,
}

/// The draw that a frame issues.
#[derive(Clone, Copy, Debug, PartialEq, Eq, Structural)]
pub enum DrawCall {
    /// Vertices `0..vertex_count` as they lie in the vertex buffer.
    Direct { vertex_count: u32, instance_count: u32 },
    /// Indices `0..index_count`, each looked up in the vertex buffer, for
    /// instances `0..instance_count`.
    Indexed { index_count: u32, base_vertex: i32, instance_count: u32 },
}

/// The arrays behind a `GeometryBuffers`.
pub ghost struct GeometryView {
    pub vertices: Seq<Vertex>,
    pub indices: Option<Seq<u16>>,
    pub instances: Option<Seq<InstanceRaw>>,
}

/// Vertex, index and instance arrays that fit together.
#[derive(Clone, Debug, PartialEq, Eq)]
pub struct GeometryBuffers {
    vertices: Vec<Vertex>,
    indices: Option<Vec<u16>>,
    instances: Option<Vec<InstanceRaw>>,
}

/// Every index is a valid position in an array of `vertex_count` vertices.
pub open spec fn indices_in_range(indices: Seq<u16>, vertex_count: nat) -> bool {
    forall|i: int| 0 <= i < indices.len() ==> #[trigger] indices[i] < vertex_count
}

impl GeometryView {
    /// Every array can be counted in 32 bits.
    pub open spec fn countable(self) -> bool {
        &&& self.vertices.len() <= u32::MAX
        &&& self.indices matches Some(indices) ==> indices.len() <= u32::MAX
        &&& self.instances matches Some(instances) ==> instances.len() <= u32::MAX
    }

    /// What is wrong with the arrays, if anything. Size is judged first.
    pub open spec fn fault(self) -> Option<GeometryError> {
        if !self.countable() {
            Some(GeometryError::TooLarge)
        } else if self.indices is Some && !indices_in_range(
            self.indices->Some_0,
            self.vertices.len(),
        ) {
            Some(GeometryError::IndexOutOfRange)
        } else {
            None
        }
    }

    /// Number of instances drawn: those of the instance array, or one where
    /// there is none.
    pub open spec fn instance_count(self) -> nat {
        match self.instances {
            Some(instances) => instances.len(),
            None => 1,
        }
    }

    /// The draw for these arrays: indexed where there is an index array,
    /// else direct with a single instance.
    pub open spec fn draw_call(self) -> DrawCall {
        match self.indices {
            Some(indices) => DrawCall::Indexed {
                index_count: indices.len() as u32,
                base_vertex: 0,
                instance_count: self.instance_count() as u32,
            },
            None => DrawCall::Direct { vertex_count: self.vertices.len() as u32, instance_count: 1 },
        }
    }
}

/// Whether every index is below `vertex_count`.
pub fn check_indices(indices: &[u16], vertex_count: usize) -> (valid: bool)
    ensures
        valid == indices_in_range(indices@, vertex_count as nat),
{
    let mut i: usize = 0;
    while i < indices.len()
        invariant
            0 <= i <= indices@.len(),
            indices_in_range(indices@.take(i as int), vertex_count as nat),
        decreases indices@.len() - i,
    {
        if indices[i] as usize >= vertex_count {
            assert(!(indices@[i as int] < vertex_count));
            return false;
        }
        proof {
            let next = indices@.take(i + 1);
            assert forall|k: int| 0 <= k < next.len() implies #[trigger] next[k] < vertex_count by {
                if k < i {
                    assert(indices@.take(i as int)[k] == next[k]);
                }
            }
        }
        i = i + 1;
    }
    proof {
        assert(indices@.take(indices@.len() as int) == indices@);
    }
    true
}

impl View for GeometryBuffers {
    type V = GeometryView;

    closed spec fn view(&self) -> GeometryView {
        GeometryView {
            vertices: self.vertices@,
            indices: match self.indices {
                Some(indices) => Some(indices@),
                None => None,
            },
            instances: match self.instances {
                Some(instances) => Some(instances@),
                None => None,
            },
        }
    }
}

impl GeometryBuffers {
    /// The arrays fit together: they can be counted and every index is a
    /// valid position in the vertex array.
    pub open spec fn wf(self) -> bool {
        self@.fault() is None
    }

    /// Takes the arrays if they fit together.
    pub fn new(
        vertices: Vec<Vertex>,
        indices: Option<Vec<u16>>,
        instances: Option<Vec<InstanceRaw>>,
    ) -> (result: Result<GeometryBuffers, GeometryError>)
        ensures
            match result {
                Ok(buffers) => {
                    &&& buffers.wf()
                    &&& buffers@.vertices == vertices@
                    &&& match indices {
                        Some(given) => buffers@.indices == Some(given@),
                        None => buffers@.indices is None,
                    }
                    &&& match instances {
                        Some(given) => buffers@.instances == Some(given@),
                        None => buffers@.instances is None,
                    }
                },
                Err(error) => (GeometryView {
                    vertices: vertices@,
                    indices: match indices {
                        Some(given) => Some(given@),
                        None => None,
                    },
                    instances: match instances {
                        Some(given) => Some(given@),
                        None => None,
                    },
                }).fault() == Some(error),
            },
    {
        let limit: usize = 0xffff_ffff;
        if vertices.len() > limit {
            return Err(GeometryError::TooLarge);
        }
        if let Some(given) = &indices {
            if given.len() > limit {
                return Err(GeometryError::TooLarge);
            }
        }
        if let Some(given) = &instances {
            if given.len() > limit {
                return Err(GeometryError::TooLarge);
            }
        }
        if let Some(given) = &indices {
            if !check_indices(given.as_slice(), vertices.len()) {
                return Err(GeometryError::IndexOutOfRange);
            }
        }
        Ok(GeometryBuffers { vertices, indices, instances })
    }

    /// The quad, drawn once for each of the given instances, or once
    /// where none are given.
    pub fn quad(instances: Option<Vec<InstanceRaw>>) -> (result: Result<
        GeometryBuffers,
        GeometryError,
    >)
        ensures
            match result {
                Ok(buffers) => {
                    &&& buffers.wf()
                    &&& buffers@.vertices == quad_corners()
                    &&& buffers@.indices == Some(quad_triangles())
                    &&& match instances {
                        Some(given) => buffers@.instances == Some(given@),
                        None => buffers@.instances is None,
                    }
                },
                Err(error) => {
                    &&& error == GeometryError::TooLarge
                    &&& instances matches Some(given)
                    &&& given@.len() > u32::MAX
                },
            },
    {
        GeometryBuffers::new(quad_vertices(), Some(quad_indices()), instances)
    }

    /// Number of vertices.
    pub fn vertex_count(&self) -> (count: u32)
        requires
            self.wf(),
        ensures
            count == self@.vertices.len(),
    {
        self.vertices.len() as u32
    }

    /// Number of indices, where there is an index array.
    pub fn num_indices(&self) -> (count: Option<u32>)
        requires
            self.wf(),
        ensures
            match self@.indices {
                Some(indices) => count == Some(indices.len() as u32),
                None => count is None,
            },
    {
        match &self.indices {
            Some(indices) => Some(indices.len() as u32),
            None => None,
        }
    }

    /// Number of instances that a draw covers.
    pub fn instance_count(&self) -> (count: u32)
        requires
            self.wf(),
        ensures
            count == self@.instance_count(),
    {
        match &self.instances {
            Some(instances) => instances.len() as u32,
            None => 1,
        }
    }

    /// Whether there is an index array.
    pub fn has_indices(&self) -> (present: bool)
        ensures
            present == (self@.indices is Some),
    {
        self.indices.is_some()
    }

    /// Whether there is an instance array.
    pub fn has_instances(&self) -> (present: bool)
        ensures
            present == (self@.instances is Some),
    {
        self.instances.is_some()
    }

    /// The draw call for these buffers.
    pub fn draw_call(&self) -> (call: DrawCall)
        requires
            self.wf(),
        ensures
            call == self@.draw_call(),
    {
        match &self.indices {
            Some(indices) => DrawCall::Indexed {
                index_count: indices.len() as u32,
                base_vertex: 0,
                instance_count: self.instance_count(),
            },
            None => DrawCall::Direct { vertex_count: self.vertices.len() as u32, instance_count: 1 },
        }
    }

    /// The index array, where there is one.
    pub fn indices(&self) -> (indices: Option<&Vec<u16>>)
        ensures
            match self@.indices {
                Some(held) => indices is Some && indices->Some_0@ == held,
                None => indices is None,
            },
    {
        self.indices.as_ref()
    }

    /// The contents of the vertex buffer.
    pub fn vertex_data(&self) -> (bytes: Vec<u8>)
        ensures
            is_u32_image(vertex_words(self@.vertices), bytes@),
            bytes@.len() == 24 * self@.vertices.len(),
    {
        vertex_bytes(self.vertices.as_slice())
    }

    /// The contents of the index buffer, where there is one.
    pub fn index_data(&self) -> (bytes: Option<Vec<u8>>)
        ensures
            match self@.indices {
                Some(indices) => bytes is Some && is_u16_image(indices, bytes->Some_0@)
                    && bytes->Some_0@.len() == 2 * indices.len(),
                None => bytes is None,
            },
    {
        match &self.indices {
            Some(indices) => Some(index_bytes(indices.as_slice())),
            None => None,
        }
    }

    /// The contents of the instance buffer, where there is one.
    pub fn instance_data(&self) -> (bytes: Option<Vec<u8>>)
        ensures
            match self@.instances {
                Some(instances) => bytes is Some && is_u32_image(
                    instance_words(instances),
                    bytes->Some_0@,
                ) && bytes->Some_0@.len() == 64 * instances.len(),
                None => bytes is None,
            },
    {
        match &self.instances {
            Some(instances) => Some(instance_bytes(instances.as_slice())),
            None => None,
        }
    }
}

/// Every index of well-formed buffers names a vertex that is there, so an
/// indexed draw never reads past the end of the vertex buffer.
pub proof fn lemma_indices_name_vertices(buffers: GeometryBuffers, i: int)
    requires
        buffers.wf(),
        buffers@.indices is Some,
        0 <= i < buffers@.indices->Some_0.len(),
    ensures
        buffers@.indices->Some_0[i] < buffers@.vertices.len(),
{
}

} // verus!
