//! The fixed render pipeline: shader entry points, bound buffer layouts and
//! fixed-function state, as one value that can be audited and validated.

use crate::geometry::{InstanceRaw, Vertex, INSTANCE_FIRST_SLOT, VERTEX_FIRST_SLOT};
use crate::layout::{BufferLayout, StepMode, VertexAttribute};
use vstd::prelude::*;

verus! {

/// How vertices are assembled into primitives.
#[derive(Clone, Copy, Debug, PartialEq, Eq, Structural)]
pub enum PrimitiveTopology {
    PointList,
    LineList,
    LineStrip,
    TriangleList,
    TriangleStrip,
}

/// The winding order of a front-facing triangle.
#[derive(Clone, Copy, Debug, PartialEq, Eq, Structural)]
pub enum FrontFace {
    Ccw,
    Cw,
}

/// A side of a triangle.
#[derive(Clone, Copy, Debug, PartialEq, Eq, Structural)]
pub enum Face {
    Front,
    Back,
}

/// How the inside of a polygon is rasterised.
#[derive(Clone, Copy, Debug, PartialEq, Eq, Structural)]
pub enum PolygonMode {
    Fill,
    Line,
    Point,
}

/// How a fragment's colour is combined with the target's.
#[derive(Clone, Copy, Debug, PartialEq, Eq, Structural)]
pub enum BlendMode {
    /// The fragment's colour replaces the target's: no blending.
    Replace,
    AlphaBlending,
    PremultipliedAlphaBlending,
}

/// Primitive assembly and rasterisation state.
#[derive(Clone, Copy, Debug, PartialEq, Eq, Structural)]
pub struct PrimitiveState {
    pub topology: PrimitiveTopology,
    pub front_face: FrontFace,
    pub cull_mode: Option<Face>,
    pub polygon_mode: PolygonMode,
    pub unclipped_depth: bool,
    pub conservative: bool,
}

/// Multisampling state.
#[derive(Clone, Copy, Debug, PartialEq, Eq, Structural)]
pub struct MultisampleState {
    pub count: u32,
    pub mask: u64,
    pub alpha_to_coverage_enabled: bool,
}

/// Everything a render pipeline is built from, but the shader's source.
#[derive(Debug)]
pub struct PipelineConfig {
    pub vertex_entry: &'static str,
    pub fragment_entry: &'static str,
    pub buffers: Vec<BufferLayout>,
    pub target_format: wgpu::TextureFormat,
    pub blend: Option<BlendMode>,
    pub write_all_channels: bool,
    pub primitive: PrimitiveState,
    pub depth_stencil: bool,
    pub multisample: MultisampleState,
    pub bind_group_layouts: u32,
    pub push_constant_ranges: u32,
}

/// Why a pipeline cannot be built from a configuration.
#[derive(Clone, Copy, Debug, PartialEq, Eq, Structural)]
pub enum PipelineError {
    /// An attribute reaches past the end of its record.
    AttributeOutsideRecord,
    /// Two attributes feed the same shader slot.
    SlotCollision,
}

/// The shader slots of one layout, in attribute order.
pub open spec fn layout_slots(layout: BufferLayout) -> Seq<u32> {
    layout.attributes@.map_values(|attribute: VertexAttribute| attribute.shader_location)
}

/// The shader slots of all layouts, buffer after buffer.
pub open spec fn all_slots(buffers: Seq<BufferLayout>) -> Seq<u32>
    decreases buffers.len(),
{
    if buffers.len() == 0 {
        Seq::empty()
    } else {
        all_slots(buffers.drop_last()) + layout_slots(buffers.last())
    }
}

/// Every attribute of the layout lies inside one record.
pub open spec fn in_record(layout: BufferLayout) -> bool {
    forall|i: int|
        0 <= i < layout.attributes@.len() ==> (#[trigger] layout.attributes@[i]).offset
            + layout.attributes@[i].format.byte_size() <= layout.array_stride
}

/// Every attribute of every layout lies inside its record.
pub open spec fn all_in_record(buffers: Seq<BufferLayout>) -> bool {
    forall|b: int| 0 <= b < buffers.len() ==> in_record(#[trigger] buffers[b])
}

/// What is wrong with a set of bound layouts, if anything. Records are
/// judged before slots.
pub open spec fn layouts_fault(buffers: Seq<BufferLayout>) -> Option<PipelineError> {
    if !all_in_record(buffers) {
        Some(PipelineError::AttributeOutsideRecord)
    } else if !all_slots(buffers).no_duplicates() {
        Some(PipelineError::SlotCollision)
    } else {
        None
    }
}

/// Whether every attribute of the layout lies inside one record.
pub fn fits_record(layout: &BufferLayout) -> (fits: bool)
    ensures
        fits == in_record(*layout),
{
    let mut i: usize = 0;
    while i < layout.attributes.len()
        invariant
            0 <= i <= layout.attributes@.len(),
            forall|k: int|
                0 <= k < i ==> (#[trigger] layout.attributes@[k]).offset
                    + layout.attributes@[k].format.byte_size() <= layout.array_stride,
        decreases layout.attributes@.len() - i,
    {
        let attribute = layout.attributes[i];
        let size = attribute.format.size();
        if attribute.offset > layout.array_stride || layout.array_stride - attribute.offset < size {
            assert(!(layout.attributes@[i as int].offset + layout.attributes@[i as int].format.byte_size()
                <= layout.array_stride));
            return false;
        }
        i = i + 1;
    }
    true
}

/// Collects the shader slots of all layouts, buffer after buffer.
pub fn collect_slots(buffers: &[BufferLayout]) -> (slots: Vec<u32>)
    ensures
        slots@ == all_slots(buffers@),
{
    let mut slots: Vec<u32> = Vec::new();
    let mut b: usize = 0;
    while b < buffers.len()
        invariant
            0 <= b <= buffers@.len(),
            slots@ == all_slots(buffers@.take(b as int)),
        decreases buffers@.len() - b,
    {
        let layout = &buffers[b];
        let ghost before = slots@;
        let mut a: usize = 0;
        while a < layout.attributes.len()
            invariant
                0 <= a <= layout.attributes@.len(),
                slots@ == before + layout_slots(*layout).take(a as int),
            decreases layout.attributes@.len() - a,
        {
            slots.push(layout.attributes[a].shader_location);
            proof {
                let all = layout_slots(*layout);
                assert(all.take(a + 1) == all.take(a as int).push(all[a as int]));
            }
            a = a + 1;
        }
        proof {
            let all = layout_slots(*layout);
            assert(all.take(all.len() as int) == all);
            let next = buffers@.take(b + 1);
            assert(next.drop_last() == buffers@.take(b as int));
            assert(next.last() == *layout);
        }
        b = b + 1;
    }
    proof {
        assert(buffers@.take(buffers@.len() as int) == buffers@);
    }
    slots
}

/// Whether no value occurs twice.
pub fn all_distinct(values: &[u32]) -> (distinct: bool)
    ensures
        distinct == values@.no_duplicates(),
{
    let mut i: usize = 0;
    while i < values.len()
        invariant
            0 <= i <= values@.len(),
            forall|p: int, q: int| 0 <= p < q < values@.len() && p < i ==> values@[p] != values@[q],
        decreases values@.len() - i,
    {
        let mut j: usize = i + 1;
        while j < values.len()
            invariant
                0 <= i < j <= values@.len(),
                forall|q: int| i < q < j ==> values@[i as int] != values@[q],
            decreases values@.len() - j,
        {
            if values[i] == values[j] {
                return false;
            }
            j = j + 1;
        }
        i = i + 1;
    }
    true
}

/// Judges a set of bound layouts: every attribute inside its record, no
/// shader slot fed twice.
pub fn check_layouts(buffers: &[BufferLayout]) -> (result: Result<(), PipelineError>)
    ensures
        match result {
            Ok(()) => layouts_fault(buffers@) is None,
            Err(error) => layouts_fault(buffers@) == Some(error),
        },
{
    let mut b: usize = 0;
    while b < buffers.len()
        invariant
            0 <= b <= buffers@.len(),
            forall|k: int| 0 <= k < b ==> in_record(#[trigger] buffers@[k]),
        decreases buffers@.len() - b,
    {
        if !fits_record(&buffers[b]) {
            return Err(PipelineError::AttributeOutsideRecord);
        }
        b = b + 1;
    }
    let slots = collect_slots(buffers);
    if all_distinct(slots.as_slice()) {
        Ok(())
    } else {
        Err(PipelineError::SlotCollision)
    }
}

/// Name of the shader's vertex stage.
pub const VERTEX_ENTRY: &'static str = "vs_main";

/// Name of the shader's fragment stage.
pub const FRAGMENT_ENTRY: &'static str = "fs_main";

impl PrimitiveState {
    /// Filled triangle lists, counter-clockwise front faces, back faces
    /// culled, no optional rasterisation feature.
    pub open spec fn standard() -> PrimitiveState {
        PrimitiveState {
            topology: PrimitiveTopology::TriangleList,
            front_face: FrontFace::Ccw,
            cull_mode: Some(Face::Back),
            polygon_mode: PolygonMode::Fill,
            unclipped_depth: false,
            conservative: false,
        }
    }
}

impl MultisampleState {
    /// One sample per pixel, every sample written.
    pub open spec fn standard() -> MultisampleState {
        MultisampleState { count: 1, mask: u64::MAX, alpha_to_coverage_enabled: false }
    }
}

impl PipelineConfig {
    /// The configuration is the fixed one of this renderer, drawing into
    /// targets of the given format, with the instance buffer bound where
    /// the geometry is instanced.
    pub open spec fn is_standard(self, target_format: wgpu::TextureFormat, instanced: bool) -> bool {
        &&& self.vertex_entry@ == VERTEX_ENTRY@
        &&& self.fragment_entry@ == FRAGMENT_ENTRY@
        &&& self.buffers@.len() == if instanced { 2int } else { 1int }
        &&& self.buffers@[0].describes(Vertex::fields(), VERTEX_FIRST_SLOT)
        &&& self.buffers@[0].step_mode == StepMode::Vertex
        &&& instanced ==> self.buffers@[1].describes(InstanceRaw::fields(), INSTANCE_FIRST_SLOT)
        &&& instanced ==> self.buffers@[1].step_mode == StepMode::Instance
        &&& self.target_format == target_format
        &&& self.blend == Some(BlendMode::Replace)
        &&& self.write_all_channels
        &&& self.primitive == PrimitiveState::standard()
        &&& !self.depth_stencil
        &&& self.multisample == MultisampleState::standard()
        &&& self.bind_group_layouts == 0
        &&& self.push_constant_ranges == 0
    }

    /// What is wrong with the configuration, if anything.
    pub open spec fn fault(self) -> Option<PipelineError> {
        layouts_fault(self.buffers@)
    }

    /// The renderer's pipeline: the vertex buffer and, where the geometry
    /// is instanced, the instance buffer; triangle lists with back faces
    /// culled, one sample, no depth or stencil test, no blending, no bind
    /// groups and no push constants.
    pub fn new(target_format: wgpu::TextureFormat, instanced: bool) -> (config: PipelineConfig)
        ensures
            config.is_standard(target_format, instanced),
            config.fault() is None,
    {
        let vertex_layout = Vertex::desc();
        let mut buffers: Vec<BufferLayout> = Vec::new();
        buffers.push(vertex_layout);
        proof {
            reveal_with_fuel(all_slots, 2);
            assert(buffers@.drop_last().len() == 0);
            assert(all_slots(buffers@) == seq![0u32, 1u32]);
            assert(in_record(buffers@[0]));
        }
        if instanced {
            let instance_layout = InstanceRaw::desc();
            let ghost single = buffers@;
            buffers.push(instance_layout);
            proof {
                assert(buffers@.drop_last() == single);
                assert(all_slots(buffers@) == seq![0u32, 1u32, 5u32, 6u32, 7u32, 8u32]);
                assert(in_record(buffers@[1]));
            }
        }
        PipelineConfig {
            vertex_entry: VERTEX_ENTRY,
            fragment_entry: FRAGMENT_ENTRY,
            buffers,
            target_format,
            blend: Some(BlendMode::Replace),
            write_all_channels: true,
            primitive: PrimitiveState {
                topology: PrimitiveTopology::TriangleList,
                front_face: FrontFace::Ccw,
                cull_mode: Some(Face::Back),
                polygon_mode: PolygonMode::Fill,
                unclipped_depth: false,
                conservative: false,
            },
            depth_stencil: false,
            multisample: MultisampleState {
                count: 1,
                mask: 0xffff_ffff_ffff_ffff,
                alpha_to_coverage_enabled: false,
            },
            bind_group_layouts: 0,
            push_constant_ranges: 0,
        }
    }

    /// Judges the bound layouts: every attribute inside its record, no
    /// shader slot fed twice.
    pub fn validate(&self) -> (result: Result<(), PipelineError>)
        ensures
            match result {
                Ok(()) => self.fault() is None,
                Err(error) => self.fault() == Some(error),
            },
    {
        check_layouts(self.buffers.as_slice())
    }
}

} // verus!
