use life_renderer::geometry::{InstanceRaw, Vertex};
use life_renderer::layout::{BufferLayout, StepMode, VertexAttribute, VertexFormat};
use life_renderer::pipeline::{
    all_distinct, check_layouts, collect_slots, fits_record, BlendMode, Face, FrontFace,
    MultisampleState, PipelineConfig, PipelineError, PolygonMode, PrimitiveState,
    PrimitiveTopology, FRAGMENT_ENTRY, VERTEX_ENTRY,
};

const FORMAT: wgpu::TextureFormat = wgpu::TextureFormat::Bgra8UnormSrgb;

#[test]
fn entry_points_are_those_of_the_shader() {
    assert_eq!(VERTEX_ENTRY, "vs_main");
    assert_eq!(FRAGMENT_ENTRY, "fs_main");
}

#[test]
fn pipeline_has_the_fixed_state() {
    let config = PipelineConfig::new(FORMAT, true);
    assert_eq!(config.vertex_entry, "vs_main");
    assert_eq!(config.fragment_entry, "fs_main");
    assert_eq!(config.buffers, vec![Vertex::desc(), InstanceRaw::desc()]);
    assert_eq!(config.target_format, FORMAT);
    assert_eq!(config.blend, Some(BlendMode::Replace));
    assert!(config.write_all_channels);
    assert_eq!(
        config.primitive,
        PrimitiveState {
            topology: PrimitiveTopology::TriangleList,
            front_face: FrontFace::Ccw,
            cull_mode: Some(Face::Back),
            polygon_mode: PolygonMode::Fill,
            unclipped_depth: false,
            conservative: false,
        }
    );
    assert!(!config.depth_stencil);
    assert_eq!(
        config.multisample,
        MultisampleState { count: 1, mask: !0, alpha_to_coverage_enabled: false }
    );
    assert_eq!(config.bind_group_layouts, 0);
    assert_eq!(config.push_constant_ranges, 0);
    assert_eq!(config.validate(), Ok(()));
}

#[test]
fn pipeline_without_instances_binds_the_vertex_buffer_only() {
    let config = PipelineConfig::new(wgpu::TextureFormat::Rgba8Unorm, false);
    assert_eq!(config.buffers, vec![Vertex::desc()]);
    assert_eq!(config.target_format, wgpu::TextureFormat::Rgba8Unorm);
    assert_eq!(config.validate(), Ok(()));
}

#[test]
fn slots_are_collected_buffer_after_buffer() {
    assert_eq!(collect_slots(&[Vertex::desc(), InstanceRaw::desc()]), vec![0, 1, 5, 6, 7, 8]);
    assert_eq!(collect_slots(&[InstanceRaw::desc(), Vertex::desc()]), vec![5, 6, 7, 8, 0, 1]);
    assert_eq!(collect_slots(&[]), Vec::<u32>::new());
}

#[test]
fn all_distinct_finds_a_value_that_occurs_twice() {
    assert!(all_distinct(&[]));
    assert!(all_distinct(&[3]));
    assert!(all_distinct(&[0, 1, 5, 6, 7, 8]));
    assert!(!all_distinct(&[0, 1, 5, 1]));
    assert!(!all_distinct(&[2, 2]));
    assert!(!all_distinct(&[9, 1, 2, 3, 9]));
}

#[test]
fn colliding_slots_are_refused() {
    let mut config = PipelineConfig::new(FORMAT, true);
    config.buffers[1] = BufferLayout::packed(
        &[VertexFormat::Float32x4, VertexFormat::Float32x4],
        1,
        StepMode::Instance,
    );
    assert_eq!(config.validate(), Err(PipelineError::SlotCollision));
    assert_eq!(
        check_layouts(&[Vertex::desc(), Vertex::desc()]),
        Err(PipelineError::SlotCollision)
    );
}

#[test]
fn attribute_past_the_record_is_refused() {
    let layout = BufferLayout {
        array_stride: 24,
        step_mode: StepMode::Vertex,
        attributes: vec![
            VertexAttribute { offset: 0, shader_location: 0, format: VertexFormat::Float32x3 },
            VertexAttribute { offset: 12, shader_location: 1, format: VertexFormat::Float32x4 },
        ],
    };
    assert!(!fits_record(&layout));
    assert_eq!(check_layouts(&[layout]), Err(PipelineError::AttributeOutsideRecord));
}

#[test]
fn record_fault_is_reported_before_a_slot_collision() {
    let short = BufferLayout {
        array_stride: 8,
        step_mode: StepMode::Vertex,
        attributes: vec![VertexAttribute {
            offset: 0,
            shader_location: 0,
            format: VertexFormat::Float32x3,
        }],
    };
    assert_eq!(
        check_layouts(&[Vertex::desc(), short]),
        Err(PipelineError::AttributeOutsideRecord)
    );
}

#[test]
fn attribute_may_end_with_the_record() {
    let layout = BufferLayout {
        array_stride: 16,
        step_mode: StepMode::Vertex,
        attributes: vec![VertexAttribute {
            offset: 4,
            shader_location: 0,
            format: VertexFormat::Float32x3,
        }],
    };
    assert!(fits_record(&layout));
    let past = BufferLayout {
        array_stride: 16,
        step_mode: StepMode::Vertex,
        attributes: vec![VertexAttribute {
            offset: u64::MAX,
            shader_location: 0,
            format: VertexFormat::Float32,
        }],
    };
    assert!(!fits_record(&past));
    assert!(fits_record(&Vertex::desc()));
    assert!(fits_record(&InstanceRaw::desc()));
}

#[test]
fn no_layouts_are_fine() {
    assert_eq!(check_layouts(&[]), Ok(()));
}
