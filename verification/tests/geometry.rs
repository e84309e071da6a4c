use life_renderer::buffers::{check_indices, DrawCall, GeometryBuffers, GeometryError};
use life_renderer::bytes::{index_bytes, word_bytes};
use life_renderer::geometry::{
    flatten_instances, flatten_vertices, instance_bytes, quad_indices, quad_vertices, vertex_bytes,
    InstanceRaw, Vertex, HALF_SIDE, MINUS_HALF_SIDE, ONE, ZERO,
};

fn vertex(position: [f32; 3], color: [f32; 3]) -> Vertex {
    Vertex { position: position.map(f32::to_bits), color: color.map(f32::to_bits) }
}

fn instance(model: [[f32; 4]; 4]) -> InstanceRaw {
    InstanceRaw { model: model.map(|column| column.map(f32::to_bits)) }
}

fn identity() -> [[f32; 4]; 4] {
    [[1.0, 0.0, 0.0, 0.0], [0.0, 1.0, 0.0, 0.0], [0.0, 0.0, 1.0, 0.0], [0.0, 0.0, 0.0, 1.0]]
}

#[test]
fn bit_patterns_are_those_of_the_coordinates() {
    assert_eq!(f32::from_bits(ZERO), 0.0);
    assert_eq!(f32::from_bits(ONE), 1.0);
    assert_eq!(f32::from_bits(HALF_SIDE), 0.05);
    assert_eq!(f32::from_bits(MINUS_HALF_SIDE), -0.05);
}

#[test]
fn quad_is_a_white_square_around_the_origin() {
    assert_eq!(
        quad_vertices(),
        vec![
            vertex([-0.05, 0.05, 0.00], [1.0, 1.0, 1.0]),
            vertex([-0.05, -0.05, 0.00], [1.0, 1.0, 1.0]),
            vertex([0.05, -0.05, 0.00], [1.0, 1.0, 1.0]),
            vertex([0.05, 0.05, 0.00], [1.0, 1.0, 1.0]),
        ]
    );
    assert_eq!(quad_indices(), vec![0, 1, 2, 0, 2, 3]);
}

#[test]
fn quad_indices_name_quad_vertices() {
    let count = quad_vertices().len();
    for index in quad_indices() {
        assert!((index as usize) < count);
    }
    assert!(check_indices(&quad_indices(), count));
}

#[test]
fn check_indices_finds_the_first_stray() {
    assert!(check_indices(&[], 0));
    assert!(check_indices(&[0, 3, 2], 4));
    assert!(!check_indices(&[0, 4, 2], 4));
    assert!(!check_indices(&[0], 0));
    assert!(check_indices(&[65535], 65536));
    assert!(!check_indices(&[65535], 65535));
}

#[test]
fn vertices_flatten_position_first() {
    let words = flatten_vertices(&[
        Vertex { position: [1, 2, 3], color: [4, 5, 6] },
        Vertex { position: [7, 8, 9], color: [10, 11, 12] },
    ]);
    assert_eq!(words, vec![1, 2, 3, 4, 5, 6, 7, 8, 9, 10, 11, 12]);
    assert!(flatten_vertices(&[]).is_empty());
}

#[test]
fn instances_flatten_column_by_column() {
    let words = flatten_instances(&[
        InstanceRaw { model: [[0, 1, 2, 3], [4, 5, 6, 7], [8, 9, 10, 11], [12, 13, 14, 15]] },
        InstanceRaw {
            model: [[16, 17, 18, 19], [20, 21, 22, 23], [24, 25, 26, 27], [28, 29, 30, 31]],
        },
    ]);
    assert_eq!(words, (0..32).collect::<Vec<u32>>());
}

#[test]
fn index_bytes_are_the_memory_of_the_array() {
    let indices: [u16; 4] = [0, 1, 0x1234, 0xffff];
    let mut expected = Vec::new();
    for index in indices {
        expected.extend_from_slice(&index.to_ne_bytes());
    }
    assert_eq!(index_bytes(&indices), expected);
    assert_eq!(index_bytes(&[]), Vec::<u8>::new());
}

#[test]
fn index_bytes_are_little_or_big_endian() {
    let indices: [u16; 3] = [0x0102, 0x0304, 0xa0b0];
    let bytes = index_bytes(&indices);
    let little: Vec<u8> = vec![0x02, 0x01, 0x04, 0x03, 0xb0, 0xa0];
    let big: Vec<u8> = vec![0x01, 0x02, 0x03, 0x04, 0xa0, 0xb0];
    assert!(bytes == little || bytes == big);
}

#[test]
fn word_bytes_are_the_memory_of_the_array() {
    let words: [u32; 3] = [0, 0x3d4c_cccd, 0xffff_fffe];
    let mut expected = Vec::new();
    for word in words {
        expected.extend_from_slice(&word.to_ne_bytes());
    }
    assert_eq!(word_bytes(&words), expected);
}

#[test]
fn word_bytes_are_little_or_big_endian() {
    let bytes = word_bytes(&[0x0102_0304, 0xa0b0_c0d0]);
    let little: Vec<u8> = vec![0x04, 0x03, 0x02, 0x01, 0xd0, 0xc0, 0xb0, 0xa0];
    let big: Vec<u8> = vec![0x01, 0x02, 0x03, 0x04, 0xa0, 0xb0, 0xc0, 0xd0];
    assert!(bytes == little || bytes == big);
}

#[test]
fn vertex_bytes_are_those_of_the_floats() {
    let floats: [f32; 24] = [
        -0.05, 0.05, 0.00, 1.0, 1.0, 1.0, //
        -0.05, -0.05, 0.00, 1.0, 1.0, 1.0, //
        0.05, -0.05, 0.00, 1.0, 1.0, 1.0, //
        0.05, 0.05, 0.00, 1.0, 1.0, 1.0,
    ];
    let expected: &[u8] = bytemuck::cast_slice(&floats);
    let bytes = vertex_bytes(&quad_vertices());
    assert_eq!(bytes.len(), 4 * 24);
    assert_eq!(bytes, expected);
}

#[test]
fn instance_bytes_are_those_of_the_floats() {
    let mut moved = identity();
    moved[3] = [-0.95, 0.35, 0.0, 1.0];
    let floats: Vec<f32> =
        identity().iter().chain(moved.iter()).flat_map(|column| column.iter().copied()).collect();
    let expected: &[u8] = bytemuck::cast_slice(&floats);
    let bytes = instance_bytes(&[instance(identity()), instance(moved)]);
    assert_eq!(bytes.len(), 2 * 64);
    assert_eq!(bytes, expected);
}

#[test]
fn quad_buffers_draw_indexed() {
    let buffers = GeometryBuffers::quad(None).unwrap();
    assert_eq!(buffers.vertex_count(), 4);
    assert_eq!(buffers.num_indices(), Some(6));
    assert_eq!(buffers.instance_count(), 1);
    assert!(buffers.has_indices());
    assert!(!buffers.has_instances());
    assert_eq!(
        buffers.draw_call(),
        DrawCall::Indexed { index_count: 6, base_vertex: 0, instance_count: 1 }
    );
    assert_eq!(buffers.indices(), Some(&vec![0u16, 1, 2, 0, 2, 3]));
    assert_eq!(buffers.vertex_data(), vertex_bytes(&quad_vertices()));
    assert_eq!(buffers.index_data(), Some(index_bytes(&quad_indices())));
    assert_eq!(buffers.instance_data(), None);
}

#[test]
fn instanced_quad_counts_its_instances() {
    let instances = vec![instance(identity()); 400];
    let buffers = GeometryBuffers::quad(Some(instances.clone())).unwrap();
    assert_eq!(buffers.instance_count(), 400);
    assert!(buffers.has_instances());
    assert_eq!(
        buffers.draw_call(),
        DrawCall::Indexed { index_count: 6, base_vertex: 0, instance_count: 400 }
    );
    let data = buffers.instance_data().unwrap();
    assert_eq!(data.len(), 400 * 64);
    assert_eq!(data, instance_bytes(&instances));
}

#[test]
fn no_instances_at_all_draw_nothing() {
    let buffers = GeometryBuffers::quad(Some(Vec::new())).unwrap();
    assert_eq!(buffers.instance_count(), 0);
    assert_eq!(buffers.instance_data(), Some(Vec::new()));
}

#[test]
fn buffers_without_indices_draw_directly() {
    let triangle = vec![
        vertex([0.0, 0.5, 0.0], [1.0, 0.0, 0.0]),
        vertex([-0.5, -0.5, 0.0], [0.0, 1.0, 0.0]),
        vertex([0.5, -0.5, 0.0], [0.0, 0.0, 1.0]),
    ];
    let buffers = GeometryBuffers::new(triangle, None, None).unwrap();
    assert_eq!(buffers.num_indices(), None);
    assert_eq!(buffers.indices(), None);
    assert_eq!(buffers.index_data(), None);
    assert_eq!(buffers.draw_call(), DrawCall::Direct { vertex_count: 3, instance_count: 1 });
}

#[test]
fn stray_index_is_refused() {
    let result = GeometryBuffers::new(quad_vertices(), Some(vec![0, 1, 4]), None);
    assert_eq!(result, Err(GeometryError::IndexOutOfRange));
    let result = GeometryBuffers::new(Vec::new(), Some(vec![0]), None);
    assert_eq!(result, Err(GeometryError::IndexOutOfRange));
}

#[test]
fn largest_valid_index_is_accepted() {
    let result = GeometryBuffers::new(quad_vertices(), Some(vec![3, 3, 3]), None);
    assert!(result.is_ok());
    let result = GeometryBuffers::new(Vec::new(), Some(Vec::new()), None);
    assert!(result.is_ok());
}
