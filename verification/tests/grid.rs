use cgmath::{InnerSpace, Rotation3, Zero};
use life_renderer::grid::{instance_grid, GridCell, RotationAxis, NUM_INSTANCES_PER_ROW};

#[test]
fn grid_of_twenty_has_four_hundred_instances() {
    assert_eq!(NUM_INSTANCES_PER_ROW, 20);
    assert_eq!(instance_grid(NUM_INSTANCES_PER_ROW).len(), 400);
}

#[test]
fn grid_has_one_instance_per_cell() {
    for n in 0..12u32 {
        assert_eq!(instance_grid(n).len(), (n * n) as usize);
    }
}

#[test]
fn grid_runs_row_after_row() {
    let cells = instance_grid(20);
    for row in 0..20u32 {
        for column in 0..20u32 {
            let cell = cells[(row * 20 + column) as usize];
            assert_eq!((cell.column, cell.row), (column, row));
            assert_eq!(cell, GridCell::at(20, column, row));
        }
    }
}

#[test]
fn grid_is_centred_on_the_origin() {
    let cells = instance_grid(20);
    assert_eq!((cells[0].offset_x, cells[0].offset_y), (-19, -19));
    assert_eq!((cells[19].offset_x, cells[19].offset_y), (19, -19));
    assert_eq!((cells[399].offset_x, cells[399].offset_y), (19, 19));
    assert_eq!((cells[9 * 20 + 9].offset_x, cells[9 * 20 + 9].offset_y), (-1, -1));
    assert_eq!((cells[10 * 20 + 10].offset_x, cells[10 * 20 + 10].offset_y), (1, 1));
    let sum_x: i64 = cells.iter().map(|cell| cell.offset_x).sum();
    let sum_y: i64 = cells.iter().map(|cell| cell.offset_y).sum();
    assert_eq!((sum_x, sum_y), (0, 0));
}

#[test]
fn even_grid_has_no_cell_on_the_centre() {
    for cell in instance_grid(20) {
        assert_eq!(cell.axis, RotationAxis::Radial);
        assert!(cell.offset_x != 0 || cell.offset_y != 0);
    }
}

#[test]
fn odd_grid_turns_its_middle_cell_about_z() {
    let cells = instance_grid(3);
    for (i, cell) in cells.iter().enumerate() {
        if i == 4 {
            assert_eq!(cell.axis, RotationAxis::UnitZ);
            assert_eq!((cell.offset_x, cell.offset_y), (0, 0));
        } else {
            assert_eq!(cell.axis, RotationAxis::Radial);
        }
    }
    assert_eq!(
        instance_grid(1),
        vec![GridCell { column: 0, row: 0, offset_x: 0, offset_y: 0, axis: RotationAxis::UnitZ }]
    );
}

#[test]
fn cell_on_an_axis_only_is_not_centred() {
    let cell = GridCell::at(3, 1, 0);
    assert_eq!((cell.offset_x, cell.offset_y), (0, -2));
    assert_eq!(cell.axis, RotationAxis::Radial);
}

#[test]
fn offsets_are_the_positions_in_twentieths() {
    for n in [1u32, 2, 3, 20, 21] {
        let displacement = cgmath::Vector3::new(n as f32 * 0.5, n as f32 * 0.5, 0.00);
        for cell in instance_grid(n) {
            let position = cgmath::Vector3 {
                x: cell.column as f32 + 0.5,
                y: cell.row as f32 + 0.5,
                z: 0.00,
            } - displacement;
            let position = position * 0.1;
            assert_eq!(position.x, cell.offset_x as f32 * 0.05);
            assert_eq!(position.y, cell.offset_y as f32 * 0.05);
            assert_eq!(position.is_zero(), cell.axis == RotationAxis::UnitZ);
        }
    }
}

#[test]
fn every_rotation_is_the_identity() {
    let identity = cgmath::Quaternion::new(1.0f32, 0.0, 0.0, 0.0);
    for cell in instance_grid(3) {
        let position =
            cgmath::Vector3::new(cell.offset_x as f32 * 0.05, cell.offset_y as f32 * 0.05, 0.0);
        let axis = match cell.axis {
            RotationAxis::UnitZ => cgmath::Vector3::unit_z(),
            RotationAxis::Radial => position.normalize(),
        };
        assert!(axis.x.is_finite() && axis.y.is_finite() && axis.z.is_finite());
        assert_eq!(cgmath::Quaternion::from_axis_angle(axis, cgmath::Deg(0.0)), identity);
    }
}
