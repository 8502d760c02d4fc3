use voxel_render::lattice::{Lattice, NUM_INDICES, NUM_VERTICES, XZ, Y};
use voxel_render::vertex::{Vertex, AXIS_X, AXIS_Y, AXIS_Z};

fn quad(axis: u32, corners: [[i32; 3]; 4]) -> Vec<Vertex> {
    corners.iter().map(|&pos| Vertex { pos, axis }).collect()
}

#[test]
fn small_single_sided_grid_has_24_vertices_and_36_indices() {
    let lattice = Lattice::generate(2, 2, false);
    assert_eq!(lattice.vertices.len(), 8 * 2 + 4 * 2);
    assert_eq!(lattice.indices.len(), 12 * 2 + 6 * 2);
}

#[test]
fn small_grid_has_exactly_these_vertices() {
    let lattice = Lattice::generate(2, 2, false);
    let mut expected = Vec::new();
    expected.extend(quad(AXIS_X, [[-2, -2, -2], [-2, -2, 2], [-2, 2, -2], [-2, 2, 2]]));
    expected.extend(quad(AXIS_X, [[0, -2, -2], [0, -2, 2], [0, 2, -2], [0, 2, 2]]));
    expected.extend(quad(AXIS_Z, [[-2, -2, -2], [-2, 2, -2], [2, -2, -2], [2, 2, -2]]));
    expected.extend(quad(AXIS_Z, [[-2, -2, 0], [-2, 2, 0], [2, -2, 0], [2, 2, 0]]));
    expected.extend(quad(AXIS_Y, [[-2, -2, -2], [-2, -2, 2], [2, -2, -2], [2, -2, 2]]));
    expected.extend(quad(AXIS_Y, [[-2, 0, -2], [-2, 0, 2], [2, 0, -2], [2, 0, 2]]));
    assert_eq!(lattice.vertices, expected);
}

#[test]
fn small_grid_has_exactly_these_indices() {
    let lattice = Lattice::generate(2, 2, false);
    let expected: Vec<u16> = vec![
        0, 1, 2, 1, 3, 2, 4, 5, 6, 5, 7, 6, 8, 9, 10, 9, 11, 10, 12, 13, 14, 13, 15, 14, 16, 17,
        18, 17, 19, 18, 20, 21, 22, 21, 23, 22,
    ];
    assert_eq!(lattice.indices, expected);
}

#[test]
fn double_sided_quad_repeats_its_triangles_turned_over() {
    let lattice = Lattice::generate(1, 1, true);
    assert_eq!(lattice.vertices.len(), 12);
    assert_eq!(lattice.indices.len(), 36);
    assert_eq!(&lattice.indices[0..12], &[0, 1, 2, 1, 3, 2, 0, 2, 1, 1, 2, 3]);
    assert_eq!(&lattice.indices[12..24], &[4, 5, 6, 5, 7, 6, 4, 6, 5, 5, 6, 7]);
    assert_eq!(&lattice.indices[24..36], &[8, 9, 10, 9, 11, 10, 8, 10, 9, 9, 10, 11]);
}

#[test]
fn sidedness_does_not_change_the_vertices() {
    let single = Lattice::generate(3, 2, false);
    let double = Lattice::generate(3, 2, true);
    assert_eq!(single.vertices, double.vertices);
    assert_eq!(double.indices.len(), 2 * single.indices.len());
}

#[test]
fn odd_resolution_centres_x_and_z_planes_on_whole_units() {
    let lattice = Lattice::generate(3, 3, false);
    assert_eq!(lattice.vertices.len(), 36);
    // X planes at -1, 0, 1 (in half units -2, 0, 2); the grid reaches 1.5 to either side.
    assert_eq!(lattice.vertices[0], Vertex { pos: [-2, -3, -3], axis: AXIS_X });
    assert_eq!(lattice.vertices[4], Vertex { pos: [0, -3, -3], axis: AXIS_X });
    assert_eq!(lattice.vertices[11], Vertex { pos: [2, 3, 3], axis: AXIS_X });
    // Z planes likewise.
    assert_eq!(lattice.vertices[12], Vertex { pos: [-3, -3, -2], axis: AXIS_Z });
    assert_eq!(lattice.vertices[23], Vertex { pos: [3, 3, 2], axis: AXIS_Z });
    // Y planes at -1.5, -0.5, 0.5.
    assert_eq!(lattice.vertices[24], Vertex { pos: [-3, -3, -3], axis: AXIS_Y });
    assert_eq!(lattice.vertices[28], Vertex { pos: [-3, -1, -3], axis: AXIS_Y });
    assert_eq!(lattice.vertices[35], Vertex { pos: [3, 1, 3], axis: AXIS_Y });
}

#[test]
fn grid_without_planes_is_empty() {
    let lattice = Lattice::generate(0, 0, true);
    assert!(lattice.vertices.is_empty());
    assert!(lattice.indices.is_empty());
}

#[test]
fn grid_with_planes_in_one_direction_only() {
    let lattice = Lattice::generate(0, 2, false);
    assert_eq!(lattice.vertices.len(), 8);
    assert_eq!(lattice.indices, vec![0, 1, 2, 1, 3, 2, 4, 5, 6, 5, 7, 6]);
    assert_eq!(lattice.vertices[0], Vertex { pos: [0, -2, 0], axis: AXIS_Y });
    assert_eq!(lattice.vertices[7], Vertex { pos: [0, 0, 0], axis: AXIS_Y });
}

#[test]
fn largest_grid_uses_the_last_index() {
    let lattice = Lattice::generate(8192, 0, false);
    assert_eq!(lattice.vertices.len(), 65536);
    assert_eq!(lattice.indices.len(), 6 * 16384);
    assert_eq!(*lattice.indices.iter().max().unwrap(), 65535);
    assert_eq!(&lattice.indices[6 * 16383..], &[65532, 65533, 65534, 65533, 65535, 65534]);
}

#[test]
fn reference_grid_has_the_declared_counts() {
    let lattice = Lattice::new();
    assert_eq!(NUM_VERTICES, 768);
    assert_eq!(NUM_INDICES, 1152);
    assert_eq!(lattice.vertices.len(), NUM_VERTICES);
    assert_eq!(lattice.indices.len(), NUM_INDICES);
    assert_eq!(lattice.vertices[0], Vertex { pos: [-64, -64, -64], axis: AXIS_X });
    assert_eq!(lattice.vertices[767], Vertex { pos: [64, 62, 64], axis: AXIS_Y });
    assert_eq!(lattice.indices[1151], 766);
}

#[test]
fn reference_grid_is_the_single_sided_grid_of_its_constants() {
    let reference = Lattice::new();
    let generated = Lattice::generate(XZ, Y, false);
    assert_eq!(reference.vertices, generated.vertices);
    assert_eq!(reference.indices, generated.indices);
}

#[test]
fn generating_twice_gives_the_same_lattice() {
    let first = Lattice::generate(5, 7, true);
    let second = Lattice::generate(5, 7, true);
    assert_eq!(first.vertices, second.vertices);
    assert_eq!(first.indices, second.indices);
    let first = Lattice::new();
    let second = Lattice::new();
    assert_eq!(first.vertices, second.vertices);
    assert_eq!(first.indices, second.indices);
}

#[test]
fn every_index_stays_in_its_own_quad() {
    for (lattice, stride) in [(Lattice::new(), 6), (Lattice::generate(4, 9, true), 12)] {
        for (i, &index) in lattice.indices.iter().enumerate() {
            let quad = i / stride;
            assert!((index as usize) < lattice.vertices.len());
            assert!(4 * quad <= index as usize && (index as usize) < 4 * quad + 4);
        }
    }
}

#[test]
fn corners_of_a_quad_are_four_different_vertices() {
    let lattice = Lattice::generate(3, 2, false);
    for corners in lattice.vertices.chunks(4) {
        for c in 0..4 {
            for d in (c + 1)..4 {
                assert_ne!(corners[c], corners[d]);
            }
        }
    }
}

#[test]
fn planes_come_in_the_order_x_then_z_then_y() {
    let lattice = Lattice::generate(2, 3, false);
    let axes: Vec<u32> = lattice.vertices.chunks(4).map(|corners| corners[0].axis).collect();
    assert_eq!(axes, vec![AXIS_X, AXIS_X, AXIS_Z, AXIS_Z, AXIS_Y, AXIS_Y, AXIS_Y]);
    for corners in lattice.vertices.chunks(4) {
        assert!(corners.iter().all(|corner| corner.axis == corners[0].axis));
    }
}

#[test]
fn index_bytes_are_the_indices_in_machine_byte_order() {
    let lattice = Lattice::generate(2, 1, true);
    let expected: Vec<u8> = lattice.indices.iter().flat_map(|index| index.to_ne_bytes()).collect();
    assert_eq!(lattice.index_bytes(), expected.as_slice());
    assert_eq!(lattice.index_bytes().len(), 2 * lattice.indices.len());
}

#[test]
fn no_corner_lies_outside_the_extent_of_the_grid() {
    for (xz, y) in [(64, 64), (3, 5), (1, 1), (6, 0)] {
        let lattice = Lattice::generate(xz, y, false);
        let (far_xz, far_y) = (xz as i32, y as i32);
        for vertex in lattice.vertices.iter() {
            assert!(-far_xz <= vertex.pos[0] && vertex.pos[0] <= far_xz);
            assert!(-far_y <= vertex.pos[1] && vertex.pos[1] <= far_y);
            assert!(-far_xz <= vertex.pos[2] && vertex.pos[2] <= far_xz);
        }
    }
}
