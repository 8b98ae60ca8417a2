use meshgrid::fill::{grid_indices, grid_vertices, AxisRange, GenVertex};
use meshgrid::grid::GridDims;

fn unit_range() -> AxisRange {
    // [-1.0, 1.0] in fixed point.
    AxisRange { start: -1_000_000, end: 1_000_000 }
}

#[test]
fn five_by_five_counts() {
    // Resolution (5,5) over [-1,1] x [-1,1]: 25 vertices and 96 indices
    // (4 x 4 cells, two triangles each, three indices per triangle).
    let dims = GridDims::new(5, 5);
    let vertices = grid_vertices(&dims, &unit_range(), &unit_range());
    let indices = grid_indices(&dims);
    assert_eq!(vertices.len(), 25);
    assert_eq!(indices.len(), 96);
}

#[test]
fn corner_vertex_sits_at_range_start() {
    // Vertex (0,0) of a (5,5) grid over [-1,1] x [-1,1] is (-1, -1, 0):
    // numerators are start * (steps - 0), over denominator steps = 4.
    let dims = GridDims::new(5, 5);
    let vertices = grid_vertices(&dims, &unit_range(), &unit_range());
    assert_eq!(
        vertices[0],
        GenVertex {
            x_num: -4_000_000,
            y_num: -4_000_000,
            z_num: 0,
            red_num: 0,
            green_num: 0,
            blue_num: 0,
        }
    );
    // The opposite corner (4,4), at linear index 24, is (1, 1, 0).
    assert_eq!(vertices[24].x_num, 4_000_000);
    assert_eq!(vertices[24].y_num, 4_000_000);
    assert_eq!(vertices[24].z_num, 0);
}

#[test]
fn interior_vertex_lerps_both_axes() {
    // Vertex (2,1) of a (5,5) grid: x at the midpoint (numerator 0), y one
    // quarter up (numerator -1e6 * 3 + 1e6 * 1 = -2e6 over 4, i.e. -0.5).
    let dims = GridDims::new(5, 5);
    let vertices = grid_vertices(&dims, &unit_range(), &unit_range());
    let v = vertices[1 * 5 + 2];
    assert_eq!(v.x_num, 0);
    assert_eq!(v.y_num, -2_000_000);
}

#[test]
fn asymmetric_range_endpoints() {
    // A (3,2) grid over [0,2] x [5,7]: x numerators over denominator 2 are
    // 0, 2e6, 4e6; y numerators over denominator 1 are 5e6 and 7e6.
    let dims = GridDims::new(3, 2);
    let x_range = AxisRange { start: 0, end: 2_000_000 };
    let y_range = AxisRange { start: 5_000_000, end: 7_000_000 };
    let vertices = grid_vertices(&dims, &x_range, &y_range);
    assert_eq!(vertices.len(), 6);
    assert_eq!(vertices[0].x_num, 0);
    assert_eq!(vertices[1].x_num, 2_000_000);
    assert_eq!(vertices[2].x_num, 4_000_000);
    assert_eq!(vertices[0].y_num, 5_000_000);
    assert_eq!(vertices[3].y_num, 7_000_000);
}

#[test]
fn first_cell_triangles() {
    // Cell (0,0) of a width-5 grid: corners 0, 1, 5, 6; triangles
    // (0, 1, 6) and (0, 6, 5), both counter-clockwise.
    let dims = GridDims::new(5, 5);
    let indices = grid_indices(&dims);
    assert_eq!(&indices[0..6], &[0, 1, 6, 0, 6, 5]);
}

#[test]
fn second_row_cell_triangles() {
    // Cell (1,2) of a width-4 grid: base corner 2*4 + 1 = 9.
    let dims = GridDims::new(4, 4);
    let indices = grid_indices(&dims);
    let cell = 2 * 3 + 1;
    assert_eq!(&indices[cell * 6..cell * 6 + 6], &[9, 10, 14, 9, 14, 13]);
}

#[test]
fn all_indices_address_grid_vertices() {
    let dims = GridDims::new(9, 7);
    let indices = grid_indices(&dims);
    assert_eq!(indices.len(), 8 * 6 * 6);
    for &ix in indices.iter() {
        assert!(ix < 9 * 7);
    }
}

#[test]
fn generation_is_deterministic() {
    let dims = GridDims::new(6, 4);
    let first = grid_vertices(&dims, &unit_range(), &unit_range());
    let second = grid_vertices(&dims, &unit_range(), &unit_range());
    assert_eq!(first, second);
    assert_eq!(grid_indices(&dims), grid_indices(&dims));
}
