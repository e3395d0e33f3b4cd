use webgl_surface::grid::{
    get_square_vertex_grid, normal_stencil, GridError, NormalStencil, MAX_GRID_SPACE_DIMENSION,
};

#[test]
fn single_cell_grid_has_four_corners_and_two_triangles() {
    let (vertices, indices) = get_square_vertex_grid(1).unwrap();
    assert_eq!(vertices, vec![-1, 0, -1, 1, 0, -1, -1, 0, 1, 1, 0, 1]);
    assert_eq!(indices, vec![0, 2, 3, 0, 3, 1]);
}

#[test]
fn grid_counts_match_subdivision() {
    for d in [1usize, 2, 3, 10, 17] {
        let (vertices, indices) = get_square_vertex_grid(d).unwrap();
        let points = (d + 1) * (d + 1);
        assert_eq!(vertices.len(), 3 * points);
        assert_eq!(indices.len(), 6 * d * d);
        assert!(indices.iter().all(|&i| (i as usize) < points));
    }
}

#[test]
fn ten_cell_grid_shape() {
    let (vertices, indices) = get_square_vertex_grid(10).unwrap();
    assert_eq!(vertices.len(), 363);
    assert_eq!(indices.len(), 600);
    // last cell: top-left is lattice point 9 * 11 + 9 = 108
    assert_eq!(&indices[594..600], &[108, 119, 120, 108, 120, 109]);
}

#[test]
fn two_cell_grid_coordinates_scaled() {
    let (vertices, _) = get_square_vertex_grid(2).unwrap();
    // centre point 4 lies at the origin
    assert_eq!(&vertices[12..15], &[0, 0, 0]);
    // point 5: column 2, row 1 -> (1, 0, 0) scaled by 2
    assert_eq!(&vertices[15..18], &[2, 0, 0]);
    // point 6: column 0, row 2 -> (-1, 0, 1) scaled by 2
    assert_eq!(&vertices[18..21], &[-2, 0, 2]);
}

#[test]
fn two_cell_grid_winding() {
    let (_, indices) = get_square_vertex_grid(2).unwrap();
    assert_eq!(
        indices,
        vec![0, 3, 4, 0, 4, 1, 1, 4, 5, 1, 5, 2, 3, 6, 7, 3, 7, 4, 4, 7, 8, 4, 8, 5]
    );
}

#[test]
fn zero_subdivisions_rejected() {
    assert_eq!(get_square_vertex_grid(0), Err(GridError::EmptyGrid));
}

#[test]
fn too_many_subdivisions_rejected() {
    assert_eq!(
        get_square_vertex_grid(MAX_GRID_SPACE_DIMENSION + 1),
        Err(GridError::TooManyVertices)
    );
    assert_eq!(get_square_vertex_grid(100_000), Err(GridError::TooManyVertices));
}

#[test]
fn largest_grid_uses_full_index_range() {
    let (vertices, indices) = get_square_vertex_grid(MAX_GRID_SPACE_DIMENSION).unwrap();
    assert_eq!(vertices.len(), 3 * 65536);
    assert_eq!(indices.len(), 6 * 255 * 255);
    assert_eq!(*indices.iter().max().unwrap(), 65535);
    assert_eq!(&vertices[vertices.len() - 3..], &[255, 0, 255]);
}

#[test]
fn stencil_of_interior_point() {
    // 3 cells per side, 4 points per row; point 5 is column 1, row 1
    assert_eq!(
        normal_stencil(3, 5),
        NormalStencil { left: 4, right: 6, span_x: 2, back: 1, front: 9, span_z: 2 }
    );
}

#[test]
fn stencil_of_corner_points() {
    assert_eq!(
        normal_stencil(3, 0),
        NormalStencil { left: 0, right: 1, span_x: 1, back: 0, front: 4, span_z: 1 }
    );
    assert_eq!(
        normal_stencil(3, 15),
        NormalStencil { left: 14, right: 15, span_x: 1, back: 11, front: 15, span_z: 1 }
    );
}

#[test]
fn stencil_of_edge_point() {
    // column 3 (right edge), row 2
    assert_eq!(
        normal_stencil(3, 11),
        NormalStencil { left: 10, right: 11, span_x: 1, back: 7, front: 15, span_z: 2 }
    );
}
