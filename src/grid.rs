//! Triangulated square grid on the plane `y = 0`, spanning `[-1, 1]` along x and z.
use vstd::arithmetic::div_mod::{
    lemma_fundamental_div_mod, lemma_fundamental_div_mod_converse, lemma_multiply_divide_lt,
};
use vstd::prelude::*;

verus! {

/// Largest subdivision count whose vertices can all be addressed by 16-bit
/// indices: `(255 + 1)²` is exactly `u16::MAX + 1`.
pub const MAX_GRID_SPACE_DIMENSION: usize = 255;

/// Why a grid cannot be built.
#[derive(Debug, Clone, Copy, PartialEq, Eq, Structural)]
pub enum GridError {
    /// A subdivision count of zero gives no cell at all.
    EmptyGrid,
    /// The lattice has more points than a 16-bit index can address.
    TooManyVertices,
}

/// Number of lattice points of a grid with `d` cells along each side.
pub open spec fn vertex_count(d: int) -> int {
    (d + 1) * (d + 1)
}

/// Number of triangle corners: two triangles for each of the `d²` cells.
pub open spec fn index_count(d: int) -> int {
    6 * d * d
}

/// Coordinate `k` (0: x, 1: y, 2: z) of lattice point `v`, multiplied by `d`.
///
/// Points are laid out row by row: point `v` lies in column `v % (d + 1)` and
/// row `v / (d + 1)`, and its true coordinates are `-1 + 2 * column / d`, `0`,
/// `-1 + 2 * row / d`.
pub open spec fn scaled_coordinate(d: int, v: int, k: int) -> int {
    if k == 0 {
        2 * (v % (d + 1)) - d
    } else if k == 1 {
        0
    } else {
        2 * (v / (d + 1)) - d
    }
}

/// Entry `i` of the flat vertex array: three coordinates per lattice point.
pub open spec fn vertex_entry(d: int, i: int) -> int {
    scaled_coordinate(d, i / 3, i % 3)
}

/// Corner `k` of the two triangles of cell `c`.
///
/// Cell `c` lies in column `c % d` and row `c / d`. With rows running toward
/// increasing z and columns toward increasing x, the first triangle is
/// (top-left, bottom-left, bottom-right) and the second is
/// (top-left, bottom-right, top-right).
pub open spec fn cell_corner(d: int, c: int, k: int) -> int {
    let top_left = (c / d) * (d + 1) + c % d;
    let bottom_left = top_left + d + 1;
    if k == 0 || k == 3 {
        top_left
    } else if k == 1 {
        bottom_left
    } else if k == 2 || k == 4 {
        bottom_left + 1
    } else {
        top_left + 1
    }
}

/// Entry `i` of the flat index array: six corners per cell.
pub open spec fn index_entry(d: int, i: int) -> int {
    cell_corner(d, i / 6, i % 6)
}

/// Every triangle corner of a grid names one of its lattice points.
pub proof fn lemma_grid_indices_in_range(d: int)
    requires
        d >= 1,
    ensures
        forall|i: int|
            0 <= i < index_count(d) ==> 0 <= #[trigger] index_entry(d, i) < vertex_count(d),
{
    assert forall|i: int| 0 <= i < index_count(d) implies 0 <= #[trigger] index_entry(d, i)
        < vertex_count(d) by {
        let c = i / 6;
        assert(c < d * d) by {
            assert(i < 6 * (d * d)) by (nonlinear_arith)
                requires
                    i < 6 * d * d,
            ;
            lemma_multiply_divide_lt(i, 6, d * d);
        }
        let z = c / d;
        let x = c % d;
        assert(0 <= z < d) by {
            lemma_multiply_divide_lt(c, d, d);
        }
        assert(0 <= x < d);
        assert(0 <= z * (d + 1) + x && z * (d + 1) + x + d + 2 < (d + 1) * (d + 1))
            by (nonlinear_arith)
            requires
                0 <= z < d,
                0 <= x < d,
        ;
    }
}

/// Builds the lattice of a grid with `grid_space_dimension` cells along each
/// side, and its triangles.
///
/// The first vector holds three coordinates per lattice point, each multiplied
/// by `grid_space_dimension` so that they are exact integers; the second holds
/// six corners per cell, as indices into the lattice.
pub fn get_square_vertex_grid(grid_space_dimension: usize) -> (r: Result<
    (Vec<i32>, Vec<u16>),
    GridError,
>)
    ensures
        grid_space_dimension == 0 <==> r == Err::<(Vec<i32>, Vec<u16>), GridError>(
            GridError::EmptyGrid,
        ),
        grid_space_dimension > MAX_GRID_SPACE_DIMENSION <==> r == Err::<
            (Vec<i32>, Vec<u16>),
            GridError,
        >(GridError::TooManyVertices),
        r matches Ok((vertices, indices)) ==> {
            let d = grid_space_dimension as int;
            &&& vertices@.len() == 3 * vertex_count(d)
            &&& forall|i: int|
                0 <= i < vertices@.len() ==> vertices@[i] as int == #[trigger] vertex_entry(d, i)
            &&& indices@.len() == index_count(d)
            &&& forall|i: int|
                0 <= i < indices@.len() ==> indices@[i] as int == #[trigger] index_entry(d, i)
            &&& forall|i: int| 0 <= i < indices@.len() ==> #[trigger] indices@[i] < vertex_count(d)
        },
{
    if grid_space_dimension == 0 {
        return Err(GridError::EmptyGrid);
    }
    if grid_space_dimension > MAX_GRID_SPACE_DIMENSION {
        return Err(GridError::TooManyVertices);
    }
    let d = grid_space_dimension;
    let vertices = grid_vertices(d);
    let indices = grid_indices(d);
    proof {
        lemma_grid_indices_in_range(d as int);
        assert forall|i: int| 0 <= i < indices@.len() implies #[trigger] indices@[i]
            < vertex_count(d as int) by {
            assert(index_entry(d as int, i) < vertex_count(d as int));
        }
    }
    Ok((vertices, indices))
}

/// Lattice points, row by row, three scaled coordinates each.
fn grid_vertices(d: usize) -> (vertices: Vec<i32>)
    requires
        1 <= d <= MAX_GRID_SPACE_DIMENSION,
    ensures
        vertices@.len() == 3 * vertex_count(d as int),
        forall|i: int|
            0 <= i < vertices@.len() ==> vertices@[i] as int == #[trigger] vertex_entry(d as int, i),
{
    let p: usize = d + 1;
    let mut vertices: Vec<i32> = Vec::new();
    let mut z: usize = 0;
    while z < p
        invariant
            1 <= d <= MAX_GRID_SPACE_DIMENSION,
            p == d + 1,
            z <= p,
            vertices@.len() == 3 * (z * p),
            forall|i: int|
                0 <= i < vertices@.len() ==> vertices@[i] as int == #[trigger] vertex_entry(
                    d as int,
                    i,
                ),
        decreases p - z,
    {
        let mut x: usize = 0;
        while x < p
            invariant
                1 <= d <= MAX_GRID_SPACE_DIMENSION,
                p == d + 1,
                z < p,
                x <= p,
                vertices@.len() == 3 * (z * p + x),
                forall|i: int|
                    0 <= i < vertices@.len() ==> vertices@[i] as int == #[trigger] vertex_entry(
                        d as int,
                        i,
                    ),
            decreases p - x,
        {
            let ghost v: int = z * p + x;
            let ghost start: int = vertices@.len() as int;
            proof {
                lemma_fundamental_div_mod_converse(v, p as int, z as int, x as int);
                lemma_fundamental_div_mod_converse(start, 3, v, 0);
                lemma_fundamental_div_mod_converse(start + 1, 3, v, 1);
                lemma_fundamental_div_mod_converse(start + 2, 3, v, 2);
            }
            vertices.push(2 * (x as i32) - d as i32);
            vertices.push(0);
            vertices.push(2 * (z as i32) - d as i32);
            assert(3 * (z * p + x + 1) == 3 * (z * p + x) + 3);
            x = x + 1;
        }
        assert(z * p + p == (z + 1) * p) by (nonlinear_arith);
        z = z + 1;
    }
    vertices
}

/// Two triangles per cell, cells row by row.
fn grid_indices(d: usize) -> (indices: Vec<u16>)
    requires
        1 <= d <= MAX_GRID_SPACE_DIMENSION,
    ensures
        indices@.len() == index_count(d as int),
        forall|i: int|
            0 <= i < indices@.len() ==> indices@[i] as int == #[trigger] index_entry(d as int, i),
{
    let p: usize = d + 1;
    let mut indices: Vec<u16> = Vec::new();
    let mut z: usize = 0;
    while z < d
        invariant
            1 <= d <= MAX_GRID_SPACE_DIMENSION,
            p == d + 1,
            z <= d,
            indices@.len() == 6 * (z * d),
            forall|i: int|
                0 <= i < indices@.len() ==> indices@[i] as int == #[trigger] index_entry(
                    d as int,
                    i,
                ),
        decreases d - z,
    {
        let mut x: usize = 0;
        while x < d
            invariant
                1 <= d <= MAX_GRID_SPACE_DIMENSION,
                p == d + 1,
                z < d,
                x <= d,
                indices@.len() == 6 * (z * d + x),
                forall|i: int|
                    0 <= i < indices@.len() ==> indices@[i] as int == #[trigger] index_entry(
                        d as int,
                        i,
                    ),
            decreases d - x,
        {
            let ghost c: int = z * d + x;
            let ghost start: int = indices@.len() as int;
            proof {
                lemma_fundamental_div_mod_converse(c, d as int, z as int, x as int);
                lemma_fundamental_div_mod_converse(start, 6, c, 0);
                lemma_fundamental_div_mod_converse(start + 1, 6, c, 1);
                lemma_fundamental_div_mod_converse(start + 2, 6, c, 2);
                lemma_fundamental_div_mod_converse(start + 3, 6, c, 3);
                lemma_fundamental_div_mod_converse(start + 4, 6, c, 4);
                lemma_fundamental_div_mod_converse(start + 5, 6, c, 5);
            }
            assert(z * p + x + p + 1 < 65536) by (nonlinear_arith)
                requires
                    z < d,
                    x < d,
                    p == d + 1,
                    d <= 255,
            ;
            let top_left: usize = z * p + x;
            let bottom_left: usize = top_left + p;
            indices.push(top_left as u16);
            indices.push(bottom_left as u16);
            indices.push((bottom_left + 1) as u16);
            indices.push(top_left as u16);
            indices.push((bottom_left + 1) as u16);
            indices.push((top_left + 1) as u16);
            assert(6 * (z * d + x + 1) == 6 * (z * d + x) + 6);
            x = x + 1;
        }
        assert(z * d + d == (z + 1) * d) by (nonlinear_arith);
        z = z + 1;
    }
    assert(6 * (d * d) == 6 * d * d) by (nonlinear_arith);
    indices
}

/// The lattice points whose heights give the slope at one point.
///
/// Along each axis the slope is the height difference between the two
/// neighbours divided by their distance, `span` grid steps: both direct
/// neighbours inside the grid (`span` 2), or the point itself and its one
/// neighbour on the border (`span` 1).
#[derive(Debug, Clone, Copy, PartialEq, Eq, Structural)]
pub struct NormalStencil {
    /// Neighbour toward decreasing x.
    pub left: usize,
    /// Neighbour toward increasing x.
    pub right: usize,
    /// Grid steps from `left` to `right`.
    pub span_x: usize,
    /// Neighbour toward decreasing z.
    pub back: usize,
    /// Neighbour toward increasing z.
    pub front: usize,
    /// Grid steps from `back` to `front`.
    pub span_z: usize,
}

/// Column of lattice point `v`.
pub open spec fn column(d: int, v: int) -> int {
    v % (d + 1)
}

/// Row of lattice point `v`.
pub open spec fn row(d: int, v: int) -> int {
    v / (d + 1)
}

/// The stencil of lattice point `v` of a grid with `d` cells per side.
pub open spec fn stencil_of(d: int, v: int) -> NormalStencil {
    let x = column(d, v);
    let z = row(d, v);
    let left = if x > 0 { v - 1 } else { v };
    let right = if x < d { v + 1 } else { v };
    let back = if z > 0 { v - (d + 1) } else { v };
    let front = if z < d { v + (d + 1) } else { v };
    NormalStencil {
        left: left as usize,
        right: right as usize,
        span_x: (if x > 0 { 1int } else { 0 } + if x < d { 1int } else { 0 }) as usize,
        back: back as usize,
        front: front as usize,
        span_z: (if z > 0 { 1int } else { 0 } + if z < d { 1int } else { 0 }) as usize,
    }
}

/// The neighbours used to estimate the surface normal at `vertex`.
pub fn normal_stencil(grid_space_dimension: usize, vertex: usize) -> (r: NormalStencil)
    requires
        1 <= grid_space_dimension <= MAX_GRID_SPACE_DIMENSION,
        vertex < vertex_count(grid_space_dimension as int),
    ensures
        r == stencil_of(grid_space_dimension as int, vertex as int),
        r.left < vertex_count(grid_space_dimension as int),
        r.right < vertex_count(grid_space_dimension as int),
        r.back < vertex_count(grid_space_dimension as int),
        r.front < vertex_count(grid_space_dimension as int),
        1 <= r.span_x <= 2,
        1 <= r.span_z <= 2,
{
    let d = grid_space_dimension;
    let p: usize = d + 1;
    let x = vertex % p;
    let z = vertex / p;
    proof {
        lemma_multiply_divide_lt(vertex as int, p as int, p as int);
        lemma_fundamental_div_mod(vertex as int, p as int);
        assert(p * p <= 65536) by (nonlinear_arith)
            requires
                p <= 256,
        ;
        assert(0 <= z);
        assert(x <= vertex) by (nonlinear_arith)
            requires
                vertex == p * z + x,
                0 <= z,
                p > 0,
        ;
        if z < d {
            assert(vertex + p < p * p) by (nonlinear_arith)
                requires
                    vertex == p * z + x,
                    x < p,
                    z + 1 < p,
            ;
        }
        if x < d {
            assert(vertex + 1 < p * p) by (nonlinear_arith)
                requires
                    vertex == p * z + x,
                    x + 1 < p,
                    z < p,
            ;
        }
        if z > 0 {
            assert(p <= vertex) by (nonlinear_arith)
                requires
                    vertex == p * z + x,
                    z >= 1,
                    x >= 0,
            ;
        }
    }
    let left = if x > 0 { vertex - 1 } else { vertex };
    let right = if x < d { vertex + 1 } else { vertex };
    let back = if z > 0 { vertex - p } else { vertex };
    let front = if z < d { vertex + p } else { vertex };
    let span_x: usize = if x > 0 && x < d { 2 } else { 1 };
    let span_z: usize = if z > 0 && z < d { 2 } else { 1 };
    NormalStencil { left, right, span_x, back, front, span_z }
}

} // verus!
