use vstd::prelude::*;
use vstd::arithmetic::div_mod::{lemma_fundamental_div_mod, lemma_fundamental_div_mod_converse};
use crate::grid::{ChunkOrigin, GridDims};

verus! {

/// Where the height of one point of a normal's neighbourhood comes from.
#[derive(Clone, Copy, Debug, PartialEq, Eq, Structural)]
pub enum HeightSource {
    /// The chunk's own (eroded) height field, at this row-major position.
    Grid(u32),
    /// The noise sampler, at these world coordinates, for a point beyond the chunk's edge.
    Noise(i32, i32),
}

/// The source of the height at local coordinates `(x, z)`, which may lie one point beyond
/// the grid: inside the grid the height field, outside it the noise sampler at the world
/// coordinates of that point.
pub open spec fn source_at(dims: GridDims, origin: ChunkOrigin, x: int, z: int) -> HeightSource {
    if 0 <= x <= dims.width && 0 <= z <= dims.depth {
        HeightSource::Grid(dims.flat(x, z) as u32)
    } else {
        HeightSource::Noise((origin.x + x) as i32, (origin.z + z) as i32)
    }
}

/// The six neighbours that the normal estimate at one grid point reads.
#[derive(Clone, Copy, Debug, PartialEq, Eq, Structural)]
pub struct NormalStencil {
    pub left: HeightSource,
    pub right: HeightSource,
    pub top: HeightSource,
    pub bottom: HeightSource,
    pub top_left: HeightSource,
    pub bottom_right: HeightSource,
}

/// The height source of the point `(x + dx, z + dz)`, a neighbour of grid point `(x, z)`.
pub fn neighbor_source(dims: &GridDims, origin: &ChunkOrigin, x: u32, z: u32, dx: i32, dz: i32) -> (r:
    HeightSource)
    requires
        dims.wf(),
        dims.origin_fits(*origin),
        x <= dims.width,
        z <= dims.depth,
        -1 <= dx <= 1,
        -1 <= dz <= 1,
    ensures
        r == source_at(*dims, *origin, x + dx, z + dz),
{
    proof {
        dims.lemma_wf_bounds();
    }
    let nx: i64 = x as i64 + dx as i64;
    let nz: i64 = z as i64 + dz as i64;
    if 0 <= nx && nx <= dims.width as i64 && 0 <= nz && nz <= dims.depth as i64 {
        HeightSource::Grid(dims.point_index(nx as u32, nz as u32))
    } else {
        HeightSource::Noise((origin.x as i64 + nx) as i32, (origin.z as i64 + nz) as i32)
    }
}

/// The six neighbours of grid point `(x, z)` that its normal is estimated from.
pub fn normal_stencil(dims: &GridDims, origin: &ChunkOrigin, x: u32, z: u32) -> (r: NormalStencil)
    requires
        dims.wf(),
        dims.origin_fits(*origin),
        x <= dims.width,
        z <= dims.depth,
    ensures
        r.left == source_at(*dims, *origin, x - 1, z as int),
        r.right == source_at(*dims, *origin, x + 1, z as int),
        r.top == source_at(*dims, *origin, x as int, z - 1),
        r.bottom == source_at(*dims, *origin, x as int, z + 1),
        r.top_left == source_at(*dims, *origin, x - 1, z - 1),
        r.bottom_right == source_at(*dims, *origin, x + 1, z + 1),
{
    NormalStencil {
        left: neighbor_source(dims, origin, x, z, -1, 0),
        right: neighbor_source(dims, origin, x, z, 1, 0),
        top: neighbor_source(dims, origin, x, z, 0, -1),
        bottom: neighbor_source(dims, origin, x, z, 0, 1),
        top_left: neighbor_source(dims, origin, x, z, -1, -1),
        bottom_right: neighbor_source(dims, origin, x, z, 1, 1),
    }
}

/// World coordinates `(x, z)` of the chunk's grid point `(i, j)`.
pub fn vertex_world_coords(dims: &GridDims, origin: &ChunkOrigin, i: u32, j: u32) -> (r: (i32, i32))
    requires
        dims.wf(),
        dims.origin_fits(*origin),
        i <= dims.width,
        j <= dims.depth,
    ensures
        r.0 == origin.x + i,
        r.1 == origin.z + j,
{
    ((origin.x as i64 + i as i64) as i32, (origin.z as i64 + j as i64) as i32)
}

/// Offset, from a cell's top-left vertex, of corner `t` of its two triangles:
/// `(top-left, bottom-left, top-right)` and `(bottom-left, bottom-right, top-right)`.
pub open spec fn corner_offset(width: int, t: int) -> int {
    if t == 0 {
        0
    } else if t == 1 || t == 3 {
        width + 1
    } else if t == 4 {
        width + 2
    } else {
        1
    }
}

/// The vertex number at position `k` of the index buffer of a chunk `width` cells wide:
/// cell `k / 6` in row-major order, corner `k % 6` of its two triangles.
pub open spec fn index_value(width: int, k: int) -> int {
    let cell = k / 6;
    (cell / width) * (width + 1) + cell % width + corner_offset(width, k % 6)
}

proof fn lemma_index_value_at(width: int, row: int, col: int, t: int)
    requires
        width >= 1,
        row >= 0,
        0 <= col < width,
        0 <= t < 6,
    ensures
        index_value(width, (row * width + col) * 6 + t) == row * (width + 1) + col + corner_offset(
            width,
            t,
        ),
{
    let cell = row * width + col;
    lemma_fundamental_div_mod_converse((row * width + col) * 6 + t, 6, cell, t);
    lemma_fundamental_div_mod_converse(cell, width, row, col);
}

/// Every entry of the index buffer names a vertex of the chunk.
pub proof fn lemma_index_value_in_range(dims: GridDims, k: int)
    requires
        dims.wf(),
        0 <= k < dims.width * dims.depth * 6,
    ensures
        0 <= index_value(dims.width as int, k) < dims.points(),
{
    let w = dims.width as int;
    let d = dims.depth as int;
    let cell = k / 6;
    lemma_fundamental_div_mod(k, 6);
    lemma_fundamental_div_mod(cell, w);
    let row = cell / w;
    let col = cell % w;
    assert(0 <= cell < w * d) by (nonlinear_arith)
        requires
            k == 6 * cell + k % 6,
            0 <= k % 6 < 6,
            0 <= k < w * d * 6,
    ;
    assert(0 <= row < d) by (nonlinear_arith)
        requires
            cell == w * row + col,
            0 <= col < w,
            0 <= cell < w * d,
    ;
    assert(0 <= row * (w + 1) + col && row * (w + 1) + col + w + 2 < (w + 1) * (d + 1))
        by (nonlinear_arith)
        requires
            0 <= row < d,
            0 <= col < w,
    ;
}

/// `s` is the index buffer of a chunk of size `dims`.
pub open spec fn is_index_buffer(dims: GridDims, s: Seq<u32>) -> bool {
    &&& s.len() == dims.width * dims.depth * 6
    &&& forall|k: int| 0 <= k < s.len() ==> s[k] == index_value(dims.width as int, k)
}

/// Index validity: an index buffer holds six entries per cell, and each names one of the
/// chunk's `(width + 1) * (depth + 1)` vertices.
pub proof fn lemma_index_buffer_valid(dims: GridDims, s: Seq<u32>)
    requires
        dims.wf(),
        is_index_buffer(dims, s),
    ensures
        s.len() == dims.width * dims.depth * 6,
        forall|k: int| 0 <= k < s.len() ==> #[trigger] s[k] < dims.points(),
{
    assert forall|k: int| 0 <= k < s.len() implies #[trigger] s[k] < dims.points() by {
        lemma_index_value_in_range(dims, k);
    }
}

/// Determinism of the triangulation: a chunk size has exactly one index buffer.
pub proof fn lemma_index_buffer_unique(dims: GridDims, s: Seq<u32>, t: Seq<u32>)
    requires
        is_index_buffer(dims, s),
        is_index_buffer(dims, t),
    ensures
        s == t,
{
    assert(s =~= t);
}

/// The index buffer: two triangles for each cell, cells in row-major order.
pub fn gen_indices(dims: &GridDims) -> (r: Vec<u32>)
    requires
        dims.wf(),
    ensures
        is_index_buffer(*dims, r@),
        forall|k: int| 0 <= k < r@.len() ==> r@[k] < dims.points(),
{
    proof {
        dims.lemma_wf_bounds();
    }
    let w = dims.width;
    let d = dims.depth;
    let mut r: Vec<u32> = Vec::new();
    let mut row: u32 = 0;
    while row < d
        invariant
            dims.wf(),
            w == dims.width,
            d == dims.depth,
            row <= d,
            r@.len() == row * w * 6,
            forall|k: int| 0 <= k < r@.len() ==> r@[k] == index_value(w as int, k),
        decreases d - row,
    {
        let mut col: u32 = 0;
        while col < w
            invariant
                dims.wf(),
                w == dims.width,
                d == dims.depth,
                row < d,
                col <= w,
                r@.len() == (row * w + col) * 6,
                forall|k: int| 0 <= k < r@.len() ==> r@[k] == index_value(w as int, k),
            decreases w - col,
        {
            proof {
                dims.lemma_wf_bounds();
                assert(row * (w + 1) + col + w + 2 < (w + 1) * (d + 1)) by (nonlinear_arith)
                    requires
                        row < d,
                        col < w,
                ;
            }
            let base: u32 = row * (w + 1) + col;
            let ghost start = r@.len() as int;
            r.push(base);
            r.push(base + w + 1);
            r.push(base + 1);
            r.push(base + w + 1);
            r.push(base + w + 2);
            r.push(base + 1);
            proof {
                assert forall|k: int| 0 <= k < r@.len() implies r@[k] == index_value(w as int, k) by {
                    if k >= start {
                        lemma_index_value_at(w as int, row as int, col as int, k - start);
                    }
                }
                assert((row * w + col + 1) * 6 == (row * w + col) * 6 + 6) by (nonlinear_arith);
            }
            col = col + 1;
        }
        assert(row * w + w == (row + 1) * w) by (nonlinear_arith);
        row = row + 1;
    }
    proof {
        assert(row * w * 6 == w * d * 6) by (nonlinear_arith)
            requires
                row == d,
        ;
        assert forall|k: int| 0 <= k < r@.len() implies r@[k] < dims.points() by {
            lemma_index_value_in_range(*dims, k);
        }
    }
    r
}

/// Chunk independence along x: the next chunk's first column lies at the same world
/// coordinates as this chunk's last column, and the point one beyond this chunk's last
/// column is sampled from the noise at the world coordinates of the next chunk's second
/// column.
pub proof fn lemma_shared_edge_x(
    dims: GridDims,
    chunk_x: int,
    chunk_z: int,
    this: ChunkOrigin,
    next: ChunkOrigin,
    j: int,
)
    requires
        dims.wf(),
        dims.origin_fits(this),
        dims.origin_fits(next),
        this.x == chunk_x * dims.width,
        this.z == chunk_z * dims.depth,
        next.x == (chunk_x + 1) * dims.width,
        next.z == chunk_z * dims.depth,
        0 <= j <= dims.depth,
    ensures
        this.x + dims.width == next.x + 0 && this.z + j == next.z + j,
        source_at(dims, this, dims.width + 1, j) == HeightSource::Noise(
            (next.x + 1) as i32,
            (next.z + j) as i32,
        ),
        source_at(dims, next, -1, j) == HeightSource::Noise(
            (this.x + dims.width - 1) as i32,
            (this.z + j) as i32,
        ),
{
    assert((chunk_x + 1) * dims.width == chunk_x * dims.width + dims.width) by (nonlinear_arith);
}

/// Chunk independence along z: the next chunk's first row lies at the same world
/// coordinates as this chunk's last row, and the point one beyond this chunk's last row is
/// sampled from the noise at the world coordinates of the next chunk's second row.
pub proof fn lemma_shared_edge_z(
    dims: GridDims,
    chunk_x: int,
    chunk_z: int,
    this: ChunkOrigin,
    next: ChunkOrigin,
    i: int,
)
    requires
        dims.wf(),
        dims.origin_fits(this),
        dims.origin_fits(next),
        this.x == chunk_x * dims.width,
        this.z == chunk_z * dims.depth,
        next.x == chunk_x * dims.width,
        next.z == (chunk_z + 1) * dims.depth,
        0 <= i <= dims.width,
    ensures
        this.z + dims.depth == next.z + 0 && this.x + i == next.x + i,
        source_at(dims, this, i, dims.depth + 1) == HeightSource::Noise(
            (next.x + i) as i32,
            (next.z + 1) as i32,
        ),
        source_at(dims, next, i, -1) == HeightSource::Noise(
            (this.x + i) as i32,
            (this.z + dims.depth - 1) as i32,
        ),
{
    assert((chunk_z + 1) * dims.depth == chunk_z * dims.depth + dims.depth) by (nonlinear_arith);
}

} // verus!
