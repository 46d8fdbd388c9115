use vstd::prelude::*;

verus! {

/// Bound on the length of every buffer a chunk produces, so that each length and each
/// vertex number fits in a `u32`.
pub const MAX_BUFFER_LEN: u64 = 0xffff_ffff;

/// The size of a chunk in grid cells. A chunk of `width` by `depth` cells has
/// `(width + 1) * (depth + 1)` grid points, stored row-major with `z` as the row.
#[derive(Clone, Copy, Debug, PartialEq, Eq, Structural)]
pub struct GridDims {
    pub width: u32,
    pub depth: u32,
}

/// Why a chunk cannot be generated.
#[derive(Clone, Copy, Debug, PartialEq, Eq, Structural)]
pub enum GenError {
    /// Some world coordinate that the chunk reads falls outside the `i32` range.
    CoordinateOverflow,
}

/// World coordinates of a chunk's grid point `(0, 0)`.
#[derive(Clone, Copy, Debug, PartialEq, Eq, Structural)]
pub struct ChunkOrigin {
    pub x: i32,
    pub z: i32,
}

/// A chunk coordinate whose sample range `chunk * size - 1 ..= chunk * size + size + 1`
/// lies within `i32`.
pub open spec fn chunk_axis_fits(chunk: int, size: int) -> bool {
    i32::MIN <= chunk * size - 1 && chunk * size + size + 1 <= i32::MAX
}

impl GridDims {
    /// At least one cell each way, and every output buffer no longer than `MAX_BUFFER_LEN`.
    pub open spec fn wf(self) -> bool {
        &&& self.width >= 1
        &&& self.depth >= 1
        &&& (self.width + 1) * (self.depth + 1) * 3 <= MAX_BUFFER_LEN
        &&& self.width * self.depth * 6 <= MAX_BUFFER_LEN
    }

    /// Number of grid points.
    pub open spec fn points(self) -> int {
        (self.width + 1) * (self.depth + 1)
    }

    /// Row-major position of grid point `(i, j)`.
    pub open spec fn flat(self, i: int, j: int) -> int {
        j * (self.width + 1) + i
    }

    /// The origin holds every world coordinate that the chunk samples, one beyond each edge.
    pub open spec fn origin_fits(self, origin: ChunkOrigin) -> bool {
        &&& i32::MIN <= origin.x - 1 && origin.x + self.width + 1 <= i32::MAX
        &&& i32::MIN <= origin.z - 1 && origin.z + self.depth + 1 <= i32::MAX
    }

    /// The dimensions, when they are well formed.
    pub fn new(width: u32, depth: u32) -> (r: Option<GridDims>)
        ensures
            r is Some <==> (GridDims { width, depth }).wf(),
            r is Some ==> r->0 == (GridDims { width, depth }),
    {
        let w = width as u128;
        let d = depth as u128;
        assert((w + 1) * (d + 1) * 3 <= 0x1_0000_0000 * 0x1_0000_0000 * 3 && w * d * 6
            <= 0x1_0000_0000 * 0x1_0000_0000 * 6) by (nonlinear_arith)
            requires
                w <= 0xffff_ffff,
                d <= 0xffff_ffff,
        ;
        let points3 = (w + 1) * (d + 1) * 3;
        let cells6 = w * d * 6;
        if width == 0 || depth == 0 || points3 > MAX_BUFFER_LEN as u128 || cells6
            > MAX_BUFFER_LEN as u128 {
            return None;
        }
        Some(GridDims { width, depth })
    }

    /// Each side, and every product of the sizes that the buffers use, fits in a `u32`.
    pub proof fn lemma_wf_bounds(self)
        requires
            self.wf(),
        ensures
            self.width + 1 <= MAX_BUFFER_LEN / 6,
            self.depth + 1 <= MAX_BUFFER_LEN / 6,
            self.points() * 3 <= MAX_BUFFER_LEN,
            self.points() >= 4,
            self.width * self.depth * 6 <= MAX_BUFFER_LEN,
    {
        let w = self.width as int;
        let d = self.depth as int;
        assert(w + 1 <= MAX_BUFFER_LEN / 6 && d + 1 <= MAX_BUFFER_LEN / 6 && (w + 1) * (d + 1) >= 4)
            by (nonlinear_arith)
            requires
                w >= 1,
                d >= 1,
                (w + 1) * (d + 1) * 3 <= MAX_BUFFER_LEN,
        ;
    }

    /// Number of grid points, `(width + 1) * (depth + 1)`.
    pub fn point_count(&self) -> (r: u32)
        requires
            self.wf(),
        ensures
            r == self.points(),
    {
        proof {
            self.lemma_wf_bounds();
        }
        (self.width + 1) * (self.depth + 1)
    }

    /// Length of the index buffer: six vertex numbers per cell.
    pub fn index_count(&self) -> (r: u32)
        requires
            self.wf(),
        ensures
            r == self.width * self.depth * 6,
    {
        self.width * self.depth * 6
    }

    /// Row-major position of grid point `(i, j)`.
    pub fn point_index(&self, i: u32, j: u32) -> (r: u32)
        requires
            self.wf(),
            i <= self.width,
            j <= self.depth,
        ensures
            r == self.flat(i as int, j as int),
            r < self.points(),
    {
        proof {
            self.lemma_wf_bounds();
            self.lemma_flat_in_range(i as int, j as int);
        }
        j * (self.width + 1) + i
    }

    /// Every grid point's row-major position is below the number of points.
    pub proof fn lemma_flat_in_range(self, i: int, j: int)
        requires
            self.wf(),
            0 <= i <= self.width,
            0 <= j <= self.depth,
        ensures
            0 <= self.flat(i, j) < self.points(),
    {
        let w = self.width as int;
        let d = self.depth as int;
        assert(0 <= j * (w + 1) + i < (w + 1) * (d + 1)) by (nonlinear_arith)
            requires
                0 <= i <= w,
                0 <= j <= d,
        ;
    }

    /// World coordinates of grid point `(0, 0)` of chunk `(chunk_x, chunk_z)`; an error when
    /// a coordinate that the chunk samples would leave the `i32` range.
    pub fn chunk_origin(&self, chunk_x: i32, chunk_z: i32) -> (r: Result<ChunkOrigin, GenError>)
        requires
            self.wf(),
        ensures
            r is Ok <==> (chunk_axis_fits(chunk_x as int, self.width as int) && chunk_axis_fits(
                chunk_z as int,
                self.depth as int,
            )),
            r is Err ==> r->Err_0 == GenError::CoordinateOverflow,
            r is Ok ==> r->Ok_0.x == chunk_x * self.width && r->Ok_0.z == chunk_z * self.depth
                && self.origin_fits(r->Ok_0),
    {
        let w = self.width as i64;
        let d = self.depth as i64;
        assert(-0x8000_0000 * 0xffff_ffff <= chunk_x * w <= 0x7fff_ffff * 0xffff_ffff)
            by (nonlinear_arith)
            requires
                -0x8000_0000 <= chunk_x <= 0x7fff_ffff,
                0 <= w <= 0xffff_ffff,
        ;
        assert(-0x8000_0000 * 0xffff_ffff <= chunk_z * d <= 0x7fff_ffff * 0xffff_ffff)
            by (nonlinear_arith)
            requires
                -0x8000_0000 <= chunk_z <= 0x7fff_ffff,
                0 <= d <= 0xffff_ffff,
        ;
        let ox = chunk_x as i64 * w;
        let oz = chunk_z as i64 * d;
        if ox - 1 < i32::MIN as i64 || ox + w + 1 > i32::MAX as i64 {
            return Err(GenError::CoordinateOverflow);
        }
        if oz - 1 < i32::MIN as i64 || oz + d + 1 > i32::MAX as i64 {
            return Err(GenError::CoordinateOverflow);
        }
        Ok(ChunkOrigin { x: ox as i32, z: oz as i32 })
    }
}

} // verus!
