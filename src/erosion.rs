use vstd::prelude::*;
use crate::grid::GridDims;

verus! {

/// Droplet traces per ten grid cells: 1.2 traces per cell.
pub const DROPS_PER_TEN_CELLS: u64 = 12;

/// Radius, in cells, of the erosion kernel around a droplet's cell.
pub const KERNEL_RADIUS: u32 = 2;

/// Side of the square erosion kernel, `2 * KERNEL_RADIUS + 1`.
pub const KERNEL_SIDE: u32 = 5;

/// The number of droplet traces run over a chunk: `floor(1.2 * width * depth)`.
pub fn drop_count(dims: &GridDims) -> (r: u64)
    requires
        dims.wf(),
    ensures
        r == dims.width * dims.depth * DROPS_PER_TEN_CELLS / 10,
{
    proof {
        dims.lemma_wf_bounds();
    }
    dims.width as u64 * dims.depth as u64 * DROPS_PER_TEN_CELLS / 10
}

/// Row-major positions of the four grid points around a cell.
#[derive(Clone, Copy, Debug, PartialEq, Eq, Structural)]
pub struct CellCorners {
    pub top_left: u32,
    pub top_right: u32,
    pub bottom_left: u32,
    pub bottom_right: u32,
}

/// The four corners of cell `(cell_x, cell_z)`, the points that bilinear interpolation reads
/// and a deposit is spread over; `None` when the cell is not in the grid.
pub fn cell_corners(dims: &GridDims, cell_x: u32, cell_z: u32) -> (r: Option<CellCorners>)
    requires
        dims.wf(),
    ensures
        r is Some <==> cell_x < dims.width && cell_z < dims.depth,
        r is Some ==> r->0 == (CellCorners {
            top_left: dims.flat(cell_x as int, cell_z as int) as u32,
            top_right: dims.flat(cell_x + 1, cell_z as int) as u32,
            bottom_left: dims.flat(cell_x as int, cell_z + 1) as u32,
            bottom_right: dims.flat(cell_x + 1, cell_z + 1) as u32,
        }),
{
    if cell_x >= dims.width || cell_z >= dims.depth {
        return None;
    }
    Some(
        CellCorners {
            top_left: dims.point_index(cell_x, cell_z),
            top_right: dims.point_index(cell_x + 1, cell_z),
            bottom_left: dims.point_index(cell_x, cell_z + 1),
            bottom_right: dims.point_index(cell_x + 1, cell_z + 1),
        },
    )
}

/// Whether the whole erosion kernel around grid point `(center_x, center_z)` lies in the grid.
pub open spec fn kernel_fits(dims: GridDims, center_x: int, center_z: int) -> bool {
    &&& KERNEL_RADIUS <= center_x && center_x + KERNEL_RADIUS <= dims.width
    &&& KERNEL_RADIUS <= center_z && center_z + KERNEL_RADIUS <= dims.depth
}

/// The grid points under the erosion kernel centred on grid point `(center_x, center_z)`,
/// in the kernel's row-major order: entry `dz * KERNEL_SIDE + dx` is the point
/// `(center_x + dx - KERNEL_RADIUS, center_z + dz - KERNEL_RADIUS)`. `None` when part of
/// the kernel would leave the grid.
pub fn kernel_cells(dims: &GridDims, center_x: u32, center_z: u32) -> (r: Option<Vec<u32>>)
    requires
        dims.wf(),
    ensures
        r is Some <==> kernel_fits(*dims, center_x as int, center_z as int),
        r is Some ==> r->0@.len() == KERNEL_SIDE * KERNEL_SIDE,
        r is Some ==> forall|dz: int, dx: int|
            0 <= dz < KERNEL_SIDE && 0 <= dx < KERNEL_SIDE ==> #[trigger] r->0@[dz * KERNEL_SIDE
                + dx] == dims.flat(center_x + dx - KERNEL_RADIUS, center_z + dz - KERNEL_RADIUS),
{
    if center_x < KERNEL_RADIUS || center_x as u64 + KERNEL_RADIUS as u64 > dims.width as u64
        || center_z < KERNEL_RADIUS || center_z as u64 + KERNEL_RADIUS as u64 > dims.depth as u64 {
        return None;
    }
    let mut cells: Vec<u32> = Vec::new();
    let mut dz: u32 = 0;
    while dz < KERNEL_SIDE
        invariant
            dims.wf(),
            kernel_fits(*dims, center_x as int, center_z as int),
            dz <= KERNEL_SIDE,
            cells@.len() == dz * KERNEL_SIDE,
            forall|pz: int, px: int|
                0 <= pz < dz && 0 <= px < KERNEL_SIDE ==> #[trigger] cells@[pz * KERNEL_SIDE + px]
                    == dims.flat(center_x + px - KERNEL_RADIUS, center_z + pz - KERNEL_RADIUS),
        decreases KERNEL_SIDE - dz,
    {
        let mut dx: u32 = 0;
        while dx < KERNEL_SIDE
            invariant
                dims.wf(),
                kernel_fits(*dims, center_x as int, center_z as int),
                dz < KERNEL_SIDE,
                dx <= KERNEL_SIDE,
                cells@.len() == dz * KERNEL_SIDE + dx,
                forall|pz: int, px: int|
                    0 <= pz < dz && 0 <= px < KERNEL_SIDE ==> #[trigger] cells@[pz * KERNEL_SIDE
                        + px] == dims.flat(center_x + px - KERNEL_RADIUS, center_z + pz - KERNEL_RADIUS),
                forall|px: int|
                    0 <= px < dx ==> #[trigger] cells@[dz * KERNEL_SIDE + px] == dims.flat(
                        center_x + px - KERNEL_RADIUS,
                        center_z + dz - KERNEL_RADIUS,
                    ),
            decreases KERNEL_SIDE - dx,
        {
            let idx = dims.point_index(center_x - KERNEL_RADIUS + dx, center_z - KERNEL_RADIUS + dz);
            cells.push(idx);
            dx = dx + 1;
        }
        dz = dz + 1;
    }
    Some(cells)
}

} // verus!
