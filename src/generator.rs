use vstd::prelude::*;
use crate::erosion::{drop_count, DROPS_PER_TEN_CELLS};
use crate::grid::{chunk_axis_fits, ChunkOrigin, GenError, GridDims};
use crate::seed::{stream_seed_of, ChunkSeedKey};

verus! {

/// Terrain generation settings: the global seed and the chunk size.
#[derive(Clone, Copy, Debug, PartialEq, Eq, Structural)]
pub struct TerrainGenerator {
    pub global_seed: u32,
    pub dims: GridDims,
}

/// Everything about one chunk that integer arithmetic decides before any height is sampled.
#[derive(Clone, Copy, Debug, PartialEq, Eq, Structural)]
pub struct ChunkPlan {
    /// The inputs of the chunk's random stream.
    pub key: ChunkSeedKey,
    /// World coordinates of the chunk's grid point `(0, 0)`.
    pub origin: ChunkOrigin,
    /// The seed of the chunk's random stream.
    pub stream_seed: u64,
    /// How many droplet traces erode the chunk.
    pub drops: u64,
}

/// `p` is the plan of chunk `(chunk_x, chunk_z)` under generator `g`.
pub open spec fn is_plan_of(g: TerrainGenerator, chunk_x: i32, chunk_z: i32, p: ChunkPlan) -> bool {
    &&& p.key == (ChunkSeedKey { global_seed: g.global_seed, chunk_x, chunk_z })
    &&& p.origin.x == chunk_x * g.dims.width
    &&& p.origin.z == chunk_z * g.dims.depth
    &&& g.dims.origin_fits(p.origin)
    &&& p.stream_seed == stream_seed_of(p.key)
    &&& p.drops == g.dims.width * g.dims.depth * DROPS_PER_TEN_CELLS / 10
}

/// Determinism: the same seed, size and chunk coordinates always give the same plan, so
/// two generations of one chunk draw the same random stream and run the same traces.
pub proof fn lemma_plan_deterministic(
    g: TerrainGenerator,
    chunk_x: i32,
    chunk_z: i32,
    p: ChunkPlan,
    q: ChunkPlan,
)
    requires
        is_plan_of(g, chunk_x, chunk_z, p),
        is_plan_of(g, chunk_x, chunk_z, q),
    ensures
        p == q,
{
}

impl TerrainGenerator {
    /// A generator for chunks of the given size, with the default global seed 0.
    pub fn new(dims: GridDims) -> (r: TerrainGenerator)
        ensures
            r.global_seed == 0,
            r.dims == dims,
    {
        TerrainGenerator { global_seed: 0, dims }
    }

    /// A generator for chunks of the given size and the given global seed.
    pub fn with_seed(dims: GridDims, global_seed: u32) -> (r: TerrainGenerator)
        ensures
            r.global_seed == global_seed,
            r.dims == dims,
    {
        TerrainGenerator { global_seed, dims }
    }

    /// Replaces the global seed that later chunks derive their randomness from.
    pub fn set_seed(&mut self, new_seed: u32)
        ensures
            final(self).global_seed == new_seed,
            final(self).dims == old(self).dims,
    {
        self.global_seed = new_seed;
    }

    /// The global seed.
    pub fn seed(&self) -> (r: u32)
        ensures
            r == self.global_seed,
    {
        self.global_seed
    }

    /// The inputs of the random stream of chunk `(chunk_x, chunk_z)`.
    pub fn chunk_key(&self, chunk_x: i32, chunk_z: i32) -> (r: ChunkSeedKey)
        ensures
            r == (ChunkSeedKey { global_seed: self.global_seed, chunk_x, chunk_z }),
    {
        ChunkSeedKey { global_seed: self.global_seed, chunk_x, chunk_z }
    }

    /// The plan of chunk `(chunk_x, chunk_z)`: its key, origin, stream seed and number of
    /// droplet traces; an error when its world coordinates would overflow `i32`.
    pub fn plan_chunk(&self, chunk_x: i32, chunk_z: i32) -> (r: Result<ChunkPlan, GenError>)
        requires
            self.dims.wf(),
        ensures
            r is Ok <==> (chunk_axis_fits(chunk_x as int, self.dims.width as int)
                && chunk_axis_fits(chunk_z as int, self.dims.depth as int)),
            r is Err ==> r->Err_0 == GenError::CoordinateOverflow,
            r is Ok ==> is_plan_of(*self, chunk_x, chunk_z, r->Ok_0),
    {
        let origin = match self.dims.chunk_origin(chunk_x, chunk_z) {
            Ok(o) => o,
            Err(e) => {
                return Err(e);
            },
        };
        let key = self.chunk_key(chunk_x, chunk_z);
        let stream_seed = key.stream_seed();
        let drops = drop_count(&self.dims);
        Ok(ChunkPlan { key, origin, stream_seed, drops })
    }
}

} // verus!
