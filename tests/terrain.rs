use terrain_chunk::color::{check_regions, color_regions, ColorRegion, Rgb};
use terrain_chunk::erosion::{cell_corners, drop_count, kernel_cells, CellCorners};
use terrain_chunk::generator::TerrainGenerator;
use terrain_chunk::grid::{ChunkOrigin, GenError, GridDims};
use terrain_chunk::mesh::{gen_indices, neighbor_source, normal_stencil, vertex_world_coords, HeightSource};
use terrain_chunk::seed::ChunkSeedKey;

fn full() -> GridDims {
    GridDims::new(1024, 1024).unwrap()
}

fn small() -> GridDims {
    GridDims::new(3, 2).unwrap()
}

#[test]
fn dims_accept_and_reject() {
    assert_eq!(GridDims::new(1024, 1024), Some(GridDims { width: 1024, depth: 1024 }));
    assert_eq!(GridDims::new(1, 1), Some(GridDims { width: 1, depth: 1 }));
    assert_eq!(GridDims::new(0, 4), None);
    assert_eq!(GridDims::new(4, 0), None);
    assert_eq!(GridDims::new(65535, 65535), None);
    assert_eq!(GridDims::new(u32::MAX, 1), None);
}

#[test]
fn dims_counts() {
    let d = full();
    assert_eq!(d.point_count(), 1025 * 1025);
    assert_eq!(d.index_count(), 1024 * 1024 * 6);
    assert_eq!(d.point_index(0, 0), 0);
    assert_eq!(d.point_index(1024, 0), 1024);
    assert_eq!(d.point_index(0, 1), 1025);
    assert_eq!(d.point_index(1024, 1024), 1025 * 1025 - 1);
}

#[test]
fn index_buffer_small_grid() {
    let idx = gen_indices(&small());
    let expected: Vec<u32> = vec![
        0, 4, 1, 4, 5, 1, //
        1, 5, 2, 5, 6, 2, //
        2, 6, 3, 6, 7, 3, //
        4, 8, 5, 8, 9, 5, //
        5, 9, 6, 9, 10, 6, //
        6, 10, 7, 10, 11, 7,
    ];
    assert_eq!(idx, expected);
}

#[test]
fn index_buffer_full_chunk() {
    let d = full();
    let idx = gen_indices(&d);
    assert_eq!(idx.len(), 1024 * 1024 * 6);
    assert_eq!(&idx[0..6], &[0, 1025, 1, 1025, 1026, 1]);
    assert_eq!(&idx[6..12], &[1, 1026, 2, 1026, 1027, 2]);
    // First cell of the second row.
    assert_eq!(&idx[1024 * 6..1024 * 6 + 6], &[1025, 2050, 1026, 2050, 2051, 1026]);
    let points = d.point_count();
    assert!(idx.iter().all(|&v| v < points));
    assert_eq!(*idx.iter().max().unwrap(), points - 1);
}

#[test]
fn index_buffer_single_cell() {
    let idx = gen_indices(&GridDims::new(1, 1).unwrap());
    assert_eq!(idx, vec![0, 2, 1, 2, 3, 1]);
}

#[test]
fn chunk_origin_values() {
    let d = full();
    assert_eq!(d.chunk_origin(0, 0), Ok(ChunkOrigin { x: 0, z: 0 }));
    assert_eq!(d.chunk_origin(1, 0), Ok(ChunkOrigin { x: 1024, z: 0 }));
    assert_eq!(d.chunk_origin(-1, 3), Ok(ChunkOrigin { x: -1024, z: 3072 }));
}

#[test]
fn chunk_origin_overflow_edges() {
    let d = full();
    assert_eq!(d.chunk_origin(2_097_150, 0), Ok(ChunkOrigin { x: 2_097_150 * 1024, z: 0 }));
    assert_eq!(d.chunk_origin(2_097_151, 0), Err(GenError::CoordinateOverflow));
    assert_eq!(d.chunk_origin(-2_097_151, 0), Ok(ChunkOrigin { x: -2_097_151 * 1024, z: 0 }));
    assert_eq!(d.chunk_origin(-2_097_152, 0), Err(GenError::CoordinateOverflow));
    assert_eq!(d.chunk_origin(0, i32::MAX), Err(GenError::CoordinateOverflow));
    assert_eq!(d.chunk_origin(i32::MIN, 0), Err(GenError::CoordinateOverflow));
}

#[test]
fn stencil_inside_and_at_edges() {
    let d = small();
    let o = d.chunk_origin(2, -1).unwrap();
    assert_eq!(o, ChunkOrigin { x: 6, z: -2 });
    let s = normal_stencil(&d, &o, 1, 1);
    assert_eq!(s.left, HeightSource::Grid(4));
    assert_eq!(s.right, HeightSource::Grid(6));
    assert_eq!(s.top, HeightSource::Grid(1));
    assert_eq!(s.bottom, HeightSource::Grid(9));
    assert_eq!(s.top_left, HeightSource::Grid(0));
    assert_eq!(s.bottom_right, HeightSource::Grid(10));
    let c = normal_stencil(&d, &o, 0, 0);
    assert_eq!(c.left, HeightSource::Noise(5, -2));
    assert_eq!(c.top, HeightSource::Noise(6, -3));
    assert_eq!(c.top_left, HeightSource::Noise(5, -3));
    assert_eq!(c.right, HeightSource::Grid(1));
    assert_eq!(c.bottom_right, HeightSource::Grid(5));
    let e = normal_stencil(&d, &o, 3, 2);
    assert_eq!(e.right, HeightSource::Noise(10, 0));
    assert_eq!(e.bottom, HeightSource::Noise(9, 1));
    assert_eq!(e.bottom_right, HeightSource::Noise(10, 1));
    assert_eq!(e.top_left, HeightSource::Grid(6));
    assert_eq!(neighbor_source(&d, &o, 3, 0, 1, -1), HeightSource::Noise(10, -3));
}

#[test]
fn shared_edge_between_neighbour_chunks() {
    let d = full();
    let a = d.chunk_origin(0, 0).unwrap();
    let b = d.chunk_origin(1, 0).unwrap();
    for j in [0u32, 17, 1024] {
        assert_eq!(vertex_world_coords(&d, &a, 1024, j), vertex_world_coords(&d, &b, 0, j));
        let (wx, wz) = vertex_world_coords(&d, &b, 1, j);
        assert_eq!(neighbor_source(&d, &a, 1024, j, 1, 0), HeightSource::Noise(wx, wz));
        let (lx, lz) = vertex_world_coords(&d, &a, 1023, j);
        assert_eq!(neighbor_source(&d, &b, 0, j, -1, 0), HeightSource::Noise(lx, lz));
    }
    let c = d.chunk_origin(0, 1).unwrap();
    let (wx, wz) = vertex_world_coords(&d, &c, 5, 1);
    assert_eq!(neighbor_source(&d, &a, 5, 1024, 0, 1), HeightSource::Noise(wx, wz));
}

#[test]
fn vertex_coords() {
    let d = full();
    let o = d.chunk_origin(-2, 1).unwrap();
    assert_eq!(vertex_world_coords(&d, &o, 0, 0), (-2048, 1024));
    assert_eq!(vertex_world_coords(&d, &o, 1024, 1024), (-1024, 2048));
}

#[test]
fn stream_seed_known_values() {
    let k = ChunkSeedKey { global_seed: 42, chunk_x: 0, chunk_z: 0 };
    assert_eq!(k.stream_seed(), 0x810879608e4259cc);
    let k = ChunkSeedKey { global_seed: 42, chunk_x: 1, chunk_z: 0 };
    assert_eq!(k.stream_seed(), 0x76073e176cd3ef40);
    let k = ChunkSeedKey { global_seed: 43, chunk_x: 0, chunk_z: 0 };
    assert_eq!(k.stream_seed(), 0x203ea4c5049ad615);
    let k = ChunkSeedKey { global_seed: 0, chunk_x: -1, chunk_z: -1 };
    assert_eq!(k.stream_seed(), 0xd314d4f7bbe9a09e);
    let k = ChunkSeedKey { global_seed: 7, chunk_x: -3, chunk_z: 5 };
    assert_eq!(k.stream_seed(), 0x526aa33066ae3360);
}

#[test]
fn stream_seed_is_deterministic() {
    let g1 = TerrainGenerator::with_seed(full(), 42);
    let g2 = TerrainGenerator::with_seed(full(), 42);
    assert_eq!(g1.plan_chunk(3, -7), g2.plan_chunk(3, -7));
    let k = g1.chunk_key(3, -7);
    assert_eq!(k.stream_seed(), k.stream_seed());
}

#[test]
fn stream_seed_depends_on_seed() {
    for s in 0u32..64 {
        let a = ChunkSeedKey { global_seed: s, chunk_x: 0, chunk_z: 0 }.stream_seed();
        let b = ChunkSeedKey { global_seed: s + 1, chunk_x: 0, chunk_z: 0 }.stream_seed();
        assert_ne!(a, b);
    }
}

#[test]
fn stream_seed_depends_on_chunk() {
    let base = ChunkSeedKey { global_seed: 42, chunk_x: 0, chunk_z: 0 }.stream_seed();
    for (x, z) in [(1, 0), (0, 1), (-1, 0), (0, -1), (1, 1)] {
        let other = ChunkSeedKey { global_seed: 42, chunk_x: x, chunk_z: z }.stream_seed();
        assert_ne!(base, other);
    }
}

#[test]
fn generator_seed_and_plan() {
    let mut g = TerrainGenerator::new(full());
    assert_eq!(g.seed(), 0);
    g.set_seed(42);
    assert_eq!(g.seed(), 42);
    assert_eq!(g.dims, full());
    let p = g.plan_chunk(1, 0).unwrap();
    assert_eq!(p.key, ChunkSeedKey { global_seed: 42, chunk_x: 1, chunk_z: 0 });
    assert_eq!(p.origin, ChunkOrigin { x: 1024, z: 0 });
    assert_eq!(p.stream_seed, 0x76073e176cd3ef40);
    assert_eq!(p.drops, 1_258_291);
    assert_eq!(g.plan_chunk(i32::MAX, 0), Err(GenError::CoordinateOverflow));
}

#[test]
fn drop_counts() {
    assert_eq!(drop_count(&full()), 1_258_291);
    assert_eq!(drop_count(&small()), 7);
    assert_eq!(drop_count(&GridDims::new(10, 10).unwrap()), 120);
}

#[test]
fn cell_corner_positions() {
    let d = small();
    assert_eq!(
        cell_corners(&d, 0, 0),
        Some(CellCorners { top_left: 0, top_right: 1, bottom_left: 4, bottom_right: 5 })
    );
    assert_eq!(
        cell_corners(&d, 2, 1),
        Some(CellCorners { top_left: 6, top_right: 7, bottom_left: 10, bottom_right: 11 })
    );
    assert_eq!(cell_corners(&d, 3, 0), None);
    assert_eq!(cell_corners(&d, 0, 2), None);
}

#[test]
fn kernel_positions() {
    let d = GridDims::new(4, 4).unwrap();
    let k = kernel_cells(&d, 2, 2).unwrap();
    let expected: Vec<u32> = (0..5u32).flat_map(|z| (0..5u32).map(move |x| z * 5 + x)).collect();
    assert_eq!(k, expected);
    assert_eq!(kernel_cells(&d, 1, 2), None);
    assert_eq!(kernel_cells(&d, 2, 3), None);
    let big = full();
    let k = kernel_cells(&big, 10, 20).unwrap();
    assert_eq!(k[0], 18 * 1025 + 8);
    assert_eq!(k[12], 20 * 1025 + 10);
    assert_eq!(k[24], 22 * 1025 + 12);
    assert!(kernel_cells(&big, 1022, 1022).is_some());
    assert_eq!(kernel_cells(&big, 1023, 1022), None);
}

#[test]
fn terrain_color_table() {
    let t = color_regions();
    assert_eq!(t.len(), 7);
    assert_eq!(t[0].max_height_milli, 93);
    assert_eq!(t[0].color, Rgb { r: 201, g: 178, b: 99 });
    assert_eq!(t[6].max_height_milli, 1000);
    assert_eq!(t[6].color, Rgb { r: 235, g: 236, b: 240 });
    assert!(check_regions(&t));
}

#[test]
fn color_table_rejections() {
    let band = |h: u16, blend: u16| ColorRegion {
        max_height_milli: h,
        color: Rgb { r: 1, g: 2, b: 3 },
        blend_milli: blend,
    };
    assert!(!check_regions(&vec![]));
    assert!(check_regions(&vec![band(1000, 1000)]));
    assert!(!check_regions(&vec![band(999, 1000)]));
    assert!(!check_regions(&vec![band(500, 600), band(500, 600), band(1000, 1000)]));
    assert!(!check_regions(&vec![band(600, 600), band(500, 600), band(1000, 1000)]));
    assert!(!check_regions(&vec![band(500, 0), band(1000, 1000)]));
    assert!(!check_regions(&vec![band(500, 600), band(1000, 1001)]));
    assert!(check_regions(&vec![band(500, 600), band(1200, 1)]));
}
