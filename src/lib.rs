//! The integer side of deterministic terrain-chunk synthesis: chunk sizes and world
//! coordinates, the per-chunk random-stream seed, the sources of the heights a normal is
//! estimated from, the grid positions that droplet erosion reads and writes, the number of
//! droplet traces, the colour-band table and the triangle index buffer.
pub mod color;
pub mod erosion;
pub mod generator;
pub mod grid;
pub mod mesh;
pub mod seed;
