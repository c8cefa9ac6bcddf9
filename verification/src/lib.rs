//! Naive voxel meshing: one independent unit cube per voxel of a cubic chunk.
//!
//! A [`Chunk`] is a cubic grid of voxels. [`generate_naive_mesh`] turns it
//! into three parallel buffers (vertex positions, vertex normals, triangle
//! indices) by emitting a full cube for every voxel, without looking at the
//! voxel's kind or at its neighbours.
//!
//! All coordinates are integers. Positions are counted in half voxel edges,
//! so that the corners of a cube centred on a grid cell are exact; a renderer
//! that wants unit cubes halves them.

pub mod chunk;
pub mod face;
pub mod grid;
pub mod mesh;
pub mod vector;

pub use chunk::{BlockKind, Chunk, IndexOutOfRange, Voxel};
pub use grid::GridPos;
pub use mesh::{create_cube_vertices_at, generate_naive_mesh, FaceDirection, MeshBuffer};
pub use vector::{HalfPoint, Normal};
