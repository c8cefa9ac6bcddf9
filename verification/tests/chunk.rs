use greedy_meshing::chunk::{BlockKind, Chunk, IndexOutOfRange, Voxel};
use greedy_meshing::grid::GridPos;
use greedy_meshing::vector::HalfPoint;

fn in_unit_cubes(points: &[HalfPoint]) -> Vec<[f32; 3]> {
    points
        .iter()
        .map(|p| [p.x as f32 * 0.5, p.y as f32 * 0.5, p.z as f32 * 0.5])
        .collect()
}

fn rebuild_index(size: usize, p: GridPos) -> usize {
    p.z as usize * size * size + p.y as usize * size + p.x as usize
}

#[test]
fn chunk_naive_mesh_simple() {
    let size = 1;
    let chunk = Chunk::new(size);
    let chunk_mesh = chunk.generate_naive_mesh();

    let vertices_count = chunk_mesh.count_vertices();
    let indices = &chunk_mesh.indices;

    assert_eq!(vertices_count, 24);
    assert_eq!(indices.len(), 36);

    let expected_vertices: Vec<[f32; 3]> = vec![
        // top (facing towards +y)
        [-0.5, 0.5, -0.5], // vertex with index 0
        [0.5, 0.5, -0.5],  // vertex with index 1
        [0.5, 0.5, 0.5],   // etc. until 23
        [-0.5, 0.5, 0.5],
        // bottom   (-y)
        [-0.5, -0.5, -0.5],
        [0.5, -0.5, -0.5],
        [0.5, -0.5, 0.5],
        [-0.5, -0.5, 0.5],
        // right    (+x)
        [0.5, -0.5, -0.5],
        [0.5, -0.5, 0.5],
        [0.5, 0.5, 0.5], // same place as the vertex with index 2, with another normal
        [0.5, 0.5, -0.5],
        // left     (-x)
        [-0.5, -0.5, -0.5],
        [-0.5, -0.5, 0.5],
        [-0.5, 0.5, 0.5],
        [-0.5, 0.5, -0.5],
        // back     (+z)
        [-0.5, -0.5, 0.5],
        [-0.5, 0.5, 0.5],
        [0.5, 0.5, 0.5],
        [0.5, -0.5, 0.5],
        // forward  (-z)
        [-0.5, -0.5, -0.5],
        [-0.5, 0.5, -0.5],
        [0.5, 0.5, -0.5],
        [0.5, -0.5, -0.5],
    ];

    let vertices = in_unit_cubes(&chunk_mesh.positions);

    let expected_indices: Vec<u32> = vec![
        0, 3, 1, 1, 3, 2, // triangles making up the top (+y) facing side.
        4, 5, 7, 5, 6, 7, // bottom (-y)
        8, 11, 9, 9, 11, 10, // right (+x)
        12, 13, 15, 13, 14, 15, // left (-x)
        16, 19, 17, 17, 19, 18, // back (+z)
        20, 21, 23, 21, 22, 23, // forward (-z)
    ];

    assert_eq!(&vertices, &expected_vertices);
    assert_eq!(indices, &expected_indices);
}

#[test]
fn new_chunk_is_full_of_rock() {
    let chunk = Chunk::new(3);
    assert_eq!(chunk.size, 3);
    assert_eq!(chunk.size_squared, 9);
    assert_eq!(chunk.voxels.len(), 27);
    assert!(chunk.voxels.iter().all(|v| v.kind() == BlockKind::Rock));
}

#[test]
fn new_chunk_of_edge_zero_is_empty() {
    let chunk = Chunk::new(0);
    assert_eq!(chunk.size, 0);
    assert_eq!(chunk.voxels.len(), 0);
    let mesh = chunk.generate_naive_mesh();
    assert_eq!(mesh.count_vertices(), 0);
    assert!(mesh.positions.is_empty());
    assert!(mesh.normals.is_empty());
    assert!(mesh.indices.is_empty());
}

#[test]
fn voxel_keeps_its_kind() {
    assert_eq!(Voxel::new(BlockKind::Air).kind(), BlockKind::Air);
    assert_eq!(Voxel::new(BlockKind::Rock).kind(), BlockKind::Rock);
}

#[test]
fn index_to_position_x_fastest_then_y_then_z() {
    let chunk = Chunk::new(3);
    assert_eq!(chunk.index_to_position(0), GridPos { x: 0, y: 0, z: 0 });
    assert_eq!(chunk.index_to_position(1), GridPos { x: 1, y: 0, z: 0 });
    assert_eq!(chunk.index_to_position(2), GridPos { x: 2, y: 0, z: 0 });
    assert_eq!(chunk.index_to_position(3), GridPos { x: 0, y: 1, z: 0 });
    assert_eq!(chunk.index_to_position(8), GridPos { x: 2, y: 2, z: 0 });
    assert_eq!(chunk.index_to_position(9), GridPos { x: 0, y: 0, z: 1 });
    assert_eq!(chunk.index_to_position(14), GridPos { x: 2, y: 1, z: 1 });
    assert_eq!(chunk.index_to_position(26), GridPos { x: 2, y: 2, z: 2 });
}

#[test]
fn index_to_position_single_voxel() {
    let chunk = Chunk::new(1);
    assert_eq!(chunk.index_to_position(0), GridPos { x: 0, y: 0, z: 0 });
}

#[test]
fn index_to_position_round_trips() {
    for size in 1..6usize {
        let chunk = Chunk::new(size);
        for i in 0..size * size * size {
            let p = chunk.index_to_position(i);
            assert!((p.x as usize) < size && (p.y as usize) < size && (p.z as usize) < size);
            assert_eq!(rebuild_index(size, p), i);
        }
    }
}

#[test]
fn index_to_position_is_one_to_one_and_onto() {
    let size = 4usize;
    let chunk = Chunk::new(size);
    let mut seen = vec![false; size * size * size];
    for i in 0..size * size * size {
        let p = chunk.index_to_position(i);
        let slot = rebuild_index(size, p);
        assert!(!seen[slot]);
        seen[slot] = true;
    }
    assert!(seen.iter().all(|s| *s));
}

#[test]
fn checked_index_to_position_accepts_offsets_of_the_grid() {
    let chunk = Chunk::new(3);
    assert_eq!(chunk.checked_index_to_position(0), Ok(GridPos { x: 0, y: 0, z: 0 }));
    assert_eq!(chunk.checked_index_to_position(14), Ok(GridPos { x: 2, y: 1, z: 1 }));
    assert_eq!(chunk.checked_index_to_position(26), Ok(GridPos { x: 2, y: 2, z: 2 }));
}

#[test]
fn checked_index_to_position_rejects_offsets_past_the_grid() {
    let chunk = Chunk::new(3);
    assert_eq!(
        chunk.checked_index_to_position(27),
        Err(IndexOutOfRange { index: 27, voxels: 27 })
    );
    assert_eq!(
        chunk.checked_index_to_position(usize::MAX),
        Err(IndexOutOfRange { index: usize::MAX, voxels: 27 })
    );
    let empty = Chunk::new(0);
    assert_eq!(
        empty.checked_index_to_position(0),
        Err(IndexOutOfRange { index: 0, voxels: 0 })
    );
}
