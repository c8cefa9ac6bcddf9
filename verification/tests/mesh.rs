use greedy_meshing::chunk::{BlockKind, Chunk, Voxel};
use greedy_meshing::grid::GridPos;
use greedy_meshing::mesh::{
    create_cube_vertices_at, generate_naive_mesh, FaceDirection, MeshBuffer,
};
use greedy_meshing::vector::{HalfPoint, Normal};

fn hp(x: i64, y: i64, z: i64) -> HalfPoint {
    HalfPoint { x, y, z }
}

fn same_buffers(a: &MeshBuffer, b: &MeshBuffer) -> bool {
    a.positions == b.positions && a.normals == b.normals && a.indices == b.indices
}

#[test]
fn indice_gen() {
    let expected_indices = vec![
        0, 3, 1, 1, 3, 2, // triangles making up the top (+y) facing side.
        4, 5, 7, 5, 6, 7, // bottom (-y)
        8, 11, 9, 9, 11, 10, // right (+x)
        12, 13, 15, 13, 14, 15, // left (-x)
        16, 19, 17, 17, 19, 18, // back (+z)
        20, 21, 23, 21, 22, 23, // forward (-z)
    ];
    let indices: Vec<usize> = FaceDirection::all()
        .into_iter()
        .enumerate()
        .flat_map(|(i, f)| f.indices(i))
        .collect();

    assert_eq!(indices, expected_indices);
}

#[test]
fn faces_come_in_emission_order() {
    assert_eq!(
        FaceDirection::all(),
        [
            FaceDirection::Top,
            FaceDirection::Bottom,
            FaceDirection::Right,
            FaceDirection::Left,
            FaceDirection::Back,
            FaceDirection::Forward,
        ]
    );
    for (i, f) in FaceDirection::all().into_iter().enumerate() {
        assert_eq!(f.ordinal(), i);
    }
}

#[test]
fn face_vertices_match_the_tables() {
    assert_eq!(
        FaceDirection::Top.vertices(),
        [hp(-1, 1, -1), hp(1, 1, -1), hp(1, 1, 1), hp(-1, 1, 1)]
    );
    assert_eq!(
        FaceDirection::Bottom.vertices(),
        [hp(-1, -1, -1), hp(1, -1, -1), hp(1, -1, 1), hp(-1, -1, 1)]
    );
    assert_eq!(
        FaceDirection::Right.vertices(),
        [hp(1, -1, -1), hp(1, -1, 1), hp(1, 1, 1), hp(1, 1, -1)]
    );
    assert_eq!(
        FaceDirection::Left.vertices(),
        [hp(-1, -1, -1), hp(-1, -1, 1), hp(-1, 1, 1), hp(-1, 1, -1)]
    );
    assert_eq!(
        FaceDirection::Back.vertices(),
        [hp(-1, -1, 1), hp(-1, 1, 1), hp(1, 1, 1), hp(1, -1, 1)]
    );
    assert_eq!(
        FaceDirection::Forward.vertices(),
        [hp(-1, -1, -1), hp(-1, 1, -1), hp(1, 1, -1), hp(1, -1, -1)]
    );
}

#[test]
fn face_normals_point_outward() {
    let expected = [
        (FaceDirection::Top, Normal { x: 0, y: 1, z: 0 }),
        (FaceDirection::Bottom, Normal { x: 0, y: -1, z: 0 }),
        (FaceDirection::Right, Normal { x: 1, y: 0, z: 0 }),
        (FaceDirection::Left, Normal { x: -1, y: 0, z: 0 }),
        (FaceDirection::Back, Normal { x: 0, y: 0, z: 1 }),
        (FaceDirection::Forward, Normal { x: 0, y: 0, z: -1 }),
    ];
    for (face, normal) in expected {
        assert_eq!(face.normals(), [normal; 4]);
        for v in face.vertices() {
            // every corner of the face lies on the side the normal points to
            assert_eq!(v.x * normal.x as i64 + v.y * normal.y as i64 + v.z * normal.z as i64, 1);
        }
    }
}

#[test]
fn face_indices_follow_the_two_windings() {
    assert_eq!(FaceDirection::Top.indices(0), [0, 3, 1, 1, 3, 2]);
    assert_eq!(FaceDirection::Right.indices(2), [8, 11, 9, 9, 11, 10]);
    assert_eq!(FaceDirection::Back.indices(4), [16, 19, 17, 17, 19, 18]);
    assert_eq!(FaceDirection::Bottom.indices(1), [4, 5, 7, 5, 6, 7]);
    assert_eq!(FaceDirection::Left.indices(3), [12, 13, 15, 13, 14, 15]);
    assert_eq!(FaceDirection::Forward.indices(5), [20, 21, 23, 21, 22, 23]);
    // the place is the caller's choice, not the face's own
    assert_eq!(FaceDirection::Top.indices(10), [40, 43, 41, 41, 43, 42]);
}

#[test]
fn triangles_wind_counter_clockwise_seen_from_outside() {
    for (ordinal, face) in FaceDirection::all().into_iter().enumerate() {
        let v = face.vertices();
        let n = face.normals()[0];
        let idx = face.indices(0);
        assert_eq!(face.ordinal(), ordinal);
        for t in 0..2 {
            let a = v[idx[3 * t]];
            let b = v[idx[3 * t + 1]];
            let c = v[idx[3 * t + 2]];
            let (ux, uy, uz) = (b.x - a.x, b.y - a.y, b.z - a.z);
            let (vx, vy, vz) = (c.x - a.x, c.y - a.y, c.z - a.z);
            let cross = (uy * vz - uz * vy, uz * vx - ux * vz, ux * vy - uy * vx);
            assert_eq!(cross, (4 * n.x as i64, 4 * n.y as i64, 4 * n.z as i64));
        }
    }
}

#[test]
fn cube_at_a_cell_is_centred_on_it() {
    let (positions, normals, indices) = create_cube_vertices_at(&GridPos { x: 2, y: 3, z: 4 });
    assert_eq!(positions.len(), 24);
    assert_eq!(normals.len(), 24);
    assert_eq!(indices.len(), 36);
    // top face
    assert_eq!(positions[0], hp(3, 7, 7));
    assert_eq!(positions[1], hp(5, 7, 7));
    assert_eq!(positions[2], hp(5, 7, 9));
    assert_eq!(positions[3], hp(3, 7, 9));
    // last vertex of the forward face
    assert_eq!(positions[23], hp(5, 5, 7));
    assert_eq!(normals[0], Normal { x: 0, y: 1, z: 0 });
    assert_eq!(normals[23], Normal { x: 0, y: 0, z: -1 });
    assert_eq!(
        indices,
        vec![
            0, 3, 1, 1, 3, 2, 4, 5, 7, 5, 6, 7, 8, 11, 9, 9, 11, 10, 12, 13, 15, 13, 14, 15, 16,
            19, 17, 17, 19, 18, 20, 21, 23, 21, 22, 23
        ]
    );
}

#[test]
fn cube_at_the_largest_cell_does_not_overflow() {
    let (positions, _, _) =
        create_cube_vertices_at(&GridPos { x: u32::MAX, y: u32::MAX, z: u32::MAX });
    assert_eq!(positions[2], hp(8589934591, 8589934591, 8589934591));
    assert_eq!(positions[4], hp(8589934589, 8589934589, 8589934589));
}

#[test]
fn cube_normals_are_those_of_the_faces() {
    let (_, normals, _) = create_cube_vertices_at(&GridPos { x: 0, y: 0, z: 0 });
    for (i, f) in FaceDirection::all().into_iter().enumerate() {
        assert_eq!(&normals[4 * i..4 * i + 4], &f.normals());
    }
}

#[test]
fn mesh_has_24_vertices_and_36_indices_for_each_voxel() {
    for size in 0..5usize {
        let chunk = Chunk::new(size);
        let mesh = chunk.generate_naive_mesh();
        let voxels = size * size * size;
        assert_eq!(mesh.positions.len(), 24 * voxels);
        assert_eq!(mesh.normals.len(), 24 * voxels);
        assert_eq!(mesh.indices.len(), 36 * voxels);
        assert_eq!(mesh.count_vertices(), 24 * voxels);
    }
}

#[test]
fn mesh_indices_name_vertices_of_the_mesh() {
    let chunk = Chunk::new(3);
    let mesh = chunk.generate_naive_mesh();
    assert_eq!(mesh.indices.len() % 3, 0);
    assert!(mesh.indices.iter().all(|k| (*k as usize) < mesh.positions.len()));
    // the indices of a cube stay within the vertices of that cube
    for (j, k) in mesh.indices.iter().enumerate() {
        assert_eq!(*k as usize / 24, j / 36);
    }
}

#[test]
fn mesh_indices_are_moved_past_the_cubes_before() {
    let chunk = Chunk::new(2);
    let mesh = chunk.generate_naive_mesh();
    assert_eq!(&mesh.indices[0..6], &[0, 3, 1, 1, 3, 2]);
    assert_eq!(&mesh.indices[36..42], &[24, 27, 25, 25, 27, 26]);
    assert_eq!(&mesh.indices[42..48], &[28, 29, 31, 29, 30, 31]);
    assert_eq!(&mesh.indices[7 * 36..7 * 36 + 6], &[168, 171, 169, 169, 171, 170]);
    assert_eq!(mesh.indices[8 * 36 - 1], 191);
}

#[test]
fn mesh_normals_are_unit_axis_vectors() {
    let chunk = Chunk::new(2);
    let mesh = chunk.generate_naive_mesh();
    for n in mesh.normals.iter() {
        let nonzero = [n.x, n.y, n.z].iter().filter(|c| **c != 0).count();
        assert_eq!(nonzero, 1);
        assert_eq!(n.x as i32 * n.x as i32 + n.y as i32 * n.y as i32 + n.z as i32 * n.z as i32, 1);
        let length = ((n.x as f64).powi(2) + (n.y as f64).powi(2) + (n.z as f64).powi(2)).sqrt();
        assert_eq!(length, 1.0);
    }
}

#[test]
fn meshing_twice_gives_the_same_buffers() {
    let chunk = Chunk::new(3);
    let first = chunk.generate_naive_mesh();
    let second = chunk.generate_naive_mesh();
    assert!(same_buffers(&first, &second));
    let third = generate_naive_mesh(&chunk.voxels, &chunk);
    assert!(same_buffers(&first, &third));
}

#[test]
fn second_voxel_is_the_unit_cube_moved_along_x() {
    let unit = Chunk::new(1).generate_naive_mesh();
    let mesh = Chunk::new(2).generate_naive_mesh();
    // the voxel at offset 1 of a grid of edge 2 is the cell (1, 0, 0)
    assert_eq!(Chunk::new(2).index_to_position(1), GridPos { x: 1, y: 0, z: 0 });
    for k in 0..24 {
        let moved = hp(unit.positions[k].x + 2, unit.positions[k].y, unit.positions[k].z);
        assert_eq!(mesh.positions[24 + k], moved);
        assert_eq!(mesh.normals[24 + k], unit.normals[k]);
        // one whole voxel edge, seen in unit cubes
        assert_eq!(
            mesh.positions[24 + k].x as f32 / 2.0,
            unit.positions[k].x as f32 / 2.0 + 1.0
        );
    }
    let (cube, _, _) = create_cube_vertices_at(&GridPos { x: 1, y: 0, z: 0 });
    assert_eq!(&mesh.positions[24..48], &cube[..]);
}

#[test]
fn every_voxel_gets_the_cube_of_its_cell() {
    let chunk = Chunk::new(3);
    let mesh = chunk.generate_naive_mesh();
    for i in 0..27 {
        let (positions, normals, indices) = create_cube_vertices_at(&chunk.index_to_position(i));
        assert_eq!(&mesh.positions[24 * i..24 * i + 24], &positions[..]);
        assert_eq!(&mesh.normals[24 * i..24 * i + 24], &normals[..]);
        let moved: Vec<u32> = indices.iter().map(|k| *k as u32 + 24 * i as u32).collect();
        assert_eq!(&mesh.indices[36 * i..36 * i + 36], &moved[..]);
    }
    // the last voxel is the cell (2, 2, 2): its top face starts at (3, 5, 3)
    assert_eq!(mesh.positions[24 * 26], hp(3, 5, 3));
}

#[test]
fn air_is_meshed_like_rock() {
    let rock = Chunk::new(2);
    let mut mixed = Chunk::new(2);
    mixed.voxels[0] = Voxel::new(BlockKind::Air);
    mixed.voxels[5] = Voxel::new(BlockKind::Air);
    assert!(same_buffers(&rock.generate_naive_mesh(), &mixed.generate_naive_mesh()));
}

#[test]
fn meshing_the_first_voxels_gives_the_beginning_of_the_mesh() {
    let chunk = Chunk::new(2);
    let whole = chunk.generate_naive_mesh();
    let part = generate_naive_mesh(&chunk.voxels[..3], &chunk);
    assert_eq!(part.positions.len(), 72);
    assert_eq!(part.indices.len(), 108);
    assert_eq!(&part.positions[..], &whole.positions[..72]);
    assert_eq!(&part.normals[..], &whole.normals[..72]);
    assert_eq!(&part.indices[..], &whole.indices[..108]);
    let none = generate_naive_mesh(&[], &chunk);
    assert_eq!(none.count_vertices(), 0);
    assert!(none.indices.is_empty());
}
