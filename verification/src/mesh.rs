//! Cube and chunk meshing: the vertex positions, normals and triangle indices
//! of one unit cube per voxel.
//!
//! Positions are counted in half voxel edges (see [`crate::vector`]): the cube
//! of the cell `(x, y, z)` is centred on `(2x, 2y, 2z)` and reaches one half
//! edge to every side.

use vstd::prelude::*;
use crate::chunk::{Chunk, Voxel};
pub use crate::face::FaceDirection;
use crate::face::{
    lemma_normals_unit_and_distinct,
    lemma_vertices_on_face,
    lemma_winding_counter_clockwise,
    lemma_winding_in_range,
};
use crate::grid::{position_of, volume, GridPos};
use crate::vector::{HalfPoint, Normal, Vector};

verus! {

/// The 24 vertex positions of the cube centred on the cell `origin`: for each
/// face in emission order its four corners, moved to the cell.
pub open spec fn cube_positions(origin: Vector) -> Seq<Vector> {
    Seq::new(
        24,
        |k: int| origin.scaled(2).plus(FaceDirection::nth(k / 4).spec_vertices()[k % 4]),
    )
}

/// The 24 vertex normals of a cube: for each face in emission order its
/// outward normal, once for each of its four vertices.
pub open spec fn cube_normals() -> Seq<Vector> {
    Seq::new(24, |k: int| FaceDirection::nth(k / 4).normal())
}

/// The 36 triangle indices of a cube into its own 24 vertices: for each face
/// in emission order its two triangles.
pub open spec fn cube_indices() -> Seq<int> {
    Seq::new(36, |j: int| FaceDirection::nth(j / 6).spec_indices(j / 6)[j % 6])
}

/// The views of a sequence of vertex positions.
pub open spec fn positions_view(s: Seq<HalfPoint>) -> Seq<Vector> {
    s.map_values(|p: HalfPoint| p@)
}

/// The views of a sequence of normals.
pub open spec fn normals_view(s: Seq<Normal>) -> Seq<Vector> {
    s.map_values(|n: Normal| n@)
}

/// The vertex positions, vertex normals and triangle indices of the unit cube
/// centred on the cell `pos`. Every face has four vertices of its own; the
/// indices refer to the cube's own 24 vertices.
pub fn create_cube_vertices_at(pos: &GridPos) -> (r: (Vec<HalfPoint>, Vec<Normal>, Vec<usize>))
    ensures
        r.0@.len() == 24,
        r.1@.len() == 24,
        r.2@.len() == 36,
        positions_view(r.0@) == cube_positions(pos@),
        normals_view(r.1@) == cube_normals(),
        r.2@.map_values(|k: usize| k as int) == cube_indices(),
{
    let faces = FaceDirection::all();
    let cx: i64 = 2 * (pos.x as i64);
    let cy: i64 = 2 * (pos.y as i64);
    let cz: i64 = 2 * (pos.z as i64);

    let mut positions: Vec<HalfPoint> = Vec::new();
    let mut normals: Vec<Normal> = Vec::new();
    let mut f: usize = 0;
    while f < 6
        invariant
            f <= 6,
            faces@ == FaceDirection::spec_all(),
            cx == 2 * pos.x,
            cy == 2 * pos.y,
            cz == 2 * pos.z,
            positions@.len() == 4 * f,
            normals@.len() == 4 * f,
            forall|k: int|
                0 <= k < 4 * f ==> (#[trigger] positions@[k])@ == cube_positions(pos@)[k],
            forall|k: int| 0 <= k < 4 * f ==> (#[trigger] normals@[k])@ == cube_normals()[k],
        decreases 6 - f,
    {
        let face = faces[f];
        let v = face.vertices();
        let n = face.normals();
        assert(face == FaceDirection::nth(f as int));
        let mut c: usize = 0;
        while c < 4
            invariant
                c <= 4,
                f < 6,
                face == FaceDirection::nth(f as int),
                positions_view(v@) == face.spec_vertices(),
                normals_view(n@) == face.spec_normals(),
                cx == 2 * pos.x,
                cy == 2 * pos.y,
                cz == 2 * pos.z,
                positions@.len() == 4 * f + c,
                normals@.len() == 4 * f + c,
                forall|k: int|
                    0 <= k < 4 * f + c ==> (#[trigger] positions@[k])@ == cube_positions(pos@)[k],
                forall|k: int|
                    0 <= k < 4 * f + c ==> (#[trigger] normals@[k])@ == cube_normals()[k],
            decreases 4 - c,
        {
            let corner = v[c];
            assert(corner@ == positions_view(v@)[c as int]);
            assert(n[c as int]@ == normals_view(n@)[c as int]);
            assert(face.spec_vertices()[c as int].is_corner()) by {
                lemma_vertices_on_face(face, c as int, c as int);
            }
            assert((4 * f + c) / 4 == f && (4 * f + c) % 4 == c);
            positions.push(HalfPoint { x: cx + corner.x, y: cy + corner.y, z: cz + corner.z });
            normals.push(n[c]);
            c = c + 1;
        }
        f = f + 1;
    }

    let mut indices: Vec<usize> = Vec::new();
    let mut f: usize = 0;
    while f < 6
        invariant
            f <= 6,
            faces@ == FaceDirection::spec_all(),
            indices@.len() == 6 * f,
            forall|j: int| 0 <= j < 6 * f ==> #[trigger] indices@[j] == cube_indices()[j],
        decreases 6 - f,
    {
        let face = faces[f];
        let t = face.indices(f);
        assert(face == FaceDirection::nth(f as int));
        let mut j: usize = 0;
        while j < 6
            invariant
                j <= 6,
                f < 6,
                face == FaceDirection::nth(f as int),
                t@.map_values(|k: usize| k as int) == face.spec_indices(f as int),
                indices@.len() == 6 * f + j,
                forall|i: int| 0 <= i < 6 * f + j ==> #[trigger] indices@[i] == cube_indices()[i],
            decreases 6 - j,
        {
            assert(t[j as int] as int == t@.map_values(|k: usize| k as int)[j as int]);
            assert((6 * f + j) / 6 == f && (6 * f + j) % 6 == j);
            indices.push(t[j]);
            j = j + 1;
        }
        f = f + 1;
    }

    assert(positions_view(positions@) =~= cube_positions(pos@));
    assert(normals_view(normals@) =~= cube_normals());
    assert(indices@.map_values(|k: usize| k as int) =~= cube_indices());
    (positions, normals, indices)
}

/// Every triangle index of a cube names one of its 24 vertices: the `j`-th
/// index belongs to face `j / 6` and names one of that face's four vertices.
pub proof fn lemma_cube_indices_in_range(j: int)
    requires
        0 <= j < 36,
    ensures
        cube_indices().len() == 36,
        4 * (j / 6) <= cube_indices()[j] < 4 * (j / 6) + 4,
        0 <= cube_indices()[j] < 24,
{
    lemma_winding_in_range(FaceDirection::nth(j / 6), j % 6);
}

/// A mesh as three sequences: vertex positions in half voxel edges, one
/// normal for each vertex, and triangle indices, three for each triangle.
#[verifier::ext_equal]
pub struct MeshView {
    pub positions: Seq<Vector>,
    pub normals: Seq<Vector>,
    pub indices: Seq<int>,
}

impl MeshView {
    /// Every vertex has a normal, which is a unit axis vector; the indices
    /// come in triangles and each names a vertex of the mesh.
    pub open spec fn wf(self) -> bool {
        &&& self.positions.len() == self.normals.len()
        &&& self.indices.len() % 3 == 0
        &&& forall|j: int|
            0 <= j < self.indices.len() ==> 0 <= #[trigger] self.indices[j] < self.positions.len()
        &&& forall|v: int| 0 <= v < self.normals.len() ==> (#[trigger] self.normals[v]).is_unit_axis()
    }
}

/// The three buffers of a mesh, ready to be handed to a renderer.
#[derive(Debug)]
pub struct MeshBuffer {
    /// Vertex positions, in half voxel edges.
    pub positions: Vec<HalfPoint>,
    /// For each vertex the normal of the face it belongs to.
    pub normals: Vec<Normal>,
    /// Triangle list: each three indices into `positions` are one triangle,
    /// counter-clockwise when seen from outside.
    pub indices: Vec<u32>,
}

impl View for MeshBuffer {
    type V = MeshView;

    open spec fn view(&self) -> MeshView {
        MeshView {
            positions: positions_view(self.positions@),
            normals: normals_view(self.normals@),
            indices: self.indices@.map_values(|k: u32| k as int),
        }
    }
}

impl MeshBuffer {
    /// Number of vertices in the mesh.
    pub fn count_vertices(&self) -> (n: usize)
        ensures
            n == self.positions@.len(),
            n == self@.positions.len(),
    {
        self.positions.len()
    }
}

/// Position of vertex `v` of the mesh of a grid of the given edge: vertex
/// `v % 24` of the cube of the cell stored at offset `v / 24`.
pub open spec fn mesh_position(edge: int, v: int) -> Vector {
    cube_positions(position_of(edge, v / 24))[v % 24]
}

/// Normal of vertex `v` of a mesh of cubes: that of vertex `v % 24` of a cube.
pub open spec fn mesh_normal(v: int) -> Vector {
    cube_normals()[v % 24]
}

/// Index `j` of a mesh of cubes: index `j % 36` of cube `j / 36`, moved past
/// the 24 vertices of each cube before it.
pub open spec fn mesh_index(j: int) -> int {
    24 * (j / 36) + cube_indices()[j % 36]
}

/// The mesh of the first `count` voxels of a grid of the given edge: one cube
/// for each voxel, in storage order.
pub open spec fn naive_mesh(edge: int, count: int) -> MeshView {
    MeshView {
        positions: Seq::new((24 * count) as nat, |v: int| mesh_position(edge, v)),
        normals: Seq::new((24 * count) as nat, |v: int| mesh_normal(v)),
        indices: Seq::new((36 * count) as nat, |j: int| mesh_index(j)),
    }
}

/// The mesh of the voxels `voxels`, taken as the first voxels of the grid of
/// `chunk`: one cube for each, whatever its kind, in storage order.
pub fn generate_naive_mesh(voxels: &[Voxel], chunk: &Chunk) -> (mesh: MeshBuffer)
    requires
        chunk.wf(),
        voxels@.len() <= volume(chunk.size as int),
        24 * voxels@.len() <= u32::MAX,
    ensures
        mesh@ == naive_mesh(chunk.size as int, voxels@.len() as int),
        mesh.positions@.len() == 24 * voxels@.len(),
        mesh.normals@.len() == 24 * voxels@.len(),
        mesh.indices@.len() == 36 * voxels@.len(),
        mesh@.wf(),
{
    let count: usize = voxels.len();
    let ghost edge = chunk.size as int;
    let mut positions: Vec<HalfPoint> = Vec::new();
    let mut normals: Vec<Normal> = Vec::new();
    let mut indices: Vec<u32> = Vec::new();

    let mut i: usize = 0;
    while i < count
        invariant
            i <= count,
            count == voxels@.len(),
            edge == chunk.size as int,
            chunk.wf(),
            count <= volume(edge),
            24 * count <= u32::MAX,
            positions@.len() == 24 * i,
            normals@.len() == 24 * i,
            indices@.len() == 36 * i,
            forall|v: int|
                0 <= v < 24 * i ==> (#[trigger] positions@[v])@ == mesh_position(edge, v),
            forall|v: int| 0 <= v < 24 * i ==> (#[trigger] normals@[v])@ == mesh_normal(v),
            forall|j: int| 0 <= j < 36 * i ==> #[trigger] indices@[j] == mesh_index(j),
        decreases count - i,
    {
        let index = chunk.index_to_position(i);

        let cube = create_cube_vertices_at(&index);
        let mut pos = cube.0;
        let mut n = cube.1;
        let id = cube.2;

        // The offset of this cube's vertices is taken before they are added.
        let offset: usize = positions.len();
        let mut j: usize = 0;
        while j < 36
            invariant
                j <= 36,
                i < count,
                24 * count <= u32::MAX,
                offset == 24 * i,
                id@.len() == 36,
                id@.map_values(|k: usize| k as int) == cube_indices(),
                indices@.len() == 36 * i + j,
                forall|k: int| 0 <= k < 36 * i + j ==> #[trigger] indices@[k] == mesh_index(k),
            decreases 36 - j,
        {
            proof {
                lemma_cube_indices_in_range(j as int);
                assert(id@[j as int] as int == id@.map_values(|k: usize| k as int)[j as int]);
                assert((36 * i + j) / 36 == i && (36 * i + j) % 36 == j);
            }
            indices.push(id[j] as u32 + offset as u32);
            j = j + 1;
        }

        proof {
            assert forall|v: int| 24 * i <= v < 24 * i + 24 implies (#[trigger] (positions@
                + pos@)[v])@ == mesh_position(edge, v) by {
                assert(v / 24 == i && v % 24 == v - 24 * i);
                assert(pos@[v - 24 * i]@ == positions_view(pos@)[v - 24 * i]);
            }
            assert forall|v: int| 24 * i <= v < 24 * i + 24 implies (#[trigger] (normals@
                + n@)[v])@ == mesh_normal(v) by {
                assert(v % 24 == v - 24 * i);
                assert(n@[v - 24 * i]@ == normals_view(n@)[v - 24 * i]);
            }
        }
        positions.append(&mut pos);
        normals.append(&mut n);
        i = i + 1;
    }

    let mesh = MeshBuffer { positions, normals, indices };
    proof {
        assert(mesh@ =~= naive_mesh(edge, count as int));
        lemma_naive_mesh_wf(edge, count as int);
    }
    mesh
}

/// A mesh of cubes is well formed: it has 24 vertices, as many normals and 36
/// indices for each cube; every normal is a unit axis vector; the indices
/// come in triangles, and those of a cube name vertices of that same cube.
pub proof fn lemma_naive_mesh_wf(edge: int, count: int)
    requires
        0 <= count,
    ensures
        naive_mesh(edge, count).positions.len() == 24 * count,
        naive_mesh(edge, count).normals.len() == 24 * count,
        naive_mesh(edge, count).indices.len() == 36 * count,
        naive_mesh(edge, count).wf(),
        forall|j: int|
            0 <= j < 36 * count ==> 24 * (j / 36) <= #[trigger] naive_mesh(edge, count).indices[j]
                < 24 * (j / 36) + 24,
{
    let m = naive_mesh(edge, count);
    assert forall|j: int| 0 <= j < 36 * count implies 24 * (j / 36) <= #[trigger] m.indices[j] < 24
        * (j / 36) + 24 && 0 <= m.indices[j] < m.positions.len() by {
        lemma_cube_indices_in_range(j % 36);
        assert(j / 36 < count);
    }
    assert forall|v: int| 0 <= v < m.normals.len() implies (#[trigger] m.normals[v]).is_unit_axis() by {
        lemma_normals_unit_and_distinct(FaceDirection::nth((v % 24) / 4), FaceDirection::Top);
    }
}

/// Moving a cube from one cell to another moves every vertex by twice the
/// difference of the cells, in half edges, and changes neither the normals
/// nor the indices: the cube of a cell is the cube of the origin cell, moved.
pub proof fn lemma_cube_moves_with_cell(origin: Vector, k: int)
    requires
        0 <= k < 24,
    ensures
        cube_positions(origin)[k] == cube_positions(Vector::new(0, 0, 0))[k].plus(
            origin.scaled(2),
        ),
        cube_positions(origin)[k].minus(origin.scaled(2)).is_corner(),
{
    lemma_vertices_on_face(FaceDirection::nth(k / 4), k % 4, k % 4);
}

/// The part of a mesh that belongs to voxel `i` is the cube of the origin
/// cell, its vertices moved to the cell of the voxel and its indices moved
/// past the `24 * i` vertices of the voxels before it.
pub proof fn lemma_mesh_cube_of_voxel(edge: int, count: int, i: int, k: int, j: int)
    requires
        0 <= i < count,
        0 <= k < 24,
        0 <= j < 36,
    ensures
        naive_mesh(edge, count).positions[24 * i + k] == cube_positions(Vector::new(0, 0, 0))[k].plus(
            position_of(edge, i).scaled(2),
        ),
        naive_mesh(edge, count).normals[24 * i + k] == cube_normals()[k],
        naive_mesh(edge, count).indices[36 * i + j] == 24 * i + cube_indices()[j],
{
    assert((24 * i + k) / 24 == i && (24 * i + k) % 24 == k);
    assert((36 * i + j) / 36 == i && (36 * i + j) % 36 == j);
    lemma_cube_moves_with_cell(position_of(edge, i), k);
}

/// No vertex is shared between faces: counting faces through the whole mesh,
/// four vertices and six indices to each, the indices of a face name vertices
/// of that same face.
pub proof fn lemma_mesh_faces_own_their_vertices(edge: int, count: int, j: int)
    requires
        0 <= j < 36 * count,
    ensures
        4 * (j / 6) <= naive_mesh(edge, count).indices[j] < 4 * (j / 6) + 4,
{
    lemma_cube_indices_in_range(j % 36);
    assert(j / 6 == 6 * (j / 36) + (j % 36) / 6);
}

/// Every triangle of a mesh winds counter-clockwise when seen from outside
/// its cube: its three vertices carry the same normal, and the vector product
/// of the two edges that leave its first vertex is four times that normal.
pub proof fn lemma_mesh_triangles_face_outward(edge: int, count: int, t: int)
    requires
        0 <= t < 12 * count,
    ensures
        ({
            let m = naive_mesh(edge, count);
            let a = m.indices[3 * t];
            let b = m.indices[3 * t + 1];
            let c = m.indices[3 * t + 2];
            &&& m.normals[a] == m.normals[b]
            &&& m.normals[a] == m.normals[c]
            &&& m.positions[b].minus(m.positions[a]).cross(m.positions[c].minus(m.positions[a]))
                == m.normals[a].scaled(4)
        }),
{
    let m = naive_mesh(edge, count);
    let cube = t / 12;
    let f = (t % 12) / 2;
    let half = t % 2;
    let face = FaceDirection::nth(f);
    let w = face.winding();
    let corners = face.spec_vertices();
    let origin = position_of(edge, cube).scaled(2);
    assert forall|r: int| 0 <= r < 3 implies {
        let k = w[3 * half + r];
        &&& 0 <= k < 4
        &&& #[trigger] m.indices[3 * t + r] == 24 * cube + 4 * f + k
        &&& m.positions[24 * cube + 4 * f + k] == origin.plus(corners[k])
        &&& m.normals[24 * cube + 4 * f + k] == face.normal()
    } by {
        let j = 3 * t + r;
        let k = w[3 * half + r];
        lemma_winding_in_range(face, 3 * half + r);
        assert(j / 36 == cube && j % 36 == 6 * f + 3 * half + r);
        assert((j % 36) / 6 == f && (j % 36) % 6 == 3 * half + r);
        let v = 24 * cube + 4 * f + k;
        assert(v / 24 == cube && v % 24 == 4 * f + k);
        assert((v % 24) / 4 == f && (v % 24) % 4 == k);
    }
    assert(m.indices[3 * t + 0] == 24 * cube + 4 * f + w[3 * half]);
    assert(m.indices[3 * t + 1] == 24 * cube + 4 * f + w[3 * half + 1]);
    assert(m.indices[3 * t + 2] == 24 * cube + 4 * f + w[3 * half + 2]);
    lemma_winding_counter_clockwise(face, half);
    let a = corners[w[3 * half]];
    let b = corners[w[3 * half + 1]];
    let c = corners[w[3 * half + 2]];
    assert(origin.plus(b).minus(origin.plus(a)) == b.minus(a));
    assert(origin.plus(c).minus(origin.plus(a)) == c.minus(a));
}

/// Meshing more voxels of the same grid only adds to the end of the buffers:
/// the mesh of the first `n` voxels is the beginning of the mesh of the first
/// `m`, for `n <= m`.
pub proof fn lemma_mesh_grows(edge: int, n: int, m: int)
    requires
        0 <= n <= m,
    ensures
        naive_mesh(edge, n).positions == naive_mesh(edge, m).positions.take(24 * n),
        naive_mesh(edge, n).normals == naive_mesh(edge, m).normals.take(24 * n),
        naive_mesh(edge, n).indices == naive_mesh(edge, m).indices.take(36 * n),
{
    assert(naive_mesh(edge, n).positions =~= naive_mesh(edge, m).positions.take(24 * n));
    assert(naive_mesh(edge, n).normals =~= naive_mesh(edge, m).normals.take(24 * n));
    assert(naive_mesh(edge, n).indices =~= naive_mesh(edge, m).indices.take(36 * n));
}

/// Meshing is deterministic: any two results of meshing as many voxels of
/// grids of the same edge hold the same values, element for element, whatever
/// the kinds of the voxels.
pub proof fn lemma_meshing_is_deterministic(
    edge: int,
    count: int,
    first: MeshBuffer,
    second: MeshBuffer,
)
    requires
        first@ == naive_mesh(edge, count),
        second@ == naive_mesh(edge, count),
    ensures
        first.positions@ == second.positions@,
        first.normals@ == second.normals@,
        first.indices@ == second.indices@,
{
    lemma_mesh_determined_by_view(first, second);
}

/// Two mesh buffers with the same view hold the same values, element for
/// element.
pub proof fn lemma_mesh_determined_by_view(a: MeshBuffer, b: MeshBuffer)
    requires
        a@ == b@,
    ensures
        a.positions@ == b.positions@,
        a.normals@ == b.normals@,
        a.indices@ == b.indices@,
{
    assert(a.positions@.len() == a@.positions.len());
    assert(b.positions@.len() == b@.positions.len());
    assert forall|v: int| 0 <= v < a.positions@.len() implies a.positions@[v] == b.positions@[v] by {
        assert(a.positions@[v]@ == a@.positions[v]);
        assert(b.positions@[v]@ == b@.positions[v]);
    }
    assert(a.positions@ =~= b.positions@);
    assert(a.normals@.len() == a@.normals.len());
    assert(b.normals@.len() == b@.normals.len());
    assert forall|v: int| 0 <= v < a.normals@.len() implies a.normals@[v] == b.normals@[v] by {
        assert(a.normals@[v]@ == a@.normals[v]);
        assert(b.normals@[v]@ == b@.normals[v]);
    }
    assert(a.normals@ =~= b.normals@);
    assert(a.indices@.len() == a@.indices.len());
    assert(b.indices@.len() == b@.indices.len());
    assert forall|j: int| 0 <= j < a.indices@.len() implies a.indices@[j] == b.indices@[j] by {
        assert(a.indices@[j] as int == a@.indices[j]);
        assert(b.indices@[j] as int == b@.indices[j]);
    }
    assert(a.indices@ =~= b.indices@);
}

} // verus!
