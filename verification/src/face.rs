//! The six faces of an axis-aligned cube: their corners, normals and
//! triangles.
//!
//! Each face owns four vertices of its own, so that every vertex carries the
//! normal of exactly one face. Corner offsets are counted in half edges from
//! the centre of the cube, normals in whole edges.

use vstd::prelude::*;
use crate::vector::{lemma_small_products, HalfPoint, Normal, Vector};

verus! {

/// A face of the cube, named by the direction it looks in. The declaration
/// order is the order in which faces are emitted.
#[derive(Debug, PartialEq, Eq, Structural, Clone, Copy)]
pub enum FaceDirection {
    /// Facing `+y`.
    Top,
    /// Facing `-y`.
    Bottom,
    /// Facing `+x`.
    Right,
    /// Facing `-x`.
    Left,
    /// Facing `+z`.
    Back,
    /// Facing `-z`.
    Forward,
}

impl FaceDirection {
    /// The face at place `n` of the emission order.
    pub open spec fn nth(n: int) -> FaceDirection {
        if n == 0 {
            FaceDirection::Top
        } else if n == 1 {
            FaceDirection::Bottom
        } else if n == 2 {
            FaceDirection::Right
        } else if n == 3 {
            FaceDirection::Left
        } else if n == 4 {
            FaceDirection::Back
        } else {
            FaceDirection::Forward
        }
    }

    /// Place of the face in the emission order.
    pub open spec fn spec_ordinal(self) -> int {
        match self {
            FaceDirection::Top => 0,
            FaceDirection::Bottom => 1,
            FaceDirection::Right => 2,
            FaceDirection::Left => 3,
            FaceDirection::Back => 4,
            FaceDirection::Forward => 5,
        }
    }

    /// The four corners of the face as offsets from the centre of the cube,
    /// in the order in which they are emitted.
    pub open spec fn spec_vertices(self) -> Seq<Vector> {
        match self {
            FaceDirection::Top => seq![
                Vector::new(-1, 1, -1),
                Vector::new(1, 1, -1),
                Vector::new(1, 1, 1),
                Vector::new(-1, 1, 1),
            ],
            FaceDirection::Bottom => seq![
                Vector::new(-1, -1, -1),
                Vector::new(1, -1, -1),
                Vector::new(1, -1, 1),
                Vector::new(-1, -1, 1),
            ],
            FaceDirection::Right => seq![
                Vector::new(1, -1, -1),
                Vector::new(1, -1, 1),
                Vector::new(1, 1, 1),
                Vector::new(1, 1, -1),
            ],
            FaceDirection::Left => seq![
                Vector::new(-1, -1, -1),
                Vector::new(-1, -1, 1),
                Vector::new(-1, 1, 1),
                Vector::new(-1, 1, -1),
            ],
            FaceDirection::Back => seq![
                Vector::new(-1, -1, 1),
                Vector::new(-1, 1, 1),
                Vector::new(1, 1, 1),
                Vector::new(1, -1, 1),
            ],
            FaceDirection::Forward => seq![
                Vector::new(-1, -1, -1),
                Vector::new(-1, 1, -1),
                Vector::new(1, 1, -1),
                Vector::new(1, -1, -1),
            ],
        }
    }

    /// The four corners of the face as offsets from the centre of the cube.
    pub fn vertices(&self) -> (r: [HalfPoint; 4])
        ensures
            r@.map_values(|p: HalfPoint| p@) == self.spec_vertices(),
    {
        match self {
            FaceDirection::Top => [
                HalfPoint { x: -1, y: 1, z: -1 },
                HalfPoint { x: 1, y: 1, z: -1 },
                HalfPoint { x: 1, y: 1, z: 1 },
                HalfPoint { x: -1, y: 1, z: 1 },
            ],
            FaceDirection::Bottom => [
                HalfPoint { x: -1, y: -1, z: -1 },
                HalfPoint { x: 1, y: -1, z: -1 },
                HalfPoint { x: 1, y: -1, z: 1 },
                HalfPoint { x: -1, y: -1, z: 1 },
            ],
            FaceDirection::Right => [
                HalfPoint { x: 1, y: -1, z: -1 },
                HalfPoint { x: 1, y: -1, z: 1 },
                HalfPoint { x: 1, y: 1, z: 1 },
                HalfPoint { x: 1, y: 1, z: -1 },
            ],
            FaceDirection::Left => [
                HalfPoint { x: -1, y: -1, z: -1 },
                HalfPoint { x: -1, y: -1, z: 1 },
                HalfPoint { x: -1, y: 1, z: 1 },
                HalfPoint { x: -1, y: 1, z: -1 },
            ],
            FaceDirection::Back => [
                HalfPoint { x: -1, y: -1, z: 1 },
                HalfPoint { x: -1, y: 1, z: 1 },
                HalfPoint { x: 1, y: 1, z: 1 },
                HalfPoint { x: 1, y: -1, z: 1 },
            ],
            FaceDirection::Forward => [
                HalfPoint { x: -1, y: -1, z: -1 },
                HalfPoint { x: -1, y: 1, z: -1 },
                HalfPoint { x: 1, y: 1, z: -1 },
                HalfPoint { x: 1, y: -1, z: -1 },
            ],
        }
    }

    /// The outward normal of the face.
    pub open spec fn normal(self) -> Vector {
        match self {
            FaceDirection::Top => Vector::new(0, 1, 0),
            FaceDirection::Bottom => Vector::new(0, -1, 0),
            FaceDirection::Right => Vector::new(1, 0, 0),
            FaceDirection::Left => Vector::new(-1, 0, 0),
            FaceDirection::Back => Vector::new(0, 0, 1),
            FaceDirection::Forward => Vector::new(0, 0, -1),
        }
    }

    /// The normals of the four vertices of the face: its outward normal,
    /// once for each.
    pub open spec fn spec_normals(self) -> Seq<Vector> {
        Seq::new(4, |k: int| self.normal())
    }

    /// The normals of the four vertices of the face, in the order of
    /// [`FaceDirection::vertices`].
    pub fn normals(&self) -> (r: [Normal; 4])
        ensures
            r@.map_values(|n: Normal| n@) == self.spec_normals(),
    {
        let r = match self {
            FaceDirection::Top => [
                Normal { x: 0, y: 1, z: 0 },
                Normal { x: 0, y: 1, z: 0 },
                Normal { x: 0, y: 1, z: 0 },
                Normal { x: 0, y: 1, z: 0 },
            ],
            FaceDirection::Bottom => [
                Normal { x: 0, y: -1, z: 0 },
                Normal { x: 0, y: -1, z: 0 },
                Normal { x: 0, y: -1, z: 0 },
                Normal { x: 0, y: -1, z: 0 },
            ],
            FaceDirection::Right => [
                Normal { x: 1, y: 0, z: 0 },
                Normal { x: 1, y: 0, z: 0 },
                Normal { x: 1, y: 0, z: 0 },
                Normal { x: 1, y: 0, z: 0 },
            ],
            FaceDirection::Left => [
                Normal { x: -1, y: 0, z: 0 },
                Normal { x: -1, y: 0, z: 0 },
                Normal { x: -1, y: 0, z: 0 },
                Normal { x: -1, y: 0, z: 0 },
            ],
            FaceDirection::Back => [
                Normal { x: 0, y: 0, z: 1 },
                Normal { x: 0, y: 0, z: 1 },
                Normal { x: 0, y: 0, z: 1 },
                Normal { x: 0, y: 0, z: 1 },
            ],
            FaceDirection::Forward => [
                Normal { x: 0, y: 0, z: -1 },
                Normal { x: 0, y: 0, z: -1 },
                Normal { x: 0, y: 0, z: -1 },
                Normal { x: 0, y: 0, z: -1 },
            ],
        };
        assert(r@.map_values(|n: Normal| n@) =~= self.spec_normals());
        r
    }

    /// The order in which the four vertices of the face make its two
    /// triangles, as places `0..4` among the face's own vertices. Seen from
    /// outside the cube, both triangles run counter-clockwise.
    pub open spec fn winding(self) -> Seq<int> {
        match self {
            FaceDirection::Top | FaceDirection::Right | FaceDirection::Back => seq![
                0,
                3,
                1,
                1,
                3,
                2,
            ],
            FaceDirection::Bottom | FaceDirection::Left | FaceDirection::Forward => seq![
                0,
                1,
                3,
                1,
                2,
                3,
            ],
        }
    }

    /// The six triangle indices of the face when its four vertices are the
    /// `i`-th group of four in a vertex buffer.
    pub open spec fn spec_indices(self, i: int) -> Seq<int> {
        Seq::new(6, |j: int| 4 * i + self.winding()[j])
    }

    /// The six triangle indices of the face when its four vertices are the
    /// `i`-th group of four in a vertex buffer.
    pub fn indices(&self, i: usize) -> (r: [usize; 6])
        requires
            4 * i + 3 <= usize::MAX,
        ensures
            r@.map_values(|k: usize| k as int) == self.spec_indices(i as int),
    {
        let b: usize = i * 4;
        let r = match self {
            FaceDirection::Top | FaceDirection::Right | FaceDirection::Back => {
                [b, b + 3, b + 1, b + 1, b + 3, b + 2]
            },
            FaceDirection::Bottom | FaceDirection::Left | FaceDirection::Forward => {
                [b, b + 1, b + 3, b + 1, b + 2, b + 3]
            },
        };
        assert(r@.map_values(|k: usize| k as int) =~= self.spec_indices(i as int));
        r
    }

    /// Place of the face in the emission order.
    pub fn ordinal(&self) -> (r: usize)
        ensures
            r == self.spec_ordinal(),
            FaceDirection::nth(r as int) == *self,
    {
        match self {
            FaceDirection::Top => 0,
            FaceDirection::Bottom => 1,
            FaceDirection::Right => 2,
            FaceDirection::Left => 3,
            FaceDirection::Back => 4,
            FaceDirection::Forward => 5,
        }
    }

    /// The six faces in emission order.
    pub open spec fn spec_all() -> Seq<FaceDirection> {
        Seq::new(6, |n: int| FaceDirection::nth(n))
    }

    /// The six faces in emission order.
    pub fn all() -> (r: [FaceDirection; 6])
        ensures
            r@ == FaceDirection::spec_all(),
    {
        let r = [
            FaceDirection::Top,
            FaceDirection::Bottom,
            FaceDirection::Right,
            FaceDirection::Left,
            FaceDirection::Back,
            FaceDirection::Forward,
        ];
        assert(r@ =~= FaceDirection::spec_all());
        r
    }
}

/// The emission order names every face exactly once: `nth` and `spec_ordinal`
/// are inverse to each other between the six faces and the places `0..6`.
pub proof fn lemma_faces_enumerated(f: FaceDirection, n: int)
    ensures
        0 <= f.spec_ordinal() < 6,
        FaceDirection::nth(f.spec_ordinal()) == f,
        0 <= n < 6 ==> FaceDirection::nth(n).spec_ordinal() == n,
{
}

/// Every normal is a unit axis vector, and no two faces have the same one.
pub proof fn lemma_normals_unit_and_distinct(f: FaceDirection, g: FaceDirection)
    ensures
        f.normal().is_unit_axis(),
        f.normal().dot(f.normal()) == 1,
        f != g ==> f.normal() != g.normal(),
{
    lemma_small_products(f.normal(), f.normal());
}

/// The four vertices of a face are four different corners of the cube, all on
/// the side that the face's normal points to.
pub proof fn lemma_vertices_on_face(f: FaceDirection, j: int, k: int)
    requires
        0 <= j < 4,
        0 <= k < 4,
    ensures
        f.spec_vertices().len() == 4,
        f.spec_vertices()[k].is_corner(),
        f.spec_vertices()[k].dot(f.normal()) == 1,
        j != k ==> f.spec_vertices()[j] != f.spec_vertices()[k],
{
    lemma_small_products(f.spec_vertices()[k], f.normal());
}

/// Every corner of the cube on the side that a face's normal points to is one
/// of the four vertices of that face: the six faces cover the whole boundary.
pub proof fn lemma_faces_cover_cube(f: FaceDirection, c: Vector)
    requires
        c.is_corner(),
        c.dot(f.normal()) == 1,
    ensures
        exists|k: int| 0 <= k < 4 && #[trigger] f.spec_vertices()[k] == c,
{
    let v = f.spec_vertices();
    lemma_small_products(c, f.normal());
    if c == v[0] {
    } else if c == v[1] {
    } else if c == v[2] {
    } else {
        assert(c == v[3]);
    }
}

/// No two faces have the same set of vertices: of two different faces, the
/// first has a vertex that is none of the second's.
pub proof fn lemma_faces_differ_in_vertices(f: FaceDirection, g: FaceDirection)
    requires
        f != g,
    ensures
        exists|k: int|
            0 <= k < 4 && forall|j: int|
                0 <= j < 4 ==> #[trigger] f.spec_vertices()[k] != #[trigger] g.spec_vertices()[j],
{
    let v = f.spec_vertices();
    let n = g.normal();
    lemma_small_products(v[0], n);
    lemma_small_products(v[1], n);
    lemma_small_products(v[2], n);
    lemma_small_products(v[3], n);
    // Of the four vertices of `f`, one is not on the side of the cube that `g`
    // looks to, where all the vertices of `g` are.
    let k = if v[0].dot(n) != 1 {
        0
    } else if v[1].dot(n) != 1 {
        1
    } else if v[2].dot(n) != 1 {
        2
    } else {
        3int
    };
    assert(v[k].dot(n) != 1);
    assert forall|j: int| 0 <= j < 4 implies f.spec_vertices()[k] != #[trigger] g.spec_vertices()[j] by {
        lemma_vertices_on_face(g, j, j);
    }
}

/// Each winding names places among the face's four vertices, three per
/// triangle.
pub proof fn lemma_winding_in_range(f: FaceDirection, j: int)
    requires
        0 <= j < 6,
    ensures
        f.winding().len() == 6,
        0 <= f.winding()[j] < 4,
{
}

/// Both triangles of every face wind counter-clockwise when seen from outside
/// the cube: the vector product of the two edges that leave a triangle's first
/// vertex points along the outward normal. Its length is the area of the
/// parallelogram the edges span, which is four half edges squared.
pub proof fn lemma_winding_counter_clockwise(f: FaceDirection, t: int)
    requires
        0 <= t < 2,
    ensures
        ({
            let v = f.spec_vertices();
            let w = f.winding();
            let a = v[w[3 * t]];
            let b = v[w[3 * t + 1]];
            let c = v[w[3 * t + 2]];
            b.minus(a).cross(c.minus(a)) == f.normal().scaled(4)
        }),
{
    let corners = f.spec_vertices();
    let w = f.winding();
    let a = corners[w[3 * t]];
    let u = corners[w[3 * t + 1]].minus(a);
    let v = corners[w[3 * t + 2]].minus(a);
    lemma_small_products(u, v);
    match f {
        FaceDirection::Top => {
            if t == 0 {
                assert(u == Vector::new(0, 0, 2) && v == Vector::new(2, 0, 0));
                assert(u.cross(v) == f.normal().scaled(4));
            } else {
                assert(u == Vector::new(-2, 0, 2) && v == Vector::new(0, 0, 2));
                assert(u.cross(v) == f.normal().scaled(4));
            }
        },
        FaceDirection::Bottom => {
            if t == 0 {
                assert(u == Vector::new(2, 0, 0) && v == Vector::new(0, 0, 2));
                assert(u.cross(v) == f.normal().scaled(4));
            } else {
                assert(u == Vector::new(0, 0, 2) && v == Vector::new(-2, 0, 2));
                assert(u.cross(v) == f.normal().scaled(4));
            }
        },
        FaceDirection::Right => {
            if t == 0 {
                assert(u == Vector::new(0, 2, 0) && v == Vector::new(0, 0, 2));
                assert(u.cross(v) == f.normal().scaled(4));
            } else {
                assert(u == Vector::new(0, 2, -2) && v == Vector::new(0, 2, 0));
                assert(u.cross(v) == f.normal().scaled(4));
            }
        },
        FaceDirection::Left => {
            if t == 0 {
                assert(u == Vector::new(0, 0, 2) && v == Vector::new(0, 2, 0));
                assert(u.cross(v) == f.normal().scaled(4));
            } else {
                assert(u == Vector::new(0, 2, 0) && v == Vector::new(0, 2, -2));
                assert(u.cross(v) == f.normal().scaled(4));
            }
        },
        FaceDirection::Back => {
            if t == 0 {
                assert(u == Vector::new(2, 0, 0) && v == Vector::new(0, 2, 0));
                assert(u.cross(v) == f.normal().scaled(4));
            } else {
                assert(u == Vector::new(2, -2, 0) && v == Vector::new(2, 0, 0));
                assert(u.cross(v) == f.normal().scaled(4));
            }
        },
        FaceDirection::Forward => {
            if t == 0 {
                assert(u == Vector::new(0, 2, 0) && v == Vector::new(2, 0, 0));
                assert(u.cross(v) == f.normal().scaled(4));
            } else {
                assert(u == Vector::new(2, 0, 0) && v == Vector::new(2, -2, 0));
                assert(u.cross(v) == f.normal().scaled(4));
            }
        },
    }
}

/// The two triangles of a face share one diagonal and together use each of
/// the face's four vertices.
pub proof fn lemma_triangles_cover_face(f: FaceDirection, k: int)
    requires
        0 <= k < 4,
    ensures
        exists|j: int| 0 <= j < 6 && #[trigger] f.winding()[j] == k,
{
    let w = f.winding();
    if k == w[0] {
    } else if k == w[1] {
    } else if k == w[2] {
    } else {
        assert(k == w[4] || k == w[5]);
    }
}

} // verus!
