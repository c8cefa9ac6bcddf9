//! Integer vectors: the mathematical model of grid cells, mesh vertices and
//! face normals, and the machine types that carry them.
//!
//! A cube centred on a grid cell has its corners half an edge away from the
//! centre. Vertex positions are therefore counted in half edges, which keeps
//! every coordinate an exact integer: the cell `(x, y, z)` has its centre at
//! `(2x, 2y, 2z)` and its corners at `(2x ± 1, 2y ± 1, 2z ± 1)`.

use vstd::prelude::*;

verus! {

/// A point or a direction of space with integer coordinates.
pub struct Vector {
    pub x: int,
    pub y: int,
    pub z: int,
}

impl Vector {
    /// The vector with the given coordinates.
    pub open spec fn new(x: int, y: int, z: int) -> Vector {
        Vector { x, y, z }
    }

    /// Componentwise sum.
    pub open spec fn plus(self, other: Vector) -> Vector {
        Vector { x: self.x + other.x, y: self.y + other.y, z: self.z + other.z }
    }

    /// Componentwise difference.
    pub open spec fn minus(self, other: Vector) -> Vector {
        Vector { x: self.x - other.x, y: self.y - other.y, z: self.z - other.z }
    }

    /// Every component multiplied by `k`.
    pub open spec fn scaled(self, k: int) -> Vector {
        Vector { x: k * self.x, y: k * self.y, z: k * self.z }
    }

    /// Scalar product.
    pub open spec fn dot(self, other: Vector) -> int {
        self.x * other.x + self.y * other.y + self.z * other.z
    }

    /// Vector product, right-handed.
    pub open spec fn cross(self, other: Vector) -> Vector {
        Vector {
            x: self.y * other.z - self.z * other.y,
            y: self.z * other.x - self.x * other.z,
            z: self.x * other.y - self.y * other.x,
        }
    }

    /// Exactly one component is nonzero, and that one is `1` or `-1`.
    pub open spec fn is_unit_axis(self) -> bool {
        ||| (self.x == 1 || self.x == -1) && self.y == 0 && self.z == 0
        ||| self.x == 0 && (self.y == 1 || self.y == -1) && self.z == 0
        ||| self.x == 0 && self.y == 0 && (self.z == 1 || self.z == -1)
    }

    /// Every component is `1` or `-1`: a corner of the cube of edge 2 centred
    /// on the origin.
    pub open spec fn is_corner(self) -> bool {
        &&& (self.x == 1 || self.x == -1)
        &&& (self.y == 1 || self.y == -1)
        &&& (self.z == 1 || self.z == -1)
    }
}

/// A vertex position, each coordinate counted in half voxel edges.
#[derive(Clone, Copy, Debug, PartialEq, Eq, Structural)]
pub struct HalfPoint {
    pub x: i64,
    pub y: i64,
    pub z: i64,
}

impl View for HalfPoint {
    type V = Vector;

    open spec fn view(&self) -> Vector {
        Vector { x: self.x as int, y: self.y as int, z: self.z as int }
    }
}

/// A face normal, each coordinate counted in whole voxel edges.
#[derive(Clone, Copy, Debug, PartialEq, Eq, Structural)]
pub struct Normal {
    pub x: i8,
    pub y: i8,
    pub z: i8,
}

impl View for Normal {
    type V = Vector;

    open spec fn view(&self) -> Vector {
        Vector { x: self.x as int, y: self.y as int, z: self.z as int }
    }
}

/// A unit axis vector has length one.
pub proof fn lemma_unit_axis_has_length_one(v: Vector)
    requires
        v.is_unit_axis(),
    ensures
        v.dot(v) == 1,
{
}

/// A square is never negative, is zero only at zero, and is at most one only
/// between `-1` and `1`.
proof fn lemma_small_square(a: int)
    ensures
        a * a >= 0,
        a * a == 0 <==> a == 0,
        a * a <= 1 <==> -1 <= a <= 1,
{
    assert(a * a >= 0) by (nonlinear_arith);
    assert(a * a == 0 <==> a == 0) by (nonlinear_arith);
    assert(a * a <= 1 <==> -1 <= a <= 1) by (nonlinear_arith);
}

/// An integer vector of length one is a unit axis vector.
pub proof fn lemma_length_one_is_unit_axis(v: Vector)
    requires
        v.dot(v) == 1,
    ensures
        v.is_unit_axis(),
{
    lemma_small_square(v.x);
    lemma_small_square(v.y);
    lemma_small_square(v.z);
}

/// Where `a` is one of `-2..=2`, the product `a * b` is that multiple of `b`.
pub open spec fn small_product(a: int, b: int) -> bool {
    &&& a == 0 ==> a * b == 0
    &&& a == 1 ==> a * b == b
    &&& a == -1 ==> a * b == -b
    &&& a == 2 ==> a * b == 2 * b
    &&& a == -2 ==> a * b == -2 * b
}

proof fn lemma_small_product(a: int, b: int)
    by (nonlinear_arith)
    ensures
        small_product(a, b),
{
}

/// States every product of a component of `a` with a component of `b` as a
/// multiple of the latter, wherever the former is one of `-2..=2`. With this,
/// scalar and vector products of such vectors are linear expressions.
pub proof fn lemma_small_products(a: Vector, b: Vector)
    ensures
        small_product(a.x, b.x),
        small_product(a.x, b.y),
        small_product(a.x, b.z),
        small_product(a.y, b.x),
        small_product(a.y, b.y),
        small_product(a.y, b.z),
        small_product(a.z, b.x),
        small_product(a.z, b.y),
        small_product(a.z, b.z),
{
    lemma_small_product(a.x, b.x);
    lemma_small_product(a.x, b.y);
    lemma_small_product(a.x, b.z);
    lemma_small_product(a.y, b.x);
    lemma_small_product(a.y, b.y);
    lemma_small_product(a.y, b.z);
    lemma_small_product(a.z, b.x);
    lemma_small_product(a.z, b.y);
    lemma_small_product(a.z, b.z);
}

} // verus!
