//! The cubic grid: how the flat offset of a voxel in storage relates to its
//! cell in space.
//!
//! A grid of edge `L` stores its `L³` voxels with `x` varying fastest, then
//! `y`, then `z`: the cell `(x, y, z)` lies at offset `z·L² + y·L + x`.

use vstd::prelude::*;
use vstd::arithmetic::div_mod::{
    lemma_fundamental_div_mod,
    lemma_fundamental_div_mod_converse,
    lemma_mod_bound,
    lemma_multiply_divide_lt,
};
use crate::vector::Vector;

verus! {

/// A cell of the grid.
#[derive(Clone, Copy, Debug, PartialEq, Eq, Structural)]
pub struct GridPos {
    pub x: u32,
    pub y: u32,
    pub z: u32,
}

impl View for GridPos {
    type V = Vector;

    open spec fn view(&self) -> Vector {
        Vector { x: self.x as int, y: self.y as int, z: self.z as int }
    }
}

/// Number of cells in a grid of the given edge.
pub open spec fn volume(edge: int) -> int {
    edge * edge * edge
}

/// The cell lies inside the grid of the given edge.
pub open spec fn in_grid(edge: int, p: Vector) -> bool {
    &&& 0 <= p.x < edge
    &&& 0 <= p.y < edge
    &&& 0 <= p.z < edge
}

/// The cell whose voxel is stored at offset `i`.
pub open spec fn position_of(edge: int, i: int) -> Vector {
    Vector { x: i % edge, y: (i / edge) % edge, z: i / (edge * edge) }
}

/// The offset at which the voxel of cell `p` is stored.
pub open spec fn flat_index(edge: int, p: Vector) -> int {
    p.z * (edge * edge) + p.y * edge + p.x
}

/// The volume of a grid is its layer size times its edge, and is no smaller
/// than either.
pub proof fn lemma_volume(edge: int)
    by (nonlinear_arith)
    requires
        0 <= edge,
    ensures
        volume(edge) == (edge * edge) * edge,
        0 <= edge * edge <= volume(edge),
        edge <= volume(edge),
        edge > 0 ==> edge * edge > 0,
{
}

/// An offset made of three digits to the base `edge` gives them back: the
/// lowest as its remainder, the next as the remainder of its quotient, the
/// highest as its quotient by the layer size.
proof fn lemma_digits(edge: int, x: int, y: int, z: int)
    requires
        0 <= x < edge,
        0 <= y < edge,
        0 <= z,
    ensures
        position_of(edge, flat_index(edge, Vector { x, y, z })) == (Vector { x, y, z }),
        0 <= flat_index(edge, Vector { x, y, z }),
        z < edge ==> flat_index(edge, Vector { x, y, z }) < volume(edge),
{
    let i = flat_index(edge, Vector { x, y, z });
    let layer = edge * edge;
    assert(i == (z * edge + y) * edge + x) by (nonlinear_arith)
        requires
            i == z * (edge * edge) + y * edge + x,
    ;
    lemma_fundamental_div_mod_converse(i, edge, z * edge + y, x);
    lemma_fundamental_div_mod_converse(z * edge + y, edge, z, y);
    assert(0 <= y * edge + x < layer) by (nonlinear_arith)
        requires
            0 <= x < edge,
            0 <= y < edge,
            layer == edge * edge,
    ;
    lemma_fundamental_div_mod_converse(i, layer, z, y * edge + x);
    assert(0 <= z * layer) by (nonlinear_arith)
        requires
            0 <= z,
            0 <= layer,
    ;
    if z < edge {
        assert(z * layer + layer <= edge * edge * edge) by (nonlinear_arith)
            requires
                0 <= z < edge,
                layer == edge * edge,
        ;
    }
}

/// The three digits of an offset, taken as the executable code takes them:
/// the layer first, then the row and the column out of what is left.
pub proof fn lemma_position_from_remainder(edge: int, i: int)
    requires
        0 <= i < volume(edge),
    ensures
        ({
            let z = i / (edge * edge);
            let rest = i - z * (edge * edge);
            &&& 0 <= rest < edge * edge
            &&& position_of(edge, i) == (Vector { x: rest % edge, y: rest / edge, z })
            &&& in_grid(edge, position_of(edge, i))
            &&& flat_index(edge, position_of(edge, i)) == i
        }),
{
    assert(0 < edge) by (nonlinear_arith)
        requires
            0 < edge * edge * edge,
    ;
    let layer = edge * edge;
    lemma_volume(edge);
    let z = i / layer;
    let rest = i - z * layer;
    lemma_fundamental_div_mod(i, layer);
    lemma_mod_bound(i, layer);
    assert(layer * z == z * layer) by (nonlinear_arith);
    assert(rest == i % layer);
    assert(0 <= z) by (nonlinear_arith)
        requires
            0 <= i,
            0 < layer,
            z == i / layer,
    ;
    lemma_multiply_divide_lt(i, layer, edge);
    let y = rest / edge;
    let x = rest % edge;
    lemma_fundamental_div_mod(rest, edge);
    lemma_mod_bound(rest, edge);
    lemma_multiply_divide_lt(rest, edge, edge);
    assert(0 <= y) by (nonlinear_arith)
        requires
            0 <= rest,
            0 < edge,
            y == rest / edge,
    ;
    assert(edge * y == y * edge) by (nonlinear_arith);
    assert(i == flat_index(edge, Vector { x, y, z }));
    lemma_digits(edge, x, y, z);
}

/// Every offset of the grid belongs to a cell inside the grid.
pub proof fn lemma_position_in_grid(edge: int, i: int)
    requires
        0 <= i < volume(edge),
    ensures
        in_grid(edge, position_of(edge, i)),
{
    lemma_position_from_remainder(edge, i);
}

/// Rebuilding the offset from the cell it belongs to gives the offset back.
pub proof fn lemma_flat_index_of_position(edge: int, i: int)
    requires
        0 <= i < volume(edge),
    ensures
        flat_index(edge, position_of(edge, i)) == i,
{
    lemma_position_from_remainder(edge, i);
}

/// Every cell inside the grid has an offset of the grid, and is the cell that
/// this offset belongs to.
pub proof fn lemma_position_of_flat_index(edge: int, p: Vector)
    requires
        in_grid(edge, p),
    ensures
        0 <= flat_index(edge, p) < volume(edge),
        position_of(edge, flat_index(edge, p)) == p,
{
    lemma_digits(edge, p.x, p.y, p.z);
}

/// No two offsets of the grid belong to the same cell.
pub proof fn lemma_position_injective(edge: int, i: int, j: int)
    requires
        0 <= i < volume(edge),
        0 <= j < volume(edge),
        position_of(edge, i) == position_of(edge, j),
    ensures
        i == j,
{
    lemma_flat_index_of_position(edge, i);
    lemma_flat_index_of_position(edge, j);
}

/// The offsets of the grid and the cells inside it correspond one to one:
/// `position_of` maps `0..L³` into the grid, reaches every cell of it, and
/// `flat_index` is its inverse in both directions.
pub proof fn lemma_position_bijective(edge: int)
    ensures
        forall|i: int|
            0 <= i < volume(edge) ==> in_grid(edge, #[trigger] position_of(edge, i))
                && flat_index(edge, position_of(edge, i)) == i,
        forall|p: Vector|
            in_grid(edge, p) ==> 0 <= #[trigger] flat_index(edge, p) < volume(edge)
                && position_of(edge, flat_index(edge, p)) == p,
        forall|i: int, j: int|
            0 <= i < volume(edge) && 0 <= j < volume(edge) && #[trigger] position_of(edge, i)
                == #[trigger] position_of(edge, j) ==> i == j,
{
    assert forall|i: int| 0 <= i < volume(edge) implies in_grid(
        edge,
        #[trigger] position_of(edge, i),
    ) && flat_index(edge, position_of(edge, i)) == i by {
        lemma_position_from_remainder(edge, i);
    }
    assert forall|p: Vector| in_grid(edge, p) implies 0 <= #[trigger] flat_index(edge, p) < volume(
        edge,
    ) && position_of(edge, flat_index(edge, p)) == p by {
        lemma_position_of_flat_index(edge, p);
    }
    assert forall|i: int, j: int|
        0 <= i < volume(edge) && 0 <= j < volume(edge) && #[trigger] position_of(edge, i)
            == #[trigger] position_of(edge, j) implies i == j by {
        lemma_position_injective(edge, i, j);
    }
}

/// A grid whose volume fits a machine word has an edge that fits 32 bits.
pub proof fn lemma_edge_fits_u32(edge: int)
    requires
        0 <= edge,
        volume(edge) <= usize::MAX,
    ensures
        edge <= u32::MAX,
{
    if edge > u32::MAX {
        assert(edge * edge * edge >= 0x1_0000_0000 * 0x1_0000_0000 * 0x1_0000_0000)
            by (nonlinear_arith)
            requires
                edge >= 0x1_0000_0000,
        ;
    }
}

} // verus!
