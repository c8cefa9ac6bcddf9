//! A chunk: a cubic grid of voxels that is meshed as one unit.

use vstd::prelude::*;
use crate::mesh::{generate_naive_mesh, naive_mesh, MeshBuffer};
use crate::grid::{
    flat_index,
    in_grid,
    lemma_edge_fits_u32,
    lemma_position_from_remainder,
    lemma_volume,
    position_of,
    volume,
    GridPos,
};

verus! {

/// What a voxel is made of.
#[derive(Clone, Copy, Debug, PartialEq, Eq, Structural)]
pub enum BlockKind {
    Rock,
    Air,
}

/// One cell of a chunk.
#[derive(Clone, Copy, Debug)]
pub struct Voxel {
    kind: BlockKind,
}

impl Voxel {
    /// What the voxel is made of.
    pub closed spec fn spec_kind(&self) -> BlockKind {
        self.kind
    }

    /// A voxel of the given kind.
    pub fn new(kind: BlockKind) -> (v: Voxel)
        ensures
            v.kind() == kind,
    {
        Voxel { kind }
    }

    /// What the voxel is made of.
    #[verifier::when_used_as_spec(spec_kind)]
    pub fn kind(&self) -> (k: BlockKind)
        ensures
            k == self.kind(),
    {
        self.kind
    }
}

/// The error of asking for the cell of an offset at which the grid stores no
/// voxel.
#[derive(Clone, Copy, Debug, PartialEq, Eq, Structural)]
pub struct IndexOutOfRange {
    /// The offset that was asked for.
    pub index: usize,
    /// The number of voxels in the grid.
    pub voxels: usize,
}

/// A cubic grid of `size³` voxels, stored with `x` varying fastest, then `y`,
/// then `z`.
pub struct Chunk {
    /// Edge length of the grid.
    pub size: usize,
    /// Number of voxels in one layer of the grid: the square of `size`,
    /// kept so that it is not computed again for every voxel.
    pub size_squared: usize,
    /// The voxels in storage order.
    pub voxels: Vec<Voxel>,
}

impl Chunk {
    /// The chunk holds one voxel for each cell of its grid, and its cached
    /// layer size is the square of its edge.
    pub open spec fn wf(&self) -> bool {
        &&& self.size_squared == self.size * self.size
        &&& self.voxels.len() == volume(self.size as int)
    }

    /// A chunk of the given edge, filled with rock.
    pub fn new(size: usize) -> (chunk: Chunk)
        requires
            volume(size as int) <= usize::MAX,
        ensures
            chunk.wf(),
            chunk.size == size,
            chunk.voxels.len() == volume(size as int),
            forall|i: int|
                0 <= i < chunk.voxels@.len() ==> (#[trigger] chunk.voxels@[i]).kind()
                    == BlockKind::Rock,
    {
        proof {
            lemma_volume(size as int);
        }
        let size_squared: usize = size * size;
        let count: usize = size_squared * size;
        let mut voxels: Vec<Voxel> = Vec::new();
        let mut i: usize = 0;
        while i < count
            invariant
                i <= count,
                voxels@.len() == i,
                forall|j: int| 0 <= j < i ==> (#[trigger] voxels@[j]).kind() == BlockKind::Rock,
            decreases count - i,
        {
            voxels.push(Voxel { kind: BlockKind::Rock });
            i = i + 1;
        }
        Chunk { voxels, size, size_squared }
    }

    /// The cell whose voxel is stored at offset `i`: the layer first, then
    /// the row and the column out of what is left.
    fn pos_from_index(&self, i: usize) -> (p: GridPos)
        requires
            self.wf(),
            i < volume(self.size as int),
        ensures
            p@ == position_of(self.size as int, i as int),
    {
        proof {
            lemma_volume(self.size as int);
            lemma_edge_fits_u32(self.size as int);
            lemma_position_from_remainder(self.size as int, i as int);
        }
        let z: usize = i / (self.size_squared);

        let ti: usize = i - (z * self.size_squared);

        let x: usize = ti % self.size;
        let y: usize = ti / self.size;

        GridPos { x: x as u32, y: y as u32, z: z as u32 }
    }

    /// The cell whose voxel is stored at offset `i`. The offset must be one
    /// of the grid; [`Chunk::checked_index_to_position`] tests that first.
    pub fn index_to_position(&self, i: usize) -> (p: GridPos)
        requires
            self.wf(),
            i < volume(self.size as int),
        ensures
            p@ == position_of(self.size as int, i as int),
            in_grid(self.size as int, p@),
            flat_index(self.size as int, p@) == i,
    {
        proof {
            lemma_position_from_remainder(self.size as int, i as int);
        }
        self.pos_from_index(i)
    }

    /// The cell whose voxel is stored at offset `i`, or an error if the grid
    /// stores no voxel there.
    pub fn checked_index_to_position(&self, i: usize) -> (r: Result<GridPos, IndexOutOfRange>)
        requires
            self.wf(),
        ensures
            match r {
                Ok(p) => i < volume(self.size as int) && p@ == position_of(
                    self.size as int,
                    i as int,
                ),
                Err(e) => i >= volume(self.size as int) && e.index == i && e.voxels
                    == self.voxels.len(),
            },
    {
        if i < self.voxels.len() {
            Ok(self.index_to_position(i))
        } else {
            Err(IndexOutOfRange { index: i, voxels: self.voxels.len() })
        }
    }

    /// The mesh of the whole chunk: one unit cube for each voxel, whatever
    /// its kind and whatever its neighbours, in storage order.
    pub fn generate_naive_mesh(&self) -> (mesh: MeshBuffer)
        requires
            self.wf(),
            24 * volume(self.size as int) <= u32::MAX,
        ensures
            mesh@ == naive_mesh(self.size as int, volume(self.size as int)),
            mesh.positions@.len() == 24 * volume(self.size as int),
            mesh.normals@.len() == 24 * volume(self.size as int),
            mesh.indices@.len() == 36 * volume(self.size as int),
            mesh@.wf(),
    {
        generate_naive_mesh(self.voxels.as_slice(), self)
    }
}

} // verus!
