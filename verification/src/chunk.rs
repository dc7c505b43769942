//! A chunk: a dense 16 x 256 x 16 grid of blocks stored as one contiguous
//! buffer, reachable only through bounds-checked reads and writes.

use vstd::prelude::*;
use crate::block::{Block, BlockType};

verus! {

/// Edge length of a chunk along x and along z.
pub const CHUNK_SIZE: usize = 16;

/// Height of a chunk along y.
pub const CHUNK_HEIGHT: usize = 256;

/// Number of voxels in one chunk.
pub const CHUNK_VOLUME: usize = 65536;

/// Whether `(x, y, z)` names a voxel of a chunk.
pub open spec fn in_bounds(x: int, y: int, z: int) -> bool {
    0 <= x < CHUNK_SIZE && 0 <= y < CHUNK_HEIGHT && 0 <= z < CHUNK_SIZE
}

/// Position of voxel `(x, y, z)` in the contiguous buffer.
pub open spec fn grid_index(x: int, y: int, z: int) -> int {
    (x * CHUNK_HEIGHT + y) * CHUNK_SIZE + z
}

/// Whether `grid` has one entry per voxel of a chunk.
pub open spec fn is_grid(grid: Seq<Block>) -> bool {
    grid.len() == CHUNK_VOLUME
}

/// The block at `(x, y, z)` of `grid`, or nothing outside the chunk.
pub open spec fn grid_get(grid: Seq<Block>, x: int, y: int, z: int) -> Option<Block> {
    if in_bounds(x, y, z) {
        Some(grid[grid_index(x, y, z)])
    } else {
        None
    }
}

/// `grid` after writing `block_type` at `(x, y, z)`; the same grid when the
/// coordinate lies outside the chunk.
pub open spec fn grid_set(grid: Seq<Block>, x: int, y: int, z: int, block_type: BlockType) -> Seq<
    Block,
> {
    if in_bounds(x, y, z) {
        grid.update(grid_index(x, y, z), Block { block_type })
    } else {
        grid
    }
}

/// The kind of the block at voxel `(x, y, z)` of `grid`.
pub open spec fn grid_kind(grid: Seq<Block>, x: int, y: int, z: int) -> BlockType {
    grid[grid_index(x, y, z)].block_type
}

/// The grid of a freshly created chunk: air everywhere.
pub open spec fn air_grid() -> Seq<Block> {
    Seq::new(CHUNK_VOLUME as nat, |i: int| Block { block_type: BlockType::Air })
}

/// Distinct voxels of a chunk occupy distinct buffer positions, all inside the
/// buffer.
pub proof fn lemma_grid_index_injective(x1: int, y1: int, z1: int, x2: int, y2: int, z2: int)
    requires
        in_bounds(x1, y1, z1),
        in_bounds(x2, y2, z2),
    ensures
        0 <= grid_index(x1, y1, z1) < CHUNK_VOLUME,
        grid_index(x1, y1, z1) == grid_index(x2, y2, z2) <==> (x1 == x2 && y1 == y2 && z1 == z2),
{
}

/// Reading back a voxel that was just written yields the written kind, and a
/// write changes no other voxel. A write outside the chunk changes nothing.
pub proof fn lemma_grid_set_get(
    grid: Seq<Block>,
    x: int,
    y: int,
    z: int,
    block_type: BlockType,
    ox: int,
    oy: int,
    oz: int,
)
    requires
        is_grid(grid),
    ensures
        is_grid(grid_set(grid, x, y, z, block_type)),
        in_bounds(x, y, z) ==> grid_get(grid_set(grid, x, y, z, block_type), x, y, z) == Some(
            Block { block_type },
        ),
        (ox != x || oy != y || oz != z) ==> grid_get(
            grid_set(grid, x, y, z, block_type),
            ox,
            oy,
            oz,
        ) == grid_get(grid, ox, oy, oz),
        !in_bounds(x, y, z) ==> grid_set(grid, x, y, z, block_type) == grid,
{
    if in_bounds(x, y, z) && in_bounds(ox, oy, oz) {
        lemma_grid_index_injective(x, y, z, ox, oy, oz);
    }
    if in_bounds(x, y, z) {
        lemma_grid_index_injective(x, y, z, x, y, z);
    }
}

/// A write inside the chunk sets the kind of the written voxel and leaves the
/// kind of every other voxel as it was.
pub proof fn lemma_grid_set_kinds(grid: Seq<Block>, x: int, y: int, z: int, block_type: BlockType)
    requires
        is_grid(grid),
        in_bounds(x, y, z),
    ensures
        is_grid(grid_set(grid, x, y, z, block_type)),
        forall|ox: int, oy: int, oz: int|
            in_bounds(ox, oy, oz) ==> #[trigger] grid_kind(
                grid_set(grid, x, y, z, block_type),
                ox,
                oy,
                oz,
            ) == (if ox == x && oy == y && oz == z {
                block_type
            } else {
                grid_kind(grid, ox, oy, oz)
            }),
{
    assert forall|ox: int, oy: int, oz: int| in_bounds(ox, oy, oz) implies #[trigger] grid_kind(
        grid_set(grid, x, y, z, block_type),
        ox,
        oy,
        oz,
    ) == (if ox == x && oy == y && oz == z {
        block_type
    } else {
        grid_kind(grid, ox, oy, oz)
    }) by {
        lemma_grid_index_injective(x, y, z, ox, oy, oz);
    }
}

/// A fixed-size column of voxels addressed by a chunk coordinate.
pub struct Chunk {
    x: i32,
    z: i32,
    blocks: Box<[Block; CHUNK_VOLUME]>,
}

impl Chunk {
    /// The chunk's x coordinate, in chunks.
    pub closed spec fn spec_x(&self) -> i32 {
        self.x
    }

    /// The chunk's z coordinate, in chunks.
    pub closed spec fn spec_z(&self) -> i32 {
        self.z
    }

    /// The chunk's blocks, one per voxel, in buffer order. The chunk's
    /// coordinate is no part of the view; `spec_x` and `spec_z` state it.
    pub closed spec fn view(&self) -> Seq<Block> {
        self.blocks@
    }

    /// Every chunk holds a full grid.
    pub proof fn lemma_view_is_grid(&self)
        ensures
            is_grid(self@),
    {
    }

    /// Creates the chunk at chunk coordinate `(x, z)`, filled with air.
    pub fn new(x: i32, z: i32) -> (chunk: Self)
        ensures
            chunk.spec_x() == x,
            chunk.spec_z() == z,
            chunk@ == air_grid(),
    {
        let air = Block { block_type: BlockType::Air };
        let chunk = Self { x, z, blocks: Box::new([air; CHUNK_VOLUME]) };
        assert(chunk@ =~= air_grid());
        chunk
    }

    #[verifier::when_used_as_spec(spec_x)]
    pub fn x(&self) -> (x: i32)
        ensures
            x == self.spec_x(),
    {
        self.x
    }

    #[verifier::when_used_as_spec(spec_z)]
    pub fn z(&self) -> (z: i32)
        ensures
            z == self.spec_z(),
    {
        self.z
    }

    /// Writes `block_type` at `(x, y, z)`. A coordinate outside the chunk is
    /// ignored.
    pub fn set_block(&mut self, x: usize, y: usize, z: usize, block_type: BlockType)
        ensures
            final(self)@ == grid_set(old(self)@, x as int, y as int, z as int, block_type),
            final(self).spec_x() == old(self).spec_x(),
            final(self).spec_z() == old(self).spec_z(),
    {
        if x < CHUNK_SIZE && y < CHUNK_HEIGHT && z < CHUNK_SIZE {
            self.blocks[(x * CHUNK_HEIGHT + y) * CHUNK_SIZE + z] = Block::new(block_type);
        }
    }

    /// Reads the block at `(x, y, z)`, or nothing outside the chunk.
    pub fn get_block(&self, x: usize, y: usize, z: usize) -> (block: Option<&Block>)
        ensures
            match block {
                Some(b) => grid_get(self@, x as int, y as int, z as int) == Some(*b),
                None => grid_get(self@, x as int, y as int, z as int) is None,
            },
    {
        if x < CHUNK_SIZE && y < CHUNK_HEIGHT && z < CHUNK_SIZE {
            Some(&self.blocks[(x * CHUNK_HEIGHT + y) * CHUNK_SIZE + z])
        } else {
            None
        }
    }
}

} // verus!
