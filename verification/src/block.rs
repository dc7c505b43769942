//! Block kinds and the predicates derived from them.

use vstd::prelude::*;

verus! {

/// The closed set of block kinds.
#[derive(Clone, Copy, Debug, PartialEq, Eq, Hash, Structural)]
pub enum BlockType {
    Air,
    Dirt,
    Stone,
    Grass,
    Water,
    OakLog,
    Leaves,
}

/// One voxel: a block kind together with the predicates that follow from it.
#[derive(Clone, Copy, Debug, PartialEq, Eq, Structural)]
pub struct Block {
    pub block_type: BlockType,
}

impl Block {
    /// A block is solid unless it is air or water.
    pub open spec fn spec_is_solid(&self) -> bool {
        self.block_type != BlockType::Air && self.block_type != BlockType::Water
    }

    /// A block is transparent when it is air, water or leaves.
    pub open spec fn spec_is_transparent(&self) -> bool {
        self.block_type == BlockType::Air || self.block_type == BlockType::Water
            || self.block_type == BlockType::Leaves
    }

    /// A block is active when it is anything but air.
    pub open spec fn spec_is_active(&self) -> bool {
        self.block_type != BlockType::Air
    }

    /// Whether the block is water.
    pub open spec fn spec_is_water(&self) -> bool {
        self.block_type == BlockType::Water
    }

    pub fn new(block_type: BlockType) -> (block: Self)
        ensures
            block == (Block { block_type }),
    {
        Self { block_type }
    }

    #[verifier::when_used_as_spec(spec_is_solid)]
    pub fn is_solid(&self) -> (solid: bool)
        ensures
            solid == self.spec_is_solid(),
    {
        !matches!(self.block_type, BlockType::Air | BlockType::Water)
    }

    #[verifier::when_used_as_spec(spec_is_transparent)]
    pub fn is_transparent(&self) -> (transparent: bool)
        ensures
            transparent == self.spec_is_transparent(),
    {
        matches!(self.block_type, BlockType::Air | BlockType::Water | BlockType::Leaves)
    }

    #[verifier::when_used_as_spec(spec_is_active)]
    pub fn is_active(&self) -> (active: bool)
        ensures
            active == self.spec_is_active(),
    {
        !matches!(self.block_type, BlockType::Air)
    }

    #[verifier::when_used_as_spec(spec_is_water)]
    pub fn is_water(&self) -> (water: bool)
        ensures
            water == self.spec_is_water(),
    {
        matches!(self.block_type, BlockType::Water)
    }
}

impl Default for Block {
    /// The default block is air.
    fn default() -> (block: Self)
        ensures
            block == (Block { block_type: BlockType::Air }),
    {
        Self { block_type: BlockType::Air }
    }
}

} // verus!
