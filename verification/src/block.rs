//! Blocks: the smallest addressable unit of the voxel world.

use vstd::prelude::*;

verus! {

/// The material of a block. `Empty` is air: it is never drawn and never
/// hides the face of a neighbor.
#[derive(Clone, Copy, Debug, PartialEq, Eq, Hash, Structural)]
pub enum VoxelBlockType {
    Empty,
    Rock,
    Grass,
    Gem,
    Dirt,
}

impl Default for VoxelBlockType {
    fn default() -> (r: Self)
        ensures
            r == VoxelBlockType::Empty,
    {
        VoxelBlockType::Empty
    }
}

impl VoxelBlockType {
    /// The column of the four-column texture atlas that shows this material.
    pub open spec fn spec_atlas_column(&self) -> int {
        match self {
            VoxelBlockType::Empty => 0,
            VoxelBlockType::Grass => 0,
            VoxelBlockType::Rock => 1,
            VoxelBlockType::Gem => 2,
            VoxelBlockType::Dirt => 3,
        }
    }

    /// The column of the four-column texture atlas that shows this material.
    /// The horizontal texture offset of the material is a quarter of it.
    pub fn atlas_column(&self) -> (r: u8)
        ensures
            r == self.spec_atlas_column(),
            r < 4,
    {
        match self {
            VoxelBlockType::Empty => 0,
            VoxelBlockType::Grass => 0,
            VoxelBlockType::Rock => 1,
            VoxelBlockType::Gem => 2,
            VoxelBlockType::Dirt => 3,
        }
    }

    pub fn is_empty(&self) -> (r: bool)
        ensures
            r == (*self == VoxelBlockType::Empty),
    {
        match self {
            VoxelBlockType::Empty => true,
            _ => false,
        }
    }
}

/// A block of a chunk: a value without identity.
#[derive(Clone, Copy, Debug, PartialEq, Eq, Structural)]
pub struct VoxelBlock {
    pub block_type: VoxelBlockType,
    /// Whether all six neighbors of the block are solid.
    pub is_fully_surrounded: bool,
}

impl VoxelBlock {
    /// The block that a fresh chunk is filled with.
    pub open spec fn spec_empty() -> VoxelBlock {
        VoxelBlock { block_type: VoxelBlockType::Empty, is_fully_surrounded: false }
    }

    /// A block of the given material that is not known to be surrounded.
    pub fn of_type(block_type: VoxelBlockType) -> (r: Self)
        ensures
            r == (VoxelBlock { block_type, is_fully_surrounded: false }),
    {
        VoxelBlock { block_type, is_fully_surrounded: false }
    }
}

impl Default for VoxelBlock {
    fn default() -> (r: Self)
        ensures
            r == VoxelBlock::spec_empty(),
    {
        VoxelBlock { block_type: VoxelBlockType::Empty, is_fully_surrounded: false }
    }
}

/// The material classes of the coarse block grid, which tells rock and
/// gems from plain ground.
#[derive(Clone, Copy, Debug, PartialEq, Eq, Hash, Structural)]
pub enum GameBlockType {
    Empty,
    Rock,
    Ground,
    Gem,
}

impl Default for GameBlockType {
    fn default() -> (r: Self)
        ensures
            r == GameBlockType::Empty,
    {
        GameBlockType::Empty
    }
}

/// A block of the coarse grid.
#[derive(Clone, Copy, Debug, PartialEq, Eq, Structural)]
pub struct GameBlock {
    pub block_type: GameBlockType,
    /// Whether all six neighbors of the block are solid.
    pub is_fully_surrounded: bool,
}

impl Default for GameBlock {
    fn default() -> (r: Self)
        ensures
            r == (GameBlock { block_type: GameBlockType::Empty, is_fully_surrounded: false }),
    {
        GameBlock { block_type: GameBlockType::Empty, is_fully_surrounded: false }
    }
}

impl GameBlockType {
    /// The material of the fine grid that this class is drawn as.
    pub open spec fn spec_voxel_type(&self) -> VoxelBlockType {
        match self {
            GameBlockType::Empty => VoxelBlockType::Empty,
            GameBlockType::Rock => VoxelBlockType::Rock,
            GameBlockType::Ground => VoxelBlockType::Grass,
            GameBlockType::Gem => VoxelBlockType::Gem,
        }
    }

    /// The material of the fine grid that this class is drawn as.
    pub fn voxel_type(&self) -> (r: VoxelBlockType)
        ensures
            r == self.spec_voxel_type(),
            r == VoxelBlockType::Empty <==> *self == GameBlockType::Empty,
    {
        match self {
            GameBlockType::Empty => VoxelBlockType::Empty,
            GameBlockType::Rock => VoxelBlockType::Rock,
            GameBlockType::Ground => VoxelBlockType::Grass,
            GameBlockType::Gem => VoxelBlockType::Gem,
        }
    }
}

} // verus!
