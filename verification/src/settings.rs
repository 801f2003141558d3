//! Dimensions of a chunk and the world-streaming configuration.

use vstd::prelude::*;

verus! {

/// Integer type of every block and chunk coordinate.
pub type CoordSystemIntegerSize = i32;

/// Width and depth of a chunk, in blocks.
pub const CHUNK_SIZE: i32 = 16;

/// Height of a chunk, in blocks.
pub const CHUNK_HEIGHT: i32 = 80;

/// Number of blocks in a chunk; every valid linear offset is below it.
pub const MAX_OFFSET: i32 = 20480;

/// How far around the player chunks are shown and preloaded.
#[derive(Clone, Copy, Debug, PartialEq, Eq, Structural)]
pub struct World {
    /// Half-width, in chunks, of the window in which chunks are visible.
    pub world_dimension: i32,
    /// Extra ring of chunks, beyond the visible window, that is kept loaded.
    pub preload_extra_distance: i32,
}

impl World {
    /// The half-width of the outer (keep-loaded) window.
    pub open spec fn spec_outer_distance(&self) -> int {
        self.world_dimension + self.preload_extra_distance
    }
}

/// The chunk volume is the product of its three dimensions.
pub proof fn lemma_max_offset_is_volume()
    ensures
        MAX_OFFSET == CHUNK_SIZE * CHUNK_HEIGHT * CHUNK_SIZE,
{
}

} // verus!
