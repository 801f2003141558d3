//! Chunk storage: the block grid of one chunk, held as a flat buffer in the
//! canonical linearization order.

use vstd::prelude::*;
use crate::block::{VoxelBlock, VoxelBlockType};
use crate::coord::{
    LocalVoxelBlockCoord,
    LocalVoxelBlockOffset,
    local_to_offset,
    spec_in_chunk,
    spec_linear_offset,
};
use crate::settings::MAX_OFFSET;

verus! {

/// What addresses a block of a chunk: a linear offset, a local coordinate,
/// or the three components of one.
pub trait BlockAddress {
    /// The offset of the addressed block, if the address lies in the chunk.
    spec fn spec_block_offset(&self) -> Option<int>;

    /// The offset of the addressed block, if the address lies in the chunk.
    fn block_offset(&self) -> (r: Option<LocalVoxelBlockOffset>)
        ensures
            r.is_some() == self.spec_block_offset().is_some(),
            r.is_some() ==> r.unwrap().0 == self.spec_block_offset().unwrap(),
            r.is_some() ==> r.unwrap().0 < MAX_OFFSET,
    ;
}

impl BlockAddress for LocalVoxelBlockOffset {
    open spec fn spec_block_offset(&self) -> Option<int> {
        if self.0 < MAX_OFFSET {
            Some(self.0 as int)
        } else {
            None
        }
    }

    fn block_offset(&self) -> (r: Option<LocalVoxelBlockOffset>) {
        if self.0 < MAX_OFFSET as usize {
            Some(*self)
        } else {
            None
        }
    }
}

impl BlockAddress for LocalVoxelBlockCoord {
    open spec fn spec_block_offset(&self) -> Option<int> {
        if self.spec_is_valid() {
            Some(self.spec_offset())
        } else {
            None
        }
    }

    fn block_offset(&self) -> (r: Option<LocalVoxelBlockOffset>) {
        match local_to_offset(*self) {
            Ok(offset) => Some(offset),
            Err(_) => None,
        }
    }
}

impl BlockAddress for [i32; 3] {
    open spec fn spec_block_offset(&self) -> Option<int> {
        if spec_in_chunk(self[0] as int, self[1] as int, self[2] as int) {
            Some(spec_linear_offset(self[0] as int, self[1] as int, self[2] as int))
        } else {
            None
        }
    }

    fn block_offset(&self) -> (r: Option<LocalVoxelBlockOffset>) {
        match local_to_offset(LocalVoxelBlockCoord { x: self[0], y: self[1], z: self[2] }) {
            Ok(offset) => Some(offset),
            Err(_) => None,
        }
    }
}

/// The blocks of one chunk. The buffer always holds exactly one block for
/// every offset of the chunk volume.
#[derive(Debug)]
pub struct VoxelChunk {
    blocks: Vec<VoxelBlock>,
}

impl View for VoxelChunk {
    type V = Seq<VoxelBlock>;

    closed spec fn view(&self) -> Seq<VoxelBlock> {
        self.blocks@
    }
}

impl Clone for VoxelChunk {
    fn clone(&self) -> (r: Self)
        ensures
            r@ == self@,
    {
        let mut blocks: Vec<VoxelBlock> = Vec::new();
        let mut i: usize = 0;
        while i < self.blocks.len()
            invariant
                i <= self.blocks@.len(),
                blocks@ == self.blocks@.take(i as int),
            decreases self.blocks@.len() - i,
        {
            blocks.push(self.blocks[i]);
            i = i + 1;
            assert(blocks@ =~= self.blocks@.take(i as int));
        }
        assert(blocks@ =~= self.blocks@);
        VoxelChunk { blocks }
    }
}

impl Default for VoxelChunk {
    fn default() -> (r: Self)
        ensures
            r.wf(),
            r@ =~= Seq::new(MAX_OFFSET as nat, |i: int| VoxelBlock::spec_empty()),
    {
        VoxelChunk::new()
    }
}

impl VoxelChunk {
    /// The chunk holds exactly one block for every offset of its volume.
    /// Every chunk that this module hands out is well formed, and every
    /// method keeps it so.
    pub open spec fn wf(&self) -> bool {
        self@.len() == MAX_OFFSET
    }

    /// A chunk of empty blocks.
    pub fn new() -> (r: Self)
        ensures
            r.wf(),
            r@ =~= Seq::new(MAX_OFFSET as nat, |i: int| VoxelBlock::spec_empty()),
    {
        let mut blocks: Vec<VoxelBlock> = Vec::new();
        let mut i: i32 = 0;
        while i < MAX_OFFSET
            invariant
                0 <= i <= MAX_OFFSET,
                blocks@.len() == i,
                forall|k: int| 0 <= k < i ==> blocks@[k] == VoxelBlock::spec_empty(),
            decreases MAX_OFFSET - i,
        {
            blocks.push(VoxelBlock { block_type: VoxelBlockType::Empty, is_fully_surrounded: false });
            i = i + 1;
        }
        VoxelChunk { blocks }
    }

    /// The block at an address, or nothing when the address lies outside
    /// the chunk.
    pub fn get_block<P: BlockAddress>(&self, into_coord: &P) -> (r: Option<&VoxelBlock>)
        requires
            self.wf(),
        ensures
            r.is_some() == into_coord.spec_block_offset().is_some(),
            r.is_some() ==> *r.unwrap() == self@[into_coord.spec_block_offset().unwrap()],
    {
        match into_coord.block_offset() {
            Some(offset) => Some(&self.blocks[offset.0]),
            None => None,
        }
    }

    /// Stores `block` at an address. Outside the chunk, nothing changes.
    pub fn set_block<P: BlockAddress>(&mut self, into_coord: &P, block: VoxelBlock)
        requires
            old(self).wf(),
        ensures
            final(self).wf(),
            final(self)@ == (match into_coord.spec_block_offset() {
                Some(offset) => old(self)@.update(offset, block),
                None => old(self)@,
            }),
    {
        match into_coord.block_offset() {
            Some(offset) => {
                self.blocks.set(offset.0, block);
            },
            None => {},
        }
    }

    /// Mutable access to the block at an address, or nothing when the
    /// address lies outside the chunk. Whatever is written through the
    /// reference is the only change to the chunk.
    pub fn get_block_mut<P: BlockAddress>(&mut self, into_coord: &P) -> (r: Option<
        &mut VoxelBlock,
    >)
        requires
            old(self).wf(),
        ensures
            r.is_some() == into_coord.spec_block_offset().is_some(),
            match r {
                Some(block) => {
                    &&& *block == old(self)@[into_coord.spec_block_offset().unwrap()]
                    &&& final(self)@ == old(self)@.update(
                        into_coord.spec_block_offset().unwrap(),
                        *final(block),
                    )
                },
                None => final(self)@ == old(self)@,
            },
            final(self).wf(),
    {
        match into_coord.block_offset() {
            Some(offset) => Some(&mut self.blocks[offset.0]),
            None => None,
        }
    }

    /// Replaces the block at an address by what `update` makes of it.
    /// Outside the chunk, nothing changes and `update` is not called.
    pub fn update_block<P: BlockAddress, F: Fn(VoxelBlock) -> VoxelBlock>(
        &mut self,
        into_coord: &P,
        update: F,
    )
        requires
            old(self).wf(),
            into_coord.spec_block_offset().is_some() ==> update.requires(
                (old(self)@[into_coord.spec_block_offset().unwrap()],),
            ),
        ensures
            final(self).wf(),
            match into_coord.spec_block_offset() {
                Some(offset) => {
                    &&& update.ensures((old(self)@[offset],), final(self)@[offset])
                    &&& final(self)@ == old(self)@.update(offset, final(self)@[offset])
                },
                None => final(self)@ == old(self)@,
            },
    {
        match into_coord.block_offset() {
            Some(offset) => {
                let next = update(self.blocks[offset.0]);
                self.blocks.set(offset.0, next);
            },
            None => {},
        }
    }
}

} // verus!
