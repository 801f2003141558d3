//! Terrain population: from sampled noise to the blocks of a chunk.
//!
//! The noise fields themselves are sampled outside this library. What
//! arrives here is exact: for every column of the chunk the height that
//! the height field gave, truncated to an integer, and for every block
//! the value of the material field, in thousandths of its unit range.

use vstd::prelude::*;
use crate::block::{VoxelBlock, VoxelBlockType};
use crate::chunk::VoxelChunk;
use crate::coord::{
    ChunkCoord,
    LocalVoxelBlockCoord,
    LocalVoxelBlockOffset,
    offset_to_local,
    spec_offset_to_local,
};
use crate::mesh::{
    MeshVertex,
    VertexBuffer,
    collision_buffers,
    spec_chunk_faces,
    spec_face_indices,
    spec_face_vertices,
};
use crate::settings::{CHUNK_SIZE, MAX_OFFSET};

verus! {

/// Number of columns of a chunk.
pub const COLUMN_COUNT: usize = 256;

/// A range `low <= value < high` of the material field and the material
/// that it selects.
#[derive(Clone, Copy, Debug, PartialEq, Eq, Structural)]
pub struct MaterialBucket {
    pub low: i32,
    pub high: i32,
    pub block_type: VoxelBlockType,
}

impl MaterialBucket {
    pub open spec fn spec_contains(&self, value: int) -> bool {
        self.low <= value < self.high
    }

    pub fn contains(&self, value: i32) -> (r: bool)
        ensures
            r == self.spec_contains(value as int),
    {
        self.low <= value && value < self.high
    }
}

/// The material of a value: that of the first bucket, from `from` on, that
/// contains the value, and the fallback where none does.
pub open spec fn spec_classify_from(
    buckets: Seq<MaterialBucket>,
    fallback: VoxelBlockType,
    value: int,
    from: int,
) -> VoxelBlockType
    decreases buckets.len() - from,
{
    if from < 0 || from >= buckets.len() {
        fallback
    } else if buckets[from].spec_contains(value) {
        buckets[from].block_type
    } else {
        spec_classify_from(buckets, fallback, value, from + 1)
    }
}

/// The buckets that turn a value of the material field into a material,
/// and the material of every value that no bucket contains.
#[derive(Debug)]
pub struct MaterialTable {
    pub buckets: Vec<MaterialBucket>,
    pub fallback: VoxelBlockType,
}

impl MaterialTable {
    /// The material that the table gives to `value`.
    pub open spec fn spec_classify(&self, value: int) -> VoxelBlockType {
        spec_classify_from(self.buckets@, self.fallback, value, 0)
    }

    /// The buckets of the reference table, in thousandths.
    pub open spec fn spec_reference_buckets() -> Seq<MaterialBucket> {
        seq![
            MaterialBucket { low: 400, high: 410, block_type: VoxelBlockType::Gem },
            MaterialBucket { low: 410, high: 600, block_type: VoxelBlockType::Rock },
            MaterialBucket { low: 680, high: 700, block_type: VoxelBlockType::Dirt },
            MaterialBucket { low: 700, high: 1000, block_type: VoxelBlockType::Grass },
        ]
    }

    /// The reference table: a thin vein of gems below a wide band of rock,
    /// grass at the high values, and dirt everywhere else.
    pub fn reference() -> (r: Self)
        ensures
            r.buckets@ == Self::spec_reference_buckets(),
            r.fallback == VoxelBlockType::Dirt,
    {
        let mut buckets: Vec<MaterialBucket> = Vec::new();
        buckets.push(MaterialBucket { low: 400, high: 410, block_type: VoxelBlockType::Gem });
        buckets.push(MaterialBucket { low: 410, high: 600, block_type: VoxelBlockType::Rock });
        buckets.push(MaterialBucket { low: 680, high: 700, block_type: VoxelBlockType::Dirt });
        buckets.push(MaterialBucket { low: 700, high: 1000, block_type: VoxelBlockType::Grass });
        assert(buckets@ =~= Self::spec_reference_buckets());
        MaterialTable { buckets, fallback: VoxelBlockType::Dirt }
    }

    /// The material that the table gives to `value`.
    pub fn classify(&self, value: i32) -> (r: VoxelBlockType)
        ensures
            r == self.spec_classify(value as int),
    {
        let mut i: usize = 0;
        while i < self.buckets.len()
            invariant
                i <= self.buckets@.len(),
                self.spec_classify(value as int) == spec_classify_from(
                    self.buckets@,
                    self.fallback,
                    value as int,
                    i as int,
                ),
            decreases self.buckets@.len() - i,
        {
            if self.buckets[i].contains(value) {
                return self.buckets[i].block_type;
            }
            i = i + 1;
        }
        self.fallback
    }
}

/// What the reference table gives to each value: the four bands, and dirt
/// in the gaps between them, below them and from the top of the range on.
pub proof fn lemma_reference_classification(value: int)
    ensures
        spec_classify_from(
            MaterialTable::spec_reference_buckets(),
            VoxelBlockType::Dirt,
            value,
            0,
        ) == if 400 <= value < 410 {
            VoxelBlockType::Gem
        } else if 410 <= value < 600 {
            VoxelBlockType::Rock
        } else if 700 <= value < 1000 {
            VoxelBlockType::Grass
        } else {
            VoxelBlockType::Dirt
        },
{
    reveal_with_fuel(spec_classify_from, 6);
}

/// The samples of the two noise fields over one chunk.
#[derive(Debug)]
pub struct TerrainSamples {
    heights: Vec<i32>,
    block_values: Vec<i32>,
}

impl TerrainSamples {
    /// The height of each column, the column of `(x, z)` at `x + z * 16`.
    pub closed spec fn spec_heights(&self) -> Seq<i32> {
        self.heights@
    }

    /// The material value of each block, in the canonical order of the
    /// blocks.
    pub closed spec fn spec_block_values(&self) -> Seq<i32> {
        self.block_values@
    }

    /// There is one height for every column and one value for every block.
    pub open spec fn wf(&self) -> bool {
        &&& self.spec_heights().len() == COLUMN_COUNT
        &&& self.spec_block_values().len() == MAX_OFFSET
    }

    /// The height of the column that the block at `offset` stands in.
    pub open spec fn spec_height_at(&self, offset: int) -> int {
        let coord = spec_offset_to_local(offset);
        self.spec_heights()[coord.x + coord.z * CHUNK_SIZE] as int
    }

    /// Takes the samples of a chunk. Absent unless there is exactly one
    /// height per column and one value per block.
    pub fn new(heights: Vec<i32>, block_values: Vec<i32>) -> (r: Option<Self>)
        ensures
            r.is_some() <==> heights@.len() == COLUMN_COUNT && block_values@.len() == MAX_OFFSET,
            r.is_some() ==> {
                &&& r.unwrap().wf()
                &&& r.unwrap().spec_heights() == heights@
                &&& r.unwrap().spec_block_values() == block_values@
            },
    {
        if heights.len() == COLUMN_COUNT && block_values.len() == MAX_OFFSET as usize {
            Some(TerrainSamples { heights, block_values })
        } else {
            None
        }
    }
}

/// The world position at which the noise fields are sampled for the block
/// at `local` in `chunk`.
pub fn sample_point(chunk: ChunkCoord, local: LocalVoxelBlockCoord) -> (r: [i64; 3])
    ensures
        r[0] == chunk.x * CHUNK_SIZE + local.x,
        r[1] == local.y,
        r[2] == chunk.y * CHUNK_SIZE + local.z,
{
    [
        chunk.x as i64 * CHUNK_SIZE as i64 + local.x as i64,
        local.y as i64,
        chunk.y as i64 * CHUNK_SIZE as i64 + local.z as i64,
    ]
}

/// The block that stands at height `y` of a column of the given height:
/// filled up to and including the height, with the material of the
/// block's value, and empty above.
pub open spec fn spec_generated_block(
    height: int,
    y: int,
    block_type: VoxelBlockType,
) -> VoxelBlock {
    if y <= height {
        VoxelBlock { block_type, is_fully_surrounded: false }
    } else {
        VoxelBlock::spec_empty()
    }
}

/// The block that the generator puts at `offset`.
pub open spec fn spec_generated_at(
    samples: TerrainSamples,
    materials: MaterialTable,
    offset: int,
) -> VoxelBlock {
    spec_generated_block(
        samples.spec_height_at(offset),
        spec_offset_to_local(offset).y as int,
        materials.spec_classify(samples.spec_block_values()[offset] as int),
    )
}

/// Populates a chunk from the samples of its noise fields.
pub fn generate_single_chunk(samples: &TerrainSamples, materials: &MaterialTable) -> (r:
    VoxelChunk)
    requires
        samples.wf(),
    ensures
        r.wf(),
        forall|offset: int|
            0 <= offset < MAX_OFFSET ==> #[trigger] r@[offset] == spec_generated_at(
                *samples,
                *materials,
                offset,
            ),
{
    let mut game_chunk = VoxelChunk::new();
    let mut index: usize = 0;
    while index < MAX_OFFSET as usize
        invariant
            samples.wf(),
            game_chunk.wf(),
            index <= MAX_OFFSET,
            forall|offset: int|
                0 <= offset < index ==> #[trigger] game_chunk@[offset] == spec_generated_at(
                    *samples,
                    *materials,
                    offset,
                ),
            forall|offset: int|
                index <= offset < MAX_OFFSET ==> #[trigger] game_chunk@[offset]
                    == VoxelBlock::spec_empty(),
        decreases MAX_OFFSET - index,
    {
        let offset = LocalVoxelBlockOffset(index);
        let block_coord = offset_to_local(offset);
        let column: usize = (block_coord.x + block_coord.z * CHUNK_SIZE) as usize;
        let height: i32 = samples.heights[column];
        let block_value: i32 = samples.block_values[index];
        if height >= block_coord.y {
            let block_type = materials.classify(block_value);
            game_chunk.set_block(&offset, VoxelBlock { block_type, is_fully_surrounded: false });
        }
        index = index + 1;
    }
    game_chunk
}

/// A chunk with its render mesh and its collision buffers, ready to be
/// handed to the world.
#[derive(Debug)]
pub struct ChunkData {
    /// The triangle indices of the render mesh.
    pub mesh_indices: Vec<u32>,
    /// The vertices of the render mesh.
    pub mesh_vertices: VertexBuffer,
    /// The positions of the collision shape, in half blocks.
    pub vertex: Vec<[i32; 3]>,
    /// The triangles of the collision shape.
    pub indices: Vec<[u32; 3]>,
    pub chunk: VoxelChunk,
}

impl ChunkData {
    /// The render mesh is the face-culled mesh of the chunk, and the
    /// collision buffers repeat its positions and its triangles.
    pub open spec fn spec_consistent(&self) -> bool {
        let faces = spec_chunk_faces(self.chunk@, MAX_OFFSET as int);
        &&& self.chunk.wf()
        &&& self.mesh_vertices@ == spec_face_vertices(faces)
        &&& self.mesh_indices@ == spec_face_indices(0, faces.len() as int)
        &&& self.vertex@.len() == self.mesh_vertices@.len()
        &&& forall|i: int|
            0 <= i < self.mesh_vertices@.len() ==> {
                &&& (#[trigger] self.vertex@[i])[0] == self.mesh_vertices@[i].half_x
                &&& self.vertex@[i][1] == self.mesh_vertices@[i].half_y
                &&& self.vertex@[i][2] == self.mesh_vertices@[i].half_z
            }
        &&& self.indices@.len() == 2 * faces.len()
        &&& forall|t: int|
            0 <= t < 2 * faces.len() ==> {
                &&& (#[trigger] self.indices@[t])[0] == self.mesh_indices@[3 * t]
                &&& self.indices@[t][1] == self.mesh_indices@[3 * t + 1]
                &&& self.indices@[t][2] == self.mesh_indices@[3 * t + 2]
            }
    }
}

/// Meshes a populated chunk and derives its collision buffers.
pub fn bundle_chunk(chunk: VoxelChunk) -> (r: ChunkData)
    requires
        chunk.wf(),
    ensures
        r.chunk@ == chunk@,
        r.spec_consistent(),
{
    let (mesh_indices, mesh_vertices) = chunk.render_indices_and_vertices();
    let (vertex, indices) = collision_buffers(&mesh_vertices, &mesh_indices);
    ChunkData { mesh_indices, mesh_vertices, vertex, indices, chunk }
}

/// Populates a chunk from the samples of its noise fields, meshes it and
/// derives its collision buffers.
pub fn generate_chunk(samples: &TerrainSamples, materials: &MaterialTable) -> (r: ChunkData)
    requires
        samples.wf(),
    ensures
        r.spec_consistent(),
        forall|offset: int|
            0 <= offset < MAX_OFFSET ==> #[trigger] r.chunk@[offset] == spec_generated_at(
                *samples,
                *materials,
                offset,
            ),
{
    let chunk = generate_single_chunk(samples, materials);
    bundle_chunk(chunk)
}

/// A chunk for demonstrations: three layers of grass, at the heights 5 to
/// 7, in an otherwise empty chunk.
pub fn generate_single_demo_chunk() -> (r: VoxelChunk)
    ensures
        r.wf(),
        forall|offset: int|
            0 <= offset < MAX_OFFSET ==> #[trigger] r@[offset] == (if 4 < spec_offset_to_local(
                offset,
            ).y < 8 {
                VoxelBlock { block_type: VoxelBlockType::Grass, is_fully_surrounded: false }
            } else {
                VoxelBlock::spec_empty()
            }),
{
    let mut chunk = VoxelChunk::new();
    let mut index: usize = 0;
    while index < MAX_OFFSET as usize
        invariant
            chunk.wf(),
            index <= MAX_OFFSET,
            forall|offset: int|
                0 <= offset < index ==> #[trigger] chunk@[offset] == (if 4 < spec_offset_to_local(
                    offset,
                ).y < 8 {
                    VoxelBlock { block_type: VoxelBlockType::Grass, is_fully_surrounded: false }
                } else {
                    VoxelBlock::spec_empty()
                }),
            forall|offset: int|
                index <= offset < MAX_OFFSET ==> #[trigger] chunk@[offset]
                    == VoxelBlock::spec_empty(),
        decreases MAX_OFFSET - index,
    {
        let offset = LocalVoxelBlockOffset(index);
        let coord = offset_to_local(offset);
        if coord.y < 8 && coord.y > 4 {
            chunk.set_block(
                &offset,
                VoxelBlock { block_type: VoxelBlockType::Grass, is_fully_surrounded: false },
            );
        }
        index = index + 1;
    }
    chunk
}

/// Equal samples and equal material tables give equal chunks, block for
/// block: generation reads nothing but its arguments.
pub proof fn lemma_generation_is_deterministic(
    first: VoxelChunk,
    second: VoxelChunk,
    samples: TerrainSamples,
    materials: MaterialTable,
)
    requires
        first.wf(),
        second.wf(),
        forall|offset: int|
            0 <= offset < MAX_OFFSET ==> #[trigger] first@[offset] == spec_generated_at(
                samples,
                materials,
                offset,
            ),
        forall|offset: int|
            0 <= offset < MAX_OFFSET ==> #[trigger] second@[offset] == spec_generated_at(
                samples,
                materials,
                offset,
            ),
    ensures
        first@ == second@,
        spec_face_vertices(spec_chunk_faces(first@, MAX_OFFSET as int)) == spec_face_vertices(
            spec_chunk_faces(second@, MAX_OFFSET as int),
        ),
{
    assert(first@ =~= second@);
}

} // verus!
