//! Face-culled meshing of a chunk.
//!
//! The mesh is held in exact integer units: a vertex position counts half
//! blocks (a block at local `x` spans `2x - 1 ..= 2x + 1`), and the
//! horizontal texture coordinate counts quarters of the atlas width.

use vstd::prelude::*;
use crate::block::{VoxelBlock, VoxelBlockType};
use crate::chunk::VoxelChunk;
use crate::coord::{
    ChunkCoord,
    LocalVoxelBlockCoord,
    LocalVoxelBlockOffset,
    offset_to_local,
    spec_offset_to_local,
};
use crate::settings::{CHUNK_SIZE, MAX_OFFSET};

verus! {

/// The six faces of a block, in the order in which they are emitted.
#[derive(Clone, Copy, Debug, PartialEq, Eq, Structural)]
pub enum FaceDirection {
    /// Towards +z.
    Front,
    /// Towards -z.
    Back,
    /// Towards +x.
    Right,
    /// Towards -x.
    Left,
    /// Towards +y.
    Top,
    /// Towards -y.
    Bottom,
}

/// One corner of a face: its position relative to the block's centre, in
/// half blocks, and its place in the face's texture quad.
#[derive(Clone, Copy, Debug, PartialEq, Eq, Structural)]
pub struct Corner {
    pub sx: i32,
    pub sy: i32,
    pub sz: i32,
    pub u: u8,
    pub v: u8,
}

/// A vertex of the mesh.
#[derive(Clone, Copy, Debug, PartialEq, Eq, Structural)]
pub struct MeshVertex {
    /// Position along x, in half blocks.
    pub half_x: i32,
    /// Position along y, in half blocks.
    pub half_y: i32,
    /// Position along z, in half blocks.
    pub half_z: i32,
    pub normal_x: i32,
    pub normal_y: i32,
    pub normal_z: i32,
    /// Horizontal texture coordinate, in quarters of the atlas width.
    pub quarter_u: u8,
    /// Vertical texture coordinate, in whole heights of the atlas.
    pub v: u8,
}

/// A face that the mesh shows: which block it belongs to, which way it
/// looks, and the material that textures it.
#[derive(Clone, Copy, Debug, PartialEq, Eq, Structural)]
pub struct Face {
    pub coord: LocalVoxelBlockCoord,
    pub direction: FaceDirection,
    pub block_type: VoxelBlockType,
}

pub type VertexBuffer = Vec<MeshVertex>;

impl MeshVertex {
    /// The position of the vertex in the world, in half blocks: its
    /// position in the chunk, moved by the world origin of the chunk.
    pub fn world_position(&self, chunk: ChunkCoord) -> (r: [i64; 3])
        ensures
            r[0] == self.half_x + 2 * (chunk.x * CHUNK_SIZE),
            r[1] == self.half_y,
            r[2] == self.half_z + 2 * (chunk.y * CHUNK_SIZE),
    {
        let origin = chunk.world_origin();
        [
            self.half_x as i64 + 2 * origin[0],
            self.half_y as i64,
            self.half_z as i64 + 2 * origin[2],
        ]
    }
}

impl Corner {
    /// The corner with the given signs and texture coordinates.
    pub open spec fn spec_of(sx: int, sy: int, sz: int, u: int, v: int) -> Corner {
        Corner { sx: sx as i32, sy: sy as i32, sz: sz as i32, u: u as u8, v: v as u8 }
    }
}

impl FaceDirection {
    /// The direction with the given place in the emission order.
    pub open spec fn spec_from_index(index: int) -> FaceDirection {
        if index == 0 {
            FaceDirection::Front
        } else if index == 1 {
            FaceDirection::Back
        } else if index == 2 {
            FaceDirection::Right
        } else if index == 3 {
            FaceDirection::Left
        } else if index == 4 {
            FaceDirection::Top
        } else {
            FaceDirection::Bottom
        }
    }

    /// The step from a block to the neighbor behind this face; it is also
    /// the face's normal.
    pub open spec fn spec_delta(&self) -> (int, int, int) {
        match self {
            FaceDirection::Front => (0, 0, 1),
            FaceDirection::Back => (0, 0, -1),
            FaceDirection::Right => (1, 0, 0),
            FaceDirection::Left => (-1, 0, 0),
            FaceDirection::Top => (0, 1, 0),
            FaceDirection::Bottom => (0, -1, 0),
        }
    }

    /// The `k`-th corner of the face, in winding order.
    pub open spec fn spec_corner(&self, k: int) -> Corner {
        match self {
            FaceDirection::Front => if k == 0 {
                Corner::spec_of(-1, -1, 1, 0, 0)
            } else if k == 1 {
                Corner::spec_of(1, -1, 1, 1, 0)
            } else if k == 2 {
                Corner::spec_of(1, 1, 1, 1, 1)
            } else {
                Corner::spec_of(-1, 1, 1, 0, 1)
            },
            FaceDirection::Back => if k == 0 {
                Corner::spec_of(-1, 1, -1, 1, 0)
            } else if k == 1 {
                Corner::spec_of(1, 1, -1, 0, 0)
            } else if k == 2 {
                Corner::spec_of(1, -1, -1, 0, 1)
            } else {
                Corner::spec_of(-1, -1, -1, 1, 1)
            },
            FaceDirection::Right => if k == 0 {
                Corner::spec_of(1, -1, -1, 0, 0)
            } else if k == 1 {
                Corner::spec_of(1, 1, -1, 1, 0)
            } else if k == 2 {
                Corner::spec_of(1, 1, 1, 1, 1)
            } else {
                Corner::spec_of(1, -1, 1, 0, 1)
            },
            FaceDirection::Left => if k == 0 {
                Corner::spec_of(-1, -1, 1, 1, 0)
            } else if k == 1 {
                Corner::spec_of(-1, 1, 1, 0, 0)
            } else if k == 2 {
                Corner::spec_of(-1, 1, -1, 0, 1)
            } else {
                Corner::spec_of(-1, -1, -1, 1, 1)
            },
            FaceDirection::Top => if k == 0 {
                Corner::spec_of(1, 1, -1, 1, 0)
            } else if k == 1 {
                Corner::spec_of(-1, 1, -1, 0, 0)
            } else if k == 2 {
                Corner::spec_of(-1, 1, 1, 0, 1)
            } else {
                Corner::spec_of(1, 1, 1, 1, 1)
            },
            FaceDirection::Bottom => if k == 0 {
                Corner::spec_of(1, -1, 1, 0, 0)
            } else if k == 1 {
                Corner::spec_of(-1, -1, 1, 1, 0)
            } else if k == 2 {
                Corner::spec_of(-1, -1, -1, 1, 1)
            } else {
                Corner::spec_of(1, -1, -1, 0, 1)
            },
        }
    }

    /// The direction with the given place in the emission order.
    pub fn from_index(index: usize) -> (r: FaceDirection)
        ensures
            r == Self::spec_from_index(index as int),
    {
        if index == 0 {
            FaceDirection::Front
        } else if index == 1 {
            FaceDirection::Back
        } else if index == 2 {
            FaceDirection::Right
        } else if index == 3 {
            FaceDirection::Left
        } else if index == 4 {
            FaceDirection::Top
        } else {
            FaceDirection::Bottom
        }
    }

    /// The step from a block to the neighbor behind this face.
    pub fn delta(&self) -> (r: [i32; 3])
        ensures
            r[0] == self.spec_delta().0,
            r[1] == self.spec_delta().1,
            r[2] == self.spec_delta().2,
    {
        match self {
            FaceDirection::Front => [0, 0, 1],
            FaceDirection::Back => [0, 0, -1],
            FaceDirection::Right => [1, 0, 0],
            FaceDirection::Left => [-1, 0, 0],
            FaceDirection::Top => [0, 1, 0],
            FaceDirection::Bottom => [0, -1, 0],
        }
    }

    /// The `k`-th corner of the face, in winding order.
    pub fn corner(&self, k: usize) -> (r: Corner)
        ensures
            r == self.spec_corner(k as int),
    {
        match self {
            FaceDirection::Front => if k == 0 {
                Corner { sx: -1, sy: -1, sz: 1, u: 0, v: 0 }
            } else if k == 1 {
                Corner { sx: 1, sy: -1, sz: 1, u: 1, v: 0 }
            } else if k == 2 {
                Corner { sx: 1, sy: 1, sz: 1, u: 1, v: 1 }
            } else {
                Corner { sx: -1, sy: 1, sz: 1, u: 0, v: 1 }
            },
            FaceDirection::Back => if k == 0 {
                Corner { sx: -1, sy: 1, sz: -1, u: 1, v: 0 }
            } else if k == 1 {
                Corner { sx: 1, sy: 1, sz: -1, u: 0, v: 0 }
            } else if k == 2 {
                Corner { sx: 1, sy: -1, sz: -1, u: 0, v: 1 }
            } else {
                Corner { sx: -1, sy: -1, sz: -1, u: 1, v: 1 }
            },
            FaceDirection::Right => if k == 0 {
                Corner { sx: 1, sy: -1, sz: -1, u: 0, v: 0 }
            } else if k == 1 {
                Corner { sx: 1, sy: 1, sz: -1, u: 1, v: 0 }
            } else if k == 2 {
                Corner { sx: 1, sy: 1, sz: 1, u: 1, v: 1 }
            } else {
                Corner { sx: 1, sy: -1, sz: 1, u: 0, v: 1 }
            },
            FaceDirection::Left => if k == 0 {
                Corner { sx: -1, sy: -1, sz: 1, u: 1, v: 0 }
            } else if k == 1 {
                Corner { sx: -1, sy: 1, sz: 1, u: 0, v: 0 }
            } else if k == 2 {
                Corner { sx: -1, sy: 1, sz: -1, u: 0, v: 1 }
            } else {
                Corner { sx: -1, sy: -1, sz: -1, u: 1, v: 1 }
            },
            FaceDirection::Top => if k == 0 {
                Corner { sx: 1, sy: 1, sz: -1, u: 1, v: 0 }
            } else if k == 1 {
                Corner { sx: -1, sy: 1, sz: -1, u: 0, v: 0 }
            } else if k == 2 {
                Corner { sx: -1, sy: 1, sz: 1, u: 0, v: 1 }
            } else {
                Corner { sx: 1, sy: 1, sz: 1, u: 1, v: 1 }
            },
            FaceDirection::Bottom => if k == 0 {
                Corner { sx: 1, sy: -1, sz: 1, u: 0, v: 0 }
            } else if k == 1 {
                Corner { sx: -1, sy: -1, sz: 1, u: 1, v: 0 }
            } else if k == 2 {
                Corner { sx: -1, sy: -1, sz: -1, u: 1, v: 1 }
            } else {
                Corner { sx: 1, sy: -1, sz: -1, u: 0, v: 1 }
            },
        }
    }
}

/// Whether the face of the block at `coord` that looks in `direction` is
/// drawn: the neighbor behind it lies outside the chunk, or is empty.
pub open spec fn spec_face_is_drawn(
    blocks: Seq<VoxelBlock>,
    coord: LocalVoxelBlockCoord,
    direction: FaceDirection,
) -> bool {
    let d = direction.spec_delta();
    match coord.spec_step(d.0, d.1, d.2) {
        None => true,
        Some(neighbor) => blocks[neighbor.spec_offset()].block_type == VoxelBlockType::Empty,
    }
}

/// The drawn faces of the block at `offset` among its first `upto`
/// directions, in emission order.
pub open spec fn spec_block_faces(blocks: Seq<VoxelBlock>, offset: int, upto: int) -> Seq<Face>
    decreases upto,
{
    if upto <= 0 {
        Seq::empty()
    } else {
        let before = spec_block_faces(blocks, offset, upto - 1);
        let coord = spec_offset_to_local(offset);
        let direction = FaceDirection::spec_from_index(upto - 1);
        if spec_face_is_drawn(blocks, coord, direction) {
            before.push(Face { coord, direction, block_type: blocks[offset].block_type })
        } else {
            before
        }
    }
}

/// The drawn faces of the first `upto` blocks of the chunk, in the
/// canonical order of the blocks. Empty blocks have none.
pub open spec fn spec_chunk_faces(blocks: Seq<VoxelBlock>, upto: int) -> Seq<Face>
    decreases upto,
{
    if upto <= 0 {
        Seq::empty()
    } else {
        let before = spec_chunk_faces(blocks, upto - 1);
        if blocks[upto - 1].block_type == VoxelBlockType::Empty {
            before
        } else {
            before + spec_block_faces(blocks, upto - 1, 6)
        }
    }
}

/// The `k`-th vertex of a face.
pub open spec fn spec_face_vertex(face: Face, k: int) -> MeshVertex {
    let corner = face.direction.spec_corner(k);
    let normal = face.direction.spec_delta();
    MeshVertex {
        half_x: (2 * face.coord.x + corner.sx) as i32,
        half_y: (2 * face.coord.y + corner.sy) as i32,
        half_z: (2 * face.coord.z + corner.sz) as i32,
        normal_x: normal.0 as i32,
        normal_y: normal.1 as i32,
        normal_z: normal.2 as i32,
        quarter_u: (corner.u + face.block_type.spec_atlas_column()) as u8,
        v: corner.v,
    }
}

/// The vertex buffer of a list of faces: four vertices per face.
pub open spec fn spec_face_vertices(faces: Seq<Face>) -> Seq<MeshVertex> {
    Seq::new(4 * faces.len(), |i: int| spec_face_vertex(faces[i / 4], i % 4))
}

/// The place, among the four vertices of a face, of each of the six
/// indices of its two triangles.
pub open spec fn spec_index_template(k: int) -> int {
    if k == 0 {
        0
    } else if k == 1 {
        1
    } else if k == 2 {
        2
    } else if k == 3 {
        2
    } else if k == 4 {
        3
    } else {
        0
    }
}

/// The index list of `count` faces of which the first is face number
/// `first` of the mesh: six indices per face.
pub open spec fn spec_face_indices(first: int, count: int) -> Seq<u32> {
    Seq::new(
        (6 * count) as nat,
        |i: int| (4 * (first + i / 6) + spec_index_template(i % 6)) as u32,
    )
}

/// The vertex buffer of one face more is the buffer so far, followed by
/// the four vertices of the new face.
pub proof fn lemma_face_vertices_push(faces: Seq<Face>, face: Face)
    ensures
        spec_face_vertices(faces.push(face)) == spec_face_vertices(faces) + seq![
            spec_face_vertex(face, 0),
            spec_face_vertex(face, 1),
            spec_face_vertex(face, 2),
            spec_face_vertex(face, 3),
        ],
{
    let four = seq![
        spec_face_vertex(face, 0),
        spec_face_vertex(face, 1),
        spec_face_vertex(face, 2),
        spec_face_vertex(face, 3),
    ];
    assert(spec_face_vertices(faces.push(face)) =~= spec_face_vertices(faces) + four);
}

/// The vertex buffer of two face lists in a row is the two buffers in a
/// row.
pub proof fn lemma_face_vertices_concat(a: Seq<Face>, b: Seq<Face>)
    ensures
        spec_face_vertices(a + b) == spec_face_vertices(a) + spec_face_vertices(b),
{
    assert(spec_face_vertices(a + b) =~= spec_face_vertices(a) + spec_face_vertices(b));
}

/// The index list of two runs of faces in a row is the two lists in a row.
pub proof fn lemma_face_indices_concat(first: int, n: int, m: int)
    requires
        0 <= n,
        0 <= m,
    ensures
        spec_face_indices(first, n + m) == spec_face_indices(first, n) + spec_face_indices(
            first + n,
            m,
        ),
{
    assert(spec_face_indices(first, n + m) =~= spec_face_indices(first, n) + spec_face_indices(
        first + n,
        m,
    ));
}

/// A block shows at most one face per direction.
pub proof fn lemma_block_faces_len(blocks: Seq<VoxelBlock>, offset: int, upto: int)
    requires
        0 <= upto,
    ensures
        spec_block_faces(blocks, offset, upto).len() <= upto,
    decreases upto,
{
    if upto > 0 {
        lemma_block_faces_len(blocks, offset, upto - 1);
    }
}

/// A chunk shows at most six faces per block.
pub proof fn lemma_chunk_faces_len(blocks: Seq<VoxelBlock>, upto: int)
    requires
        0 <= upto,
    ensures
        spec_chunk_faces(blocks, upto).len() <= 6 * upto,
    decreases upto,
{
    if upto > 0 {
        lemma_chunk_faces_len(blocks, upto - 1);
        lemma_block_faces_len(blocks, upto - 1, 6);
    }
}

/// The `k`-th vertex of a face of the block at `coord`.
fn face_vertex(
    coord: LocalVoxelBlockCoord,
    direction: FaceDirection,
    block_type: VoxelBlockType,
    k: usize,
) -> (r: MeshVertex)
    requires
        coord.spec_is_valid(),
        k < 4,
    ensures
        r == spec_face_vertex(Face { coord, direction, block_type }, k as int),
{
    let corner = direction.corner(k);
    let normal = direction.delta();
    MeshVertex {
        half_x: 2 * coord.x + corner.sx,
        half_y: 2 * coord.y + corner.sy,
        half_z: 2 * coord.z + corner.sz,
        normal_x: normal[0],
        normal_y: normal[1],
        normal_z: normal[2],
        quarter_u: corner.u + block_type.atlas_column(),
        v: corner.v,
    }
}

impl VoxelChunk {
    /// Appends to the buffers the drawn faces of the block at `offset`: for
    /// each, four vertices and the six indices of its two triangles. The
    /// counter holds the number of faces that the buffers held before.
    pub fn render_chunk_block(
        &self,
        offset: &LocalVoxelBlockOffset,
        indices: &mut Vec<u32>,
        total_nb_faces: &mut u32,
        vertices: &mut VertexBuffer,
    )
        requires
            self.wf(),
            offset.0 < MAX_OFFSET,
            4 * (*old(total_nb_faces) + 6) <= u32::MAX,
        ensures
            final(vertices)@ == old(vertices)@ + spec_face_vertices(
                spec_block_faces(self@, offset.0 as int, 6),
            ),
            final(indices)@ == old(indices)@ + spec_face_indices(
                *old(total_nb_faces) as int,
                spec_block_faces(self@, offset.0 as int, 6).len() as int,
            ),
            *final(total_nb_faces) == *old(total_nb_faces) + spec_block_faces(
                self@,
                offset.0 as int,
                6,
            ).len(),
    {
        let block_coord = offset_to_local(*offset);
        let block_type = match self.get_block(offset) {
            Some(block) => block.block_type,
            None => VoxelBlockType::Empty,
        };
        let ghost first = *total_nb_faces as int;
        let ghost vertices_before = vertices@;
        let ghost indices_before = indices@;
        let mut d: usize = 0;
        assert(vertices@ =~= vertices_before + spec_face_vertices(
            spec_block_faces(self@, offset.0 as int, 0),
        ));
        assert(indices@ =~= indices_before + spec_face_indices(first, 0));
        while d < 6
            invariant
                self.wf(),
                offset.0 < MAX_OFFSET,
                block_coord == spec_offset_to_local(offset.0 as int),
                block_coord.spec_is_valid(),
                block_type == self@[offset.0 as int].block_type,
                0 <= first,
                4 * (first + 6) <= u32::MAX,
                d <= 6,
                spec_block_faces(self@, offset.0 as int, d as int).len() <= d,
                *total_nb_faces == first + spec_block_faces(self@, offset.0 as int, d as int).len(),
                vertices@ == vertices_before + spec_face_vertices(
                    spec_block_faces(self@, offset.0 as int, d as int),
                ),
                indices@ == indices_before + spec_face_indices(
                    first,
                    spec_block_faces(self@, offset.0 as int, d as int).len() as int,
                ),
            decreases 6 - d,
        {
            let direction = FaceDirection::from_index(d);
            let ghost faces = spec_block_faces(self@, offset.0 as int, d as int);
            let should_render_face = match block_coord.checked_step(direction.delta()) {
                None => true,
                Some(neighbor) => match self.get_block(&neighbor) {
                    Some(block) => block.block_type.is_empty(),
                    None => true,
                },
            };
            assert(should_render_face == spec_face_is_drawn(self@, block_coord, direction));
            if should_render_face {
                let ghost face = Face { coord: block_coord, direction, block_type };
                vertices.push(face_vertex(block_coord, direction, block_type, 0));
                vertices.push(face_vertex(block_coord, direction, block_type, 1));
                vertices.push(face_vertex(block_coord, direction, block_type, 2));
                vertices.push(face_vertex(block_coord, direction, block_type, 3));
                let base: u32 = *total_nb_faces * 4;
                indices.push(base);
                indices.push(base + 1);
                indices.push(base + 2);
                indices.push(base + 2);
                indices.push(base + 3);
                indices.push(base);
                *total_nb_faces = *total_nb_faces + 1;
                proof {
                    lemma_face_vertices_push(faces, face);
                    assert(vertices@ =~= vertices_before + spec_face_vertices(faces.push(face)));
                    lemma_face_indices_concat(first, faces.len() as int, 1);
                    assert(spec_face_indices(first + faces.len(), 1) =~= seq![
                        base,
                        (base + 1) as u32,
                        (base + 2) as u32,
                        (base + 2) as u32,
                        (base + 3) as u32,
                        base,
                    ]);
                    assert(indices@ =~= indices_before + spec_face_indices(
                        first,
                        (faces.len() + 1) as int,
                    ));
                }
            }
            d = d + 1;
        }
    }

    /// The face-culled mesh of the chunk: the index list and the vertex
    /// buffer of its drawn faces, block by block in the canonical order.
    pub fn render_indices_and_vertices(&self) -> (r: (Vec<u32>, VertexBuffer))
        requires
            self.wf(),
        ensures
            r.1@ == spec_face_vertices(spec_chunk_faces(self@, MAX_OFFSET as int)),
            r.0@ == spec_face_indices(0, spec_chunk_faces(self@, MAX_OFFSET as int).len() as int),
            r.1@.len() == 4 * spec_chunk_faces(self@, MAX_OFFSET as int).len(),
            r.0@.len() == 6 * spec_chunk_faces(self@, MAX_OFFSET as int).len(),
    {
        let mut indices: Vec<u32> = Vec::new();
        let mut total_nb_faces: u32 = 0;
        let mut vertices: VertexBuffer = Vec::new();
        let mut index: usize = 0;
        assert(vertices@ =~= spec_face_vertices(spec_chunk_faces(self@, 0)));
        assert(indices@ =~= spec_face_indices(0, 0));
        while index < MAX_OFFSET as usize
            invariant
                self.wf(),
                index <= MAX_OFFSET,
                total_nb_faces == spec_chunk_faces(self@, index as int).len(),
                total_nb_faces <= 6 * index,
                vertices@ == spec_face_vertices(spec_chunk_faces(self@, index as int)),
                indices@ == spec_face_indices(0, spec_chunk_faces(self@, index as int).len() as int),
            decreases MAX_OFFSET - index,
        {
            let offset = LocalVoxelBlockOffset(index);
            let ghost faces = spec_chunk_faces(self@, index as int);
            let solid = match self.get_block(&offset) {
                Some(block) => !block.block_type.is_empty(),
                None => false,
            };
            if solid {
                self.render_chunk_block(&offset, &mut indices, &mut total_nb_faces, &mut vertices);
                proof {
                    let added = spec_block_faces(self@, index as int, 6);
                    lemma_block_faces_len(self@, index as int, 6);
                    lemma_face_vertices_concat(faces, added);
                    lemma_face_indices_concat(0, faces.len() as int, added.len() as int);
                }
            }
            index = index + 1;
        }
        (indices, vertices)
    }
}

/// A block of which every neighbor is empty or lies outside the chunk
/// shows all six faces.
pub proof fn lemma_isolated_block_shows_six_faces(blocks: Seq<VoxelBlock>, offset: int)
    requires
        forall|index: int|
            0 <= index < 6 ==> spec_face_is_drawn(
                blocks,
                spec_offset_to_local(offset),
                #[trigger] FaceDirection::spec_from_index(index),
            ),
    ensures
        spec_block_faces(blocks, offset, 6).len() == 6,
        spec_face_vertices(spec_block_faces(blocks, offset, 6)).len() == 24,
        spec_face_indices(0, spec_block_faces(blocks, offset, 6).len() as int).len() == 36,
{
    reveal_with_fuel(spec_block_faces, 7);
    assert(FaceDirection::spec_from_index(0) == FaceDirection::Front);
    assert(FaceDirection::spec_from_index(1) == FaceDirection::Back);
    assert(FaceDirection::spec_from_index(2) == FaceDirection::Right);
    assert(FaceDirection::spec_from_index(3) == FaceDirection::Left);
    assert(FaceDirection::spec_from_index(4) == FaceDirection::Top);
    assert(FaceDirection::spec_from_index(5) == FaceDirection::Bottom);
}

/// A block of which every neighbor is solid shows no face.
pub proof fn lemma_surrounded_block_shows_no_face(blocks: Seq<VoxelBlock>, offset: int)
    requires
        forall|index: int|
            0 <= index < 6 ==> !spec_face_is_drawn(
                blocks,
                spec_offset_to_local(offset),
                #[trigger] FaceDirection::spec_from_index(index),
            ),
    ensures
        spec_block_faces(blocks, offset, 6).len() == 0,
        spec_face_vertices(spec_block_faces(blocks, offset, 6)).len() == 0,
        spec_face_indices(0, spec_block_faces(blocks, offset, 6).len() as int).len() == 0,
{
    reveal_with_fuel(spec_block_faces, 7);
    assert(FaceDirection::spec_from_index(0) == FaceDirection::Front);
    assert(FaceDirection::spec_from_index(1) == FaceDirection::Back);
    assert(FaceDirection::spec_from_index(2) == FaceDirection::Right);
    assert(FaceDirection::spec_from_index(3) == FaceDirection::Left);
    assert(FaceDirection::spec_from_index(4) == FaceDirection::Top);
    assert(FaceDirection::spec_from_index(5) == FaceDirection::Bottom);
}

/// In a chunk whose blocks are all empty but one, the faces of the mesh
/// are no faces before that block and its six faces from it on.
proof fn lemma_single_block_faces(blocks: Seq<VoxelBlock>, solid: int, upto: int)
    requires
        blocks.len() == MAX_OFFSET,
        0 <= solid < MAX_OFFSET,
        0 <= upto <= MAX_OFFSET,
        blocks[solid].block_type != VoxelBlockType::Empty,
        forall|i: int|
            0 <= i < MAX_OFFSET && i != solid ==> (#[trigger] blocks[i]).block_type
                == VoxelBlockType::Empty,
    ensures
        upto <= solid ==> spec_chunk_faces(blocks, upto) == Seq::<Face>::empty(),
        upto > solid ==> spec_chunk_faces(blocks, upto) == spec_block_faces(blocks, solid, 6),
    decreases upto,
{
    if upto > 0 {
        lemma_single_block_faces(blocks, solid, upto - 1);
        if upto - 1 == solid {
            assert(Seq::<Face>::empty() + spec_block_faces(blocks, solid, 6) =~= spec_block_faces(
                blocks,
                solid,
                6,
            ));
        }
    }
}

/// The mesh of a chunk that holds a single solid block has exactly the six
/// faces of that block: 24 vertices and 36 indices.
pub proof fn lemma_single_block_mesh(blocks: Seq<VoxelBlock>, solid: int)
    requires
        blocks.len() == MAX_OFFSET,
        0 <= solid < MAX_OFFSET,
        blocks[solid].block_type != VoxelBlockType::Empty,
        forall|i: int|
            0 <= i < MAX_OFFSET && i != solid ==> (#[trigger] blocks[i]).block_type
                == VoxelBlockType::Empty,
    ensures
        spec_chunk_faces(blocks, MAX_OFFSET as int).len() == 6,
        spec_face_vertices(spec_chunk_faces(blocks, MAX_OFFSET as int)).len() == 24,
        spec_face_indices(0, spec_chunk_faces(blocks, MAX_OFFSET as int).len() as int).len() == 36,
{
    lemma_single_block_faces(blocks, solid, MAX_OFFSET as int);
    let coord = spec_offset_to_local(solid);
    assert forall|index: int| 0 <= index < 6 implies spec_face_is_drawn(
        blocks,
        coord,
        #[trigger] FaceDirection::spec_from_index(index),
    ) by {
        let direction = FaceDirection::spec_from_index(index);
        let d = direction.spec_delta();
        match coord.spec_step(d.0, d.1, d.2) {
            None => {},
            Some(neighbor) => {
                assert(neighbor.spec_offset() != solid);
                assert(0 <= neighbor.spec_offset() < MAX_OFFSET);
            },
        }
    }
    lemma_isolated_block_shows_six_faces(blocks, solid);
}

/// The mesh of a chunk without a solid block is empty.
pub proof fn lemma_empty_chunk_mesh(blocks: Seq<VoxelBlock>, upto: int)
    requires
        forall|i: int| 0 <= i < upto ==> (#[trigger] blocks[i]).block_type == VoxelBlockType::Empty,
    ensures
        spec_chunk_faces(blocks, upto) == Seq::<Face>::empty(),
    decreases upto,
{
    if upto > 0 {
        lemma_empty_chunk_mesh(blocks, upto - 1);
    }
}

/// The flat position list and the triangle triples that a collision shape
/// is built from: one position per vertex, one triple per three indices.
pub fn collision_buffers(vertices: &VertexBuffer, indices: &Vec<u32>) -> (r: (
    Vec<[i32; 3]>,
    Vec<[u32; 3]>,
))
    requires
        indices@.len() % 3 == 0,
    ensures
        r.0@.len() == vertices@.len(),
        forall|i: int|
            0 <= i < vertices@.len() ==> {
                &&& (#[trigger] r.0@[i])[0] == vertices@[i].half_x
                &&& r.0@[i][1] == vertices@[i].half_y
                &&& r.0@[i][2] == vertices@[i].half_z
            },
        r.1@.len() == indices@.len() / 3,
        forall|t: int|
            0 <= t < indices@.len() / 3 ==> {
                &&& (#[trigger] r.1@[t])[0] == indices@[3 * t]
                &&& r.1@[t][1] == indices@[3 * t + 1]
                &&& r.1@[t][2] == indices@[3 * t + 2]
            },
{
    let mut positions: Vec<[i32; 3]> = Vec::new();
    let mut i: usize = 0;
    while i < vertices.len()
        invariant
            i <= vertices@.len(),
            positions@.len() == i,
            forall|k: int|
                0 <= k < i ==> {
                    &&& (#[trigger] positions@[k])[0] == vertices@[k].half_x
                    &&& positions@[k][1] == vertices@[k].half_y
                    &&& positions@[k][2] == vertices@[k].half_z
                },
        decreases vertices@.len() - i,
    {
        let vertex = vertices[i];
        positions.push([vertex.half_x, vertex.half_y, vertex.half_z]);
        i = i + 1;
    }
    let mut triangles: Vec<[u32; 3]> = Vec::new();
    let length: usize = indices.len();
    let count: usize = length / 3;
    let mut t: usize = 0;
    while t < count
        invariant
            length == indices@.len(),
            3 * count == length,
            t <= count,
            triangles@.len() == t,
            forall|k: int|
                0 <= k < t ==> {
                    &&& (#[trigger] triangles@[k])[0] == indices@[3 * k]
                    &&& triangles@[k][1] == indices@[3 * k + 1]
                    &&& triangles@[k][2] == indices@[3 * k + 2]
                },
        decreases count - t,
    {
        triangles.push([indices[3 * t], indices[3 * t + 1], indices[3 * t + 2]]);
        t = t + 1;
    }
    (positions, triangles)
}

/// Whether the block at `offset` has a solid neighbor on each of its
/// first `upto` sides, so that none of those faces is drawn.
pub open spec fn spec_is_surrounded(blocks: Seq<VoxelBlock>, offset: int, upto: int) -> bool {
    forall|index: int|
        0 <= index < upto ==> !spec_face_is_drawn(
            blocks,
            spec_offset_to_local(offset),
            #[trigger] FaceDirection::spec_from_index(index),
        )
}

impl VoxelChunk {
    /// Whether all six neighbors of the block at `offset` are solid.
    pub fn is_fully_surrounded(&self, offset: &LocalVoxelBlockOffset) -> (r: bool)
        requires
            self.wf(),
            offset.0 < MAX_OFFSET,
        ensures
            r == spec_is_surrounded(self@, offset.0 as int, 6),
    {
        let block_coord = offset_to_local(*offset);
        let mut d: usize = 0;
        while d < 6
            invariant
                self.wf(),
                d <= 6,
                block_coord == spec_offset_to_local(offset.0 as int),
                block_coord.spec_is_valid(),
                spec_is_surrounded(self@, offset.0 as int, d as int),
            decreases 6 - d,
        {
            let direction = FaceDirection::from_index(d);
            let solid = match block_coord.checked_step(direction.delta()) {
                None => false,
                Some(neighbor) => match self.get_block(&neighbor) {
                    Some(block) => !block.block_type.is_empty(),
                    None => false,
                },
            };
            if !solid {
                assert(spec_face_is_drawn(
                    self@,
                    block_coord,
                    FaceDirection::spec_from_index(d as int),
                ));
                return false;
            }
            d = d + 1;
        }
        true
    }

    /// Notes on every block whether all six of its neighbors are solid.
    /// The materials stay as they are.
    pub fn mark_fully_surrounded(&mut self)
        requires
            old(self).wf(),
        ensures
            final(self).wf(),
            forall|offset: int|
                0 <= offset < MAX_OFFSET ==> #[trigger] final(self)@[offset] == (VoxelBlock {
                    block_type: old(self)@[offset].block_type,
                    is_fully_surrounded: spec_is_surrounded(old(self)@, offset, 6),
                }),
    {
        let mut index: usize = 0;
        while index < MAX_OFFSET as usize
            invariant
                self.wf(),
                old(self).wf(),
                index <= MAX_OFFSET,
                forall|offset: int|
                    0 <= offset < MAX_OFFSET ==> (#[trigger] self@[offset]).block_type == old(
                        self,
                    )@[offset].block_type,
                forall|offset: int|
                    0 <= offset < index ==> (#[trigger] self@[offset]).is_fully_surrounded
                        == spec_is_surrounded(old(self)@, offset, 6),
                forall|offset: int|
                    index <= offset < MAX_OFFSET ==> (#[trigger] self@[offset]).is_fully_surrounded
                        == old(self)@[offset].is_fully_surrounded,
            decreases MAX_OFFSET - index,
        {
            let offset = LocalVoxelBlockOffset(index);
            let surrounded = self.is_fully_surrounded(&offset);
            proof {
                lemma_surrounded_reads_materials(self@, old(self)@, index as int);
            }
            let block_type = match self.get_block(&offset) {
                Some(block) => block.block_type,
                None => VoxelBlockType::Empty,
            };
            self.set_block(&offset, VoxelBlock { block_type, is_fully_surrounded: surrounded });
            index = index + 1;
        }
    }
}

/// Whether a block is surrounded depends on the materials of the chunk
/// alone.
pub proof fn lemma_surrounded_reads_materials(
    first: Seq<VoxelBlock>,
    second: Seq<VoxelBlock>,
    offset: int,
)
    requires
        first.len() == MAX_OFFSET,
        second.len() == MAX_OFFSET,
        0 <= offset < MAX_OFFSET,
        forall|i: int|
            0 <= i < MAX_OFFSET ==> (#[trigger] first[i]).block_type == second[i].block_type,
    ensures
        spec_is_surrounded(first, offset, 6) == spec_is_surrounded(second, offset, 6),
{
    let coord = spec_offset_to_local(offset);
    assert forall|index: int| 0 <= index < 6 implies spec_face_is_drawn(
        first,
        coord,
        #[trigger] FaceDirection::spec_from_index(index),
    ) == spec_face_is_drawn(second, coord, FaceDirection::spec_from_index(index)) by {
        let d = FaceDirection::spec_from_index(index).spec_delta();
        match coord.spec_step(d.0, d.1, d.2) {
            None => {},
            Some(neighbor) => {
                assert(first[neighbor.spec_offset()].block_type == second[neighbor.spec_offset()].block_type);
            },
        }
    }
}

/// A block of which all six neighbors are solid shows no face: what
/// `mark_fully_surrounded` notes is what the mesh leaves out.
pub proof fn lemma_surrounded_means_no_face(blocks: Seq<VoxelBlock>, offset: int)
    ensures
        spec_is_surrounded(blocks, offset, 6) <==> spec_block_faces(blocks, offset, 6).len() == 0,
{
    reveal_with_fuel(spec_block_faces, 7);
    assert(FaceDirection::spec_from_index(0) == FaceDirection::Front);
    assert(FaceDirection::spec_from_index(1) == FaceDirection::Back);
    assert(FaceDirection::spec_from_index(2) == FaceDirection::Right);
    assert(FaceDirection::spec_from_index(3) == FaceDirection::Left);
    assert(FaceDirection::spec_from_index(4) == FaceDirection::Top);
    assert(FaceDirection::spec_from_index(5) == FaceDirection::Bottom);
}

} // verus!
