//! Coordinate algebra: global block positions, chunk coordinates, local
//! block coordinates and linear block offsets, with the conversions between
//! them.

use vstd::prelude::*;
use crate::settings::{CHUNK_HEIGHT, CHUNK_SIZE, MAX_OFFSET};

verus! {

/// Identifies a chunk in chunk-grid units: one unit is one chunk width.
#[derive(Clone, Copy, Debug, PartialEq, Eq, Hash, Structural)]
pub struct ChunkCoord {
    pub x: i32,
    /// The chunk's position along the world's z axis.
    pub y: i32,
}

/// A block position in world space.
#[derive(Clone, Copy, Debug, PartialEq, Eq, Hash, Structural)]
pub struct GlobalVoxelBlockCoord {
    pub x: i32,
    pub y: i32,
    pub z: i32,
}

/// A block position relative to its chunk's origin.
#[derive(Clone, Copy, Debug, PartialEq, Eq, Hash, Structural)]
pub struct LocalVoxelBlockCoord {
    pub x: i32,
    pub y: i32,
    pub z: i32,
}

/// Index of a block in the flattened grid of a chunk.
#[derive(Clone, Copy, Debug, PartialEq, Eq, Hash, Structural)]
pub struct LocalVoxelBlockOffset(pub usize);

/// Whether `(x, y, z)` lies inside the chunk volume.
pub open spec fn spec_in_chunk(x: int, y: int, z: int) -> bool {
    0 <= x < CHUNK_SIZE && 0 <= y < CHUNK_HEIGHT && 0 <= z < CHUNK_SIZE
}

/// The canonical linearization: x runs fastest, then z, then y.
pub open spec fn spec_linear_offset(x: int, y: int, z: int) -> int {
    x + z * CHUNK_SIZE + y * CHUNK_SIZE * CHUNK_SIZE
}

impl ChunkCoord {
    pub fn new(x: i32, y: i32) -> (r: Self)
        ensures
            r.x == x,
            r.y == y,
    {
        ChunkCoord { x, y }
    }

    /// The world position of the chunk's first block: the chunk's place in
    /// the grid times the chunk width, at height zero.
    pub fn world_origin(&self) -> (r: [i64; 3])
        ensures
            r[0] == self.x * CHUNK_SIZE,
            r[1] == 0,
            r[2] == self.y * CHUNK_SIZE,
    {
        [self.x as i64 * CHUNK_SIZE as i64, 0, self.y as i64 * CHUNK_SIZE as i64]
    }
}

impl GlobalVoxelBlockCoord {
    pub fn new(x: i32, y: i32, z: i32) -> (r: Self)
        ensures
            r.x == x,
            r.y == y,
            r.z == z,
    {
        GlobalVoxelBlockCoord { x, y, z }
    }
}

impl LocalVoxelBlockCoord {
    pub fn new(x: i32, y: i32, z: i32) -> (r: Self)
        ensures
            r.x == x,
            r.y == y,
            r.z == z,
    {
        LocalVoxelBlockCoord { x, y, z }
    }

    /// Whether the coordinate lies inside the chunk volume.
    pub open spec fn spec_is_valid(&self) -> bool {
        spec_in_chunk(self.x as int, self.y as int, self.z as int)
    }

    /// The linear offset of this coordinate (meaningful when it is valid).
    pub open spec fn spec_offset(&self) -> int {
        spec_linear_offset(self.x as int, self.y as int, self.z as int)
    }

    /// The coordinate moved by `(dx, dy, dz)`, if that stays inside the chunk.
    pub open spec fn spec_step(&self, dx: int, dy: int, dz: int) -> Option<Self> {
        if spec_in_chunk(self.x + dx, self.y + dy, self.z + dz) {
            Some(
                LocalVoxelBlockCoord {
                    x: (self.x + dx) as i32,
                    y: (self.y + dy) as i32,
                    z: (self.z + dz) as i32,
                },
            )
        } else {
            None
        }
    }

    /// The coordinate one step along +z, if `z + 1` is still a valid depth.
    pub open spec fn spec_front(&self) -> Option<Self> {
        if 0 <= self.z + 1 < CHUNK_SIZE {
            Some(LocalVoxelBlockCoord { x: self.x, y: self.y, z: (self.z + 1) as i32 })
        } else {
            None
        }
    }

    /// The coordinate one step along -z, if `z - 1` is still a valid depth.
    pub open spec fn spec_back(&self) -> Option<Self> {
        if 0 <= self.z - 1 < CHUNK_SIZE {
            Some(LocalVoxelBlockCoord { x: self.x, y: self.y, z: (self.z - 1) as i32 })
        } else {
            None
        }
    }

    /// The coordinate one step along +x, if `x + 1` is still a valid width.
    pub open spec fn spec_right(&self) -> Option<Self> {
        if 0 <= self.x + 1 < CHUNK_SIZE {
            Some(LocalVoxelBlockCoord { x: (self.x + 1) as i32, y: self.y, z: self.z })
        } else {
            None
        }
    }

    /// The coordinate one step along -x, if `x - 1` is still a valid width.
    pub open spec fn spec_left(&self) -> Option<Self> {
        if 0 <= self.x - 1 < CHUNK_SIZE {
            Some(LocalVoxelBlockCoord { x: (self.x - 1) as i32, y: self.y, z: self.z })
        } else {
            None
        }
    }

    /// The coordinate one step along +y, if `y + 1` is still a valid height.
    pub open spec fn spec_top(&self) -> Option<Self> {
        if 0 <= self.y + 1 < CHUNK_HEIGHT {
            Some(LocalVoxelBlockCoord { x: self.x, y: (self.y + 1) as i32, z: self.z })
        } else {
            None
        }
    }

    /// The coordinate one step along -y, if `y - 1` is still a valid height.
    pub open spec fn spec_bottom(&self) -> Option<Self> {
        if 0 <= self.y - 1 < CHUNK_HEIGHT {
            Some(LocalVoxelBlockCoord { x: self.x, y: (self.y - 1) as i32, z: self.z })
        } else {
            None
        }
    }

    /// The six neighbors in the order front, back, right, left, top, bottom.
    pub open spec fn spec_neighbors(&self) -> Seq<Option<Self>> {
        seq![
            self.spec_front(),
            self.spec_back(),
            self.spec_right(),
            self.spec_left(),
            self.spec_top(),
            self.spec_bottom(),
        ]
    }

    pub fn is_valid_chunk_voxel_coord(&self) -> (r: bool)
        ensures
            r == self.spec_is_valid(),
    {
        self.x >= 0 && self.y >= 0 && self.z >= 0 && self.x < CHUNK_SIZE && self.y < CHUNK_HEIGHT
            && self.z < CHUNK_SIZE
    }

    pub fn front_neighbor(&self) -> (r: Option<Self>)
        ensures
            r == self.spec_front(),
    {
        if -1 <= self.z && self.z < CHUNK_SIZE - 1 {
            Some(LocalVoxelBlockCoord { x: self.x, y: self.y, z: self.z + 1 })
        } else {
            None
        }
    }

    pub fn back_neighbor(&self) -> (r: Option<Self>)
        ensures
            r == self.spec_back(),
    {
        if 1 <= self.z && self.z <= CHUNK_SIZE {
            Some(LocalVoxelBlockCoord { x: self.x, y: self.y, z: self.z - 1 })
        } else {
            None
        }
    }

    pub fn right_neighbor(&self) -> (r: Option<Self>)
        ensures
            r == self.spec_right(),
    {
        if -1 <= self.x && self.x < CHUNK_SIZE - 1 {
            Some(LocalVoxelBlockCoord { x: self.x + 1, y: self.y, z: self.z })
        } else {
            None
        }
    }

    pub fn left_neighbor(&self) -> (r: Option<Self>)
        ensures
            r == self.spec_left(),
    {
        if 1 <= self.x && self.x <= CHUNK_SIZE {
            Some(LocalVoxelBlockCoord { x: self.x - 1, y: self.y, z: self.z })
        } else {
            None
        }
    }

    pub fn top_neighbor(&self) -> (r: Option<Self>)
        ensures
            r == self.spec_top(),
    {
        if -1 <= self.y && self.y < CHUNK_HEIGHT - 1 {
            Some(LocalVoxelBlockCoord { x: self.x, y: self.y + 1, z: self.z })
        } else {
            None
        }
    }

    pub fn bottom_neighbor(&self) -> (r: Option<Self>)
        ensures
            r == self.spec_bottom(),
    {
        if 1 <= self.y && self.y <= CHUNK_HEIGHT {
            Some(LocalVoxelBlockCoord { x: self.x, y: self.y - 1, z: self.z })
        } else {
            None
        }
    }

    pub fn neighbors(&self) -> (r: [Option<Self>; 6])
        ensures
            r@ == self.spec_neighbors(),
    {
        let r = [
            self.front_neighbor(),
            self.back_neighbor(),
            self.right_neighbor(),
            self.left_neighbor(),
            self.top_neighbor(),
            self.bottom_neighbor(),
        ];
        assert(r@ =~= self.spec_neighbors());
        r
    }
}

impl GlobalVoxelBlockCoord {
    /// The chunk that holds this block: floor division of x and z by the
    /// chunk width.
    pub open spec fn spec_chunk(&self) -> ChunkCoord {
        ChunkCoord {
            x: (self.x as int / CHUNK_SIZE as int) as i32,
            y: (self.z as int / CHUNK_SIZE as int) as i32,
        }
    }

    /// The block's position inside its chunk: the non-negative remainder of
    /// x and z, with y unchanged.
    pub open spec fn spec_local(&self) -> LocalVoxelBlockCoord {
        LocalVoxelBlockCoord {
            x: (self.x as int % CHUNK_SIZE as int) as i32,
            y: self.y,
            z: (self.z as int % CHUNK_SIZE as int) as i32,
        }
    }
}

/// Whether the block at `local` in `chunk` has a world position that fits
/// the coordinate type.
pub open spec fn spec_global_fits(chunk: ChunkCoord, local: LocalVoxelBlockCoord) -> bool {
    &&& i32::MIN <= chunk.x * CHUNK_SIZE + local.x <= i32::MAX
    &&& i32::MIN <= chunk.y * CHUNK_SIZE + local.z <= i32::MAX
}

/// The world position of the block at `local` in `chunk`.
pub open spec fn spec_chunk_local_to_global(
    chunk: ChunkCoord,
    local: LocalVoxelBlockCoord,
) -> GlobalVoxelBlockCoord {
    GlobalVoxelBlockCoord {
        x: (chunk.x * CHUNK_SIZE + local.x) as i32,
        y: local.y,
        z: (chunk.y * CHUNK_SIZE + local.z) as i32,
    }
}

/// The local coordinate that the canonical linearization maps to `offset`.
pub open spec fn spec_offset_to_local(offset: int) -> LocalVoxelBlockCoord {
    LocalVoxelBlockCoord {
        x: (offset % CHUNK_SIZE as int) as i32,
        y: (offset / (CHUNK_SIZE * CHUNK_SIZE)) as i32,
        z: ((offset % (CHUNK_SIZE * CHUNK_SIZE)) / CHUNK_SIZE as int) as i32,
    }
}

/// Floor of `v / CHUNK_SIZE`, for negative values too.
fn floor_div_chunk(v: i32) -> (r: i32)
    ensures
        r == v as int / CHUNK_SIZE as int,
{
    if v >= 0 {
        v / CHUNK_SIZE
    } else {
        let m: i32 = -(v + 1);
        -(m / CHUNK_SIZE) - 1
    }
}

/// Splits a world position into its chunk and the position inside that
/// chunk. The vertical coordinate passes through unchanged.
pub fn global_to_chunk_local(global: GlobalVoxelBlockCoord) -> (r: (
    ChunkCoord,
    LocalVoxelBlockCoord,
))
    ensures
        r.0 == global.spec_chunk(),
        r.1 == global.spec_local(),
        0 <= r.1.x < CHUNK_SIZE,
        0 <= r.1.z < CHUNK_SIZE,
        r.1.y == global.y,
        spec_global_fits(r.0, r.1),
        spec_chunk_local_to_global(r.0, r.1) == global,
{
    let cx = floor_div_chunk(global.x);
    let cz = floor_div_chunk(global.z);
    let lx: i32 = global.x - cx * CHUNK_SIZE;
    let lz: i32 = global.z - cz * CHUNK_SIZE;
    (ChunkCoord { x: cx, y: cz }, LocalVoxelBlockCoord { x: lx, y: global.y, z: lz })
}

/// Recomposes a world position from a chunk and a position inside it.
pub fn chunk_local_to_global(chunk: ChunkCoord, local: LocalVoxelBlockCoord) -> (r:
    GlobalVoxelBlockCoord)
    requires
        spec_global_fits(chunk, local),
    ensures
        r == spec_chunk_local_to_global(chunk, local),
        r.x == chunk.x * CHUNK_SIZE + local.x,
        r.y == local.y,
        r.z == chunk.y * CHUNK_SIZE + local.z,
{
    let bx: i64 = chunk.x as i64 * CHUNK_SIZE as i64 + local.x as i64;
    let bz: i64 = chunk.y as i64 * CHUNK_SIZE as i64 + local.z as i64;
    GlobalVoxelBlockCoord { x: bx as i32, y: local.y, z: bz as i32 }
}

/// The linear offset of a local coordinate, or an error when any axis lies
/// outside the chunk.
pub fn local_to_offset(coord: LocalVoxelBlockCoord) -> (r: Result<LocalVoxelBlockOffset, ()>)
    ensures
        r == spec_local_to_offset(coord),
        r.is_ok() <==> coord.spec_is_valid(),
        r.is_ok() ==> r.unwrap().0 == coord.spec_offset(),
        r.is_ok() ==> r.unwrap().0 < MAX_OFFSET,
{
    if coord.is_valid_chunk_voxel_coord() {
        let v: i32 = coord.x + coord.z * CHUNK_SIZE + coord.y * CHUNK_SIZE * CHUNK_SIZE;
        Ok(LocalVoxelBlockOffset(v as usize))
    } else {
        Err(())
    }
}

/// The local coordinate of a linear offset inside the chunk volume.
pub fn offset_to_local(offset: LocalVoxelBlockOffset) -> (r: LocalVoxelBlockCoord)
    requires
        offset.0 < MAX_OFFSET,
    ensures
        r == spec_offset_to_local(offset.0 as int),
        r.spec_is_valid(),
        r.spec_offset() == offset.0,
{
    let v: i32 = offset.0 as i32;
    let y: i32 = v / (CHUNK_SIZE * CHUNK_SIZE);
    let z: i32 = (v % (CHUNK_SIZE * CHUNK_SIZE)) / CHUNK_SIZE;
    let x: i32 = v % CHUNK_SIZE;
    LocalVoxelBlockCoord { x, y, z }
}

impl LocalVoxelBlockOffset {
    /// The offset moved by the linearized delta `(dx, dy, dz)`, if the
    /// result is still an offset of the chunk.
    pub open spec fn spec_step(&self, dx: int, dy: int, dz: int) -> Option<Self> {
        let moved = self.0 + spec_linear_offset(dx, dy, dz);
        if 0 <= moved < MAX_OFFSET {
            Some(LocalVoxelBlockOffset(moved as usize))
        } else {
            None
        }
    }

    /// Moves the offset by a three-dimensional delta, linearized in the
    /// canonical order. Absent when the result leaves the chunk's offsets.
    pub fn checked_step(self, delta: [i32; 3]) -> (r: Option<Self>)
        ensures
            r == self.spec_step(delta[0] as int, delta[1] as int, delta[2] as int),
    {
        let dx: i64 = delta[0] as i64;
        let dy: i64 = delta[1] as i64 * (CHUNK_SIZE as i64 * CHUNK_SIZE as i64);
        let dz: i64 = delta[2] as i64 * CHUNK_SIZE as i64;
        let shift: i64 = dx + dz + dy;
        let value: u64 = self.0 as u64;
        if value > 0x100_0000_0000u64 {
            return None;
        }
        let moved: i64 = value as i64 + shift;
        if 0 <= moved && moved < MAX_OFFSET as i64 {
            Some(LocalVoxelBlockOffset(moved as usize))
        } else {
            None
        }
    }
}

impl LocalVoxelBlockCoord {
    /// Moves the coordinate by a three-dimensional delta. Absent when any
    /// axis of the result leaves the chunk.
    pub fn checked_step(self, delta: [i32; 3]) -> (r: Option<Self>)
        ensures
            r == self.spec_step(delta[0] as int, delta[1] as int, delta[2] as int),
    {
        let nx: i64 = self.x as i64 + delta[0] as i64;
        let ny: i64 = self.y as i64 + delta[1] as i64;
        let nz: i64 = self.z as i64 + delta[2] as i64;
        if 0 <= nx && nx < CHUNK_SIZE as i64 && 0 <= ny && ny < CHUNK_HEIGHT as i64 && 0 <= nz
            && nz < CHUNK_SIZE as i64 {
            Some(LocalVoxelBlockCoord { x: nx as i32, y: ny as i32, z: nz as i32 })
        } else {
            None
        }
    }
}

impl core::ops::Add<[i32; 3]> for LocalVoxelBlockOffset {
    type Output = Option<LocalVoxelBlockOffset>;

    fn add(self, rhs: [i32; 3]) -> (r: Option<LocalVoxelBlockOffset>) {
        self.checked_step(rhs)
    }
}

impl vstd::std_specs::ops::AddSpecImpl<[i32; 3]> for LocalVoxelBlockOffset {
    open spec fn obeys_add_spec() -> bool {
        true
    }

    open spec fn add_req(self, rhs: [i32; 3]) -> bool {
        true
    }

    open spec fn add_spec(self, rhs: [i32; 3]) -> Option<LocalVoxelBlockOffset> {
        self.spec_step(rhs[0] as int, rhs[1] as int, rhs[2] as int)
    }
}

impl core::ops::Add<[i32; 3]> for LocalVoxelBlockCoord {
    type Output = Option<LocalVoxelBlockCoord>;

    fn add(self, rhs: [i32; 3]) -> (r: Option<LocalVoxelBlockCoord>) {
        self.checked_step(rhs)
    }
}

impl vstd::std_specs::ops::AddSpecImpl<[i32; 3]> for LocalVoxelBlockCoord {
    open spec fn obeys_add_spec() -> bool {
        true
    }

    open spec fn add_req(self, rhs: [i32; 3]) -> bool {
        true
    }

    open spec fn add_spec(self, rhs: [i32; 3]) -> Option<LocalVoxelBlockCoord> {
        self.spec_step(rhs[0] as int, rhs[1] as int, rhs[2] as int)
    }
}

impl From<GlobalVoxelBlockCoord> for (ChunkCoord, LocalVoxelBlockCoord) {
    fn from(global: GlobalVoxelBlockCoord) -> (r: (ChunkCoord, LocalVoxelBlockCoord)) {
        global_to_chunk_local(global)
    }
}

impl vstd::std_specs::convert::FromSpecImpl<GlobalVoxelBlockCoord> for (ChunkCoord, LocalVoxelBlockCoord) {
    open spec fn obeys_from_spec() -> bool {
        true
    }

    open spec fn from_spec(global: GlobalVoxelBlockCoord) -> (ChunkCoord, LocalVoxelBlockCoord) {
        (global.spec_chunk(), global.spec_local())
    }
}

impl From<[i32; 3]> for LocalVoxelBlockCoord {
    fn from(value: [i32; 3]) -> (r: LocalVoxelBlockCoord) {
        LocalVoxelBlockCoord { x: value[0], y: value[1], z: value[2] }
    }
}

impl vstd::std_specs::convert::FromSpecImpl<[i32; 3]> for LocalVoxelBlockCoord {
    open spec fn obeys_from_spec() -> bool {
        true
    }

    open spec fn from_spec(value: [i32; 3]) -> LocalVoxelBlockCoord {
        LocalVoxelBlockCoord { x: value[0], y: value[1], z: value[2] }
    }
}

/// What the checked conversion of a local coordinate to an offset returns.
pub open spec fn spec_local_to_offset(coord: LocalVoxelBlockCoord) -> Result<
    LocalVoxelBlockOffset,
    (),
> {
    if coord.spec_is_valid() {
        Ok(LocalVoxelBlockOffset(coord.spec_offset() as usize))
    } else {
        Err(())
    }
}

impl TryFrom<LocalVoxelBlockCoord> for LocalVoxelBlockOffset {
    type Error = ();

    fn try_from(coord: LocalVoxelBlockCoord) -> (r: Result<LocalVoxelBlockOffset, ()>) {
        local_to_offset(coord)
    }
}

impl vstd::std_specs::convert::TryFromSpecImpl<LocalVoxelBlockCoord> for LocalVoxelBlockOffset {
    open spec fn obeys_try_from_spec() -> bool {
        true
    }

    open spec fn try_from_spec(coord: LocalVoxelBlockCoord) -> Result<LocalVoxelBlockOffset, ()> {
        spec_local_to_offset(coord)
    }
}

impl TryFrom<[i32; 3]> for LocalVoxelBlockOffset {
    type Error = ();

    fn try_from(value: [i32; 3]) -> (r: Result<LocalVoxelBlockOffset, ()>) {
        local_to_offset(LocalVoxelBlockCoord { x: value[0], y: value[1], z: value[2] })
    }
}

impl vstd::std_specs::convert::TryFromSpecImpl<[i32; 3]> for LocalVoxelBlockOffset {
    open spec fn obeys_try_from_spec() -> bool {
        true
    }

    open spec fn try_from_spec(value: [i32; 3]) -> Result<LocalVoxelBlockOffset, ()> {
        spec_local_to_offset(LocalVoxelBlockCoord { x: value[0], y: value[1], z: value[2] })
    }
}

/// Splitting a world position and recomposing it gives the position back,
/// for every position, negative ones included.
pub proof fn lemma_global_round_trip(global: GlobalVoxelBlockCoord)
    ensures
        spec_global_fits(global.spec_chunk(), global.spec_local()),
        spec_chunk_local_to_global(global.spec_chunk(), global.spec_local()) == global,
        0 <= global.spec_local().x < CHUNK_SIZE,
        0 <= global.spec_local().z < CHUNK_SIZE,
{
}

/// Recomposing a chunk and a position inside it, then splitting the result,
/// gives both back: the decomposition of a world position is unique.
pub proof fn lemma_chunk_local_round_trip(chunk: ChunkCoord, local: LocalVoxelBlockCoord)
    requires
        0 <= local.x < CHUNK_SIZE,
        0 <= local.z < CHUNK_SIZE,
        spec_global_fits(chunk, local),
    ensures
        spec_chunk_local_to_global(chunk, local).spec_chunk() == chunk,
        spec_chunk_local_to_global(chunk, local).spec_local() == local,
{
}

/// Linearizing a coordinate of the chunk and reading the offset back gives
/// the coordinate.
pub proof fn lemma_local_offset_round_trip(coord: LocalVoxelBlockCoord)
    requires
        coord.spec_is_valid(),
    ensures
        0 <= coord.spec_offset() < MAX_OFFSET,
        spec_offset_to_local(coord.spec_offset()) == coord,
{
}

/// Every offset of the chunk is the linearization of exactly the valid
/// coordinate that it is read back as.
pub proof fn lemma_offset_local_round_trip(offset: int)
    requires
        0 <= offset < MAX_OFFSET,
    ensures
        spec_offset_to_local(offset).spec_is_valid(),
        spec_offset_to_local(offset).spec_offset() == offset,
{
}

/// Two valid coordinates with the same offset are the same coordinate.
pub proof fn lemma_offset_is_injective(a: LocalVoxelBlockCoord, b: LocalVoxelBlockCoord)
    requires
        a.spec_is_valid(),
        b.spec_is_valid(),
        a.spec_offset() == b.spec_offset(),
    ensures
        a == b,
{
    lemma_local_offset_round_trip(a);
    lemma_local_offset_round_trip(b);
}

/// A step that would leave the chunk on any axis is absent; a step that is
/// present is a valid coordinate, moved by exactly the delta.
pub proof fn lemma_step_stays_inside(coord: LocalVoxelBlockCoord, dx: int, dy: int, dz: int)
    ensures
        coord.spec_step(dx, dy, dz).is_some() <==> spec_in_chunk(
            coord.x + dx,
            coord.y + dy,
            coord.z + dz,
        ),
        coord.spec_step(dx, dy, dz).is_some() ==> {
            let moved = coord.spec_step(dx, dy, dz).unwrap();
            &&& moved.spec_is_valid()
            &&& moved.x == coord.x + dx
            &&& moved.y == coord.y + dy
            &&& moved.z == coord.z + dz
        },
{
}

/// Inside the chunk the six neighbors are the six unit steps, so a neighbor
/// across a chunk face is absent rather than wrapped or clamped.
pub proof fn lemma_neighbors_are_unit_steps(coord: LocalVoxelBlockCoord)
    requires
        coord.spec_is_valid(),
    ensures
        coord.spec_front() == coord.spec_step(0, 0, 1),
        coord.spec_back() == coord.spec_step(0, 0, -1),
        coord.spec_right() == coord.spec_step(1, 0, 0),
        coord.spec_left() == coord.spec_step(-1, 0, 0),
        coord.spec_top() == coord.spec_step(0, 1, 0),
        coord.spec_bottom() == coord.spec_step(0, -1, 0),
        coord.x == 0 ==> coord.spec_left().is_none(),
        coord.y == 0 ==> coord.spec_bottom().is_none(),
        coord.z == 0 ==> coord.spec_back().is_none(),
        coord.x == CHUNK_SIZE - 1 ==> coord.spec_right().is_none(),
        coord.y == CHUNK_HEIGHT - 1 ==> coord.spec_top().is_none(),
        coord.z == CHUNK_SIZE - 1 ==> coord.spec_front().is_none(),
{
}

/// Where a coordinate step stays inside the chunk, the same step on the
/// coordinate's offset arrives at the offset of the moved coordinate.
pub proof fn lemma_offset_step_follows_coord_step(
    coord: LocalVoxelBlockCoord,
    dx: int,
    dy: int,
    dz: int,
)
    requires
        coord.spec_is_valid(),
        coord.spec_step(dx, dy, dz).is_some(),
    ensures
        LocalVoxelBlockOffset(coord.spec_offset() as usize).spec_step(dx, dy, dz) == Some(
            LocalVoxelBlockOffset(coord.spec_step(dx, dy, dz).unwrap().spec_offset() as usize),
        ),
{
}

} // verus!
