//! The streaming lifecycle of chunks: which chunks are being generated,
//! which are registered in the world, which are shown, and which are
//! forgotten.
//!
//! The manager decides; it neither runs generation jobs nor owns what they
//! produce. Its caller spawns a job for every coordinate that a request
//! returns, reports each finished job, and releases every handle that an
//! eviction or a reset returns.

use vstd::prelude::*;
use crate::coord::ChunkCoord;
use crate::settings::World;
use crate::table::{
    RawEntry,
    RawKey,
    RawTable,
    spec_table_entries,
    table_get,
    table_insert,
    table_keys,
    table_new,
    table_remove,
};

verus! {

/// After how long without a touch a chunk is hidden, and after how long it
/// is removed. Times are in milliseconds.
#[derive(Clone, Copy, Debug, PartialEq, Eq, Structural)]
pub struct EvictionPolicy {
    pub hide_after: u64,
    pub remove_after: u64,
}

/// What the world map holds for a registered chunk.
#[derive(Clone, Copy, Debug, PartialEq, Eq, Structural)]
pub struct ChunkRecord {
    /// The caller's handle to what was spawned for the chunk.
    pub handle: u64,
    /// When the chunk was last found near the player, in milliseconds.
    pub last_touch: u64,
    pub visible: bool,
}

/// What the manager holds for a chunk coordinate that it knows.
#[derive(Clone, Copy, Debug, PartialEq, Eq, Structural)]
pub enum ChunkEntry {
    /// A generation job is in flight.
    Pending,
    /// The chunk is registered in the world map.
    Ready(ChunkRecord),
}

/// Where a chunk coordinate stands in the lifecycle.
#[derive(Clone, Copy, Debug, PartialEq, Eq, Structural)]
pub enum ChunkState {
    /// Neither requested nor registered; a removed chunk is here again.
    Unrequested,
    /// A generation job is in flight.
    Pending,
    /// Registered and shown.
    Visible,
    /// Registered and not shown.
    Hidden,
}

/// Whether `coord` lies in the closed square window of the given radius
/// around `center`.
pub open spec fn spec_in_window(center: ChunkCoord, radius: int, coord: ChunkCoord) -> bool {
    &&& center.x - radius <= coord.x <= center.x + radius
    &&& center.y - radius <= coord.y <= center.y + radius
}

/// Whether `coord` lies strictly inside the square window of the given
/// radius around `center`.
pub open spec fn spec_strictly_in_window(
    center: ChunkCoord,
    radius: int,
    coord: ChunkCoord,
) -> bool {
    &&& center.x - radius < coord.x < center.x + radius
    &&& center.y - radius < coord.y < center.y + radius
}

/// Whether `a` comes before `b` in the order in which a window is walked:
/// by x, and by y where x is equal.
pub open spec fn spec_walks_before(a: ChunkCoord, b: ChunkCoord) -> bool {
    a.x < b.x || (a.x == b.x && a.y < b.y)
}

impl EvictionPolicy {
    /// Hidden after three seconds, removed after six.
    pub fn reference() -> (r: Self)
        ensures
            r == (EvictionPolicy { hide_after: 3000, remove_after: 6000 }),
    {
        EvictionPolicy { hide_after: 3000, remove_after: 6000 }
    }
}

impl ChunkRecord {
    /// How long ago the record was touched, whichever of the two times is
    /// the later.
    pub open spec fn spec_age(&self, now: u64) -> int {
        if now >= self.last_touch {
            now - self.last_touch
        } else {
            self.last_touch - now
        }
    }

    /// Whether an eviction pass at `now` hides the chunk.
    pub open spec fn spec_is_stale(&self, now: u64, policy: EvictionPolicy) -> bool {
        self.spec_age(now) > policy.hide_after
    }

    /// Whether an eviction pass at `now` removes the chunk: only a chunk
    /// that the pass hides is removed.
    pub open spec fn spec_is_expired(&self, now: u64, policy: EvictionPolicy) -> bool {
        self.spec_is_stale(now, policy) && self.spec_age(now) > policy.remove_after
    }

    /// The record of the chunk at `coord` after a touch pass at `now` with
    /// the player at `player`: inside the outer window the touch is
    /// refreshed, and strictly inside the inner window the chunk is shown.
    pub open spec fn spec_touched(
        &self,
        coord: ChunkCoord,
        player: ChunkCoord,
        config: World,
        now: u64,
    ) -> ChunkRecord {
        if spec_in_window(player, config.spec_outer_distance(), coord) {
            ChunkRecord {
                handle: self.handle,
                last_touch: now,
                visible: self.visible || spec_strictly_in_window(
                    player,
                    config.world_dimension as int,
                    coord,
                ),
            }
        } else {
            *self
        }
    }

    /// The record after an eviction pass that keeps it.
    pub open spec fn spec_aged(&self, now: u64, policy: EvictionPolicy) -> ChunkRecord {
        if self.spec_is_stale(now, policy) {
            ChunkRecord { handle: self.handle, last_touch: self.last_touch, visible: false }
        } else {
            *self
        }
    }

    /// How long ago the record was touched.
    pub fn age(&self, now: u64) -> (r: u64)
        ensures
            r == self.spec_age(now),
    {
        if now >= self.last_touch {
            now - self.last_touch
        } else {
            self.last_touch - now
        }
    }
}

/// Whether `coord` lies in the closed square window of the given radius
/// around `center`.
pub fn in_window(center: ChunkCoord, radius: i64, coord: ChunkCoord) -> (r: bool)
    ensures
        r == spec_in_window(center, radius as int, coord),
{
    if radius < 0 {
        return false;
    }
    let dx: i64 = coord.x as i64 - center.x as i64;
    let dy: i64 = coord.y as i64 - center.y as i64;
    -radius <= dx && dx <= radius && -radius <= dy && dy <= radius
}

/// Whether `coord` lies strictly inside the square window of the given
/// radius around `center`.
pub fn strictly_in_window(center: ChunkCoord, radius: i64, coord: ChunkCoord) -> (r: bool)
    ensures
        r == spec_strictly_in_window(center, radius as int, coord),
{
    if radius <= 0 {
        return false;
    }
    let dx: i64 = coord.x as i64 - center.x as i64;
    let dy: i64 = coord.y as i64 - center.y as i64;
    -radius < dx && dx < radius && -radius < dy && dy < radius
}

impl ChunkRecord {
    /// The record of the chunk at `coord` after a touch pass.
    pub fn touched(&self, coord: ChunkCoord, player: ChunkCoord, config: &World, now: u64) -> (r:
        ChunkRecord)
        ensures
            r == self.spec_touched(coord, player, *config, now),
    {
        let outer: i64 = config.world_dimension as i64 + config.preload_extra_distance as i64;
        if in_window(player, outer, coord) {
            let inner = strictly_in_window(player, config.world_dimension as i64, coord);
            ChunkRecord { handle: self.handle, last_touch: now, visible: self.visible || inner }
        } else {
            *self
        }
    }

    /// What an eviction pass at `now` makes of the record: nothing when the
    /// chunk is removed, and else the record, hidden if it is stale.
    pub open spec fn spec_evicted(&self, now: u64, policy: EvictionPolicy) -> Option<ChunkRecord> {
        if self.spec_is_expired(now, policy) {
            None
        } else {
            Some(self.spec_aged(now, policy))
        }
    }

    /// What an eviction pass at `now` makes of the record.
    pub fn evicted(&self, now: u64, policy: &EvictionPolicy) -> (r: Option<ChunkRecord>)
        ensures
            r == self.spec_evicted(now, *policy),
    {
        let age = self.age(now);
        if age > policy.hide_after {
            if age > policy.remove_after {
                None
            } else {
                Some(ChunkRecord { handle: self.handle, last_touch: self.last_touch, visible: false })
            }
        } else {
            Some(*self)
        }
    }
}

/// Eviction decays in two phases. A record that was touched recently
/// stays as it is; one that is stale but not yet due for removal stays,
/// hidden; and where removal is due no earlier than hiding, only a record
/// past the removal threshold is removed.
pub proof fn lemma_eviction_is_two_phase(record: ChunkRecord, now: u64, policy: EvictionPolicy)
    ensures
        record.spec_age(now) <= policy.hide_after ==> record.spec_evicted(now, policy) == Some(
            record,
        ),
        policy.hide_after < record.spec_age(now) <= policy.remove_after ==> {
            &&& record.spec_evicted(now, policy).is_some()
            &&& !record.spec_evicted(now, policy).unwrap().visible
            &&& record.spec_evicted(now, policy).unwrap().handle == record.handle
            &&& record.spec_evicted(now, policy).unwrap().last_touch == record.last_touch
        },
        record.spec_evicted(now, policy).is_none() ==> record.spec_age(now) > policy.hide_after
            && record.spec_age(now) > policy.remove_after,
        policy.hide_after <= policy.remove_after ==> (record.spec_evicted(now, policy).is_none()
            <==> record.spec_age(now) > policy.remove_after),
{
}

/// The entry that a value of the table stands for.
pub open spec fn spec_decode(raw: RawEntry) -> ChunkEntry {
    if raw.0 {
        ChunkEntry::Ready(ChunkRecord { handle: raw.1, last_touch: raw.2, visible: raw.3 })
    } else {
        ChunkEntry::Pending
    }
}

/// The value of the table that stands for a record.
pub open spec fn spec_encode(record: ChunkRecord) -> RawEntry {
    (true, record.handle, record.last_touch, record.visible)
}

/// The value of the table that stands for a pending chunk.
pub open spec fn spec_pending_raw() -> RawEntry {
    (false, 0, 0, false)
}

/// The state that an entry, or the lack of one, means.
pub open spec fn spec_state(entry: Option<ChunkEntry>) -> ChunkState {
    match entry {
        None => ChunkState::Unrequested,
        Some(ChunkEntry::Pending) => ChunkState::Pending,
        Some(ChunkEntry::Ready(record)) => if record.visible {
            ChunkState::Visible
        } else {
            ChunkState::Hidden
        },
    }
}

/// Orchestrates the lifecycle of the chunks around the player. It holds,
/// for every chunk coordinate that is not unrequested, one entry: pending
/// or registered. So no coordinate is ever pending twice, or pending and
/// registered at once.
pub struct ChunkLifecycleManager {
    table: RawTable,
    player: ChunkCoord,
}

impl View for ChunkLifecycleManager {
    type V = Map<ChunkCoord, ChunkEntry>;

    closed spec fn view(&self) -> Map<ChunkCoord, ChunkEntry> {
        Map::new(
            |coord: ChunkCoord| spec_table_entries(self.table).dom().contains((coord.x, coord.y)),
            |coord: ChunkCoord| spec_decode(spec_table_entries(self.table)[(coord.x, coord.y)]),
        )
    }
}

impl ChunkLifecycleManager {
    /// The player's last known chunk coordinate.
    pub closed spec fn spec_player(&self) -> ChunkCoord {
        self.player
    }

    /// The entry of `coord`, if the manager holds one.
    pub open spec fn spec_entry(&self, coord: ChunkCoord) -> Option<ChunkEntry> {
        if self@.dom().contains(coord) {
            Some(self@[coord])
        } else {
            None
        }
    }

    /// Where `coord` stands in the lifecycle.
    pub open spec fn spec_state_of(&self, coord: ChunkCoord) -> ChunkState {
        spec_state(self.spec_entry(coord))
    }

    /// Whether a generation job for `coord` is in flight.
    pub open spec fn spec_is_pending(&self, coord: ChunkCoord) -> bool {
        self.spec_entry(coord) == Some(ChunkEntry::Pending)
    }

    /// Whether `coord` is registered in the world map.
    pub open spec fn spec_is_loaded(&self, coord: ChunkCoord) -> bool {
        self.spec_entry(coord) matches Some(ChunkEntry::Ready(_))
    }

    /// The record of `coord` in the world map, if it is registered.
    pub open spec fn spec_record(&self, coord: ChunkCoord) -> Option<ChunkRecord> {
        match self.spec_entry(coord) {
            Some(ChunkEntry::Ready(record)) => Some(record),
            _ => None,
        }
    }

    /// A manager that knows no chunk, with the player at the origin.
    pub fn new() -> (r: Self)
        ensures
            r@ =~= Map::empty(),
            r.spec_player() == (ChunkCoord { x: 0, y: 0 }),
    {
        ChunkLifecycleManager { table: table_new(), player: ChunkCoord { x: 0, y: 0 } }
    }

    /// The player's last known chunk coordinate.
    pub fn player(&self) -> (r: ChunkCoord)
        ensures
            r == self.spec_player(),
    {
        self.player
    }

    /// The entry of `coord`, if the manager holds one.
    pub fn entry(&self, coord: ChunkCoord) -> (r: Option<ChunkEntry>)
        ensures
            r == self.spec_entry(coord),
    {
        match table_get(&self.table, (coord.x, coord.y)) {
            None => None,
            Some(raw) => if raw.0 {
                Some(ChunkEntry::Ready(ChunkRecord { handle: raw.1, last_touch: raw.2, visible: raw.3 }))
            } else {
                Some(ChunkEntry::Pending)
            },
        }
    }

    /// Where `coord` stands in the lifecycle.
    pub fn state_of(&self, coord: ChunkCoord) -> (r: ChunkState)
        ensures
            r == self.spec_state_of(coord),
    {
        match self.entry(coord) {
            None => ChunkState::Unrequested,
            Some(ChunkEntry::Pending) => ChunkState::Pending,
            Some(ChunkEntry::Ready(record)) => if record.visible {
                ChunkState::Visible
            } else {
                ChunkState::Hidden
            },
        }
    }

    /// Whether a generation job for `coord` is in flight.
    pub fn is_pending(&self, coord: ChunkCoord) -> (r: bool)
        ensures
            r == self.spec_is_pending(coord),
    {
        match self.entry(coord) {
            Some(ChunkEntry::Pending) => true,
            _ => false,
        }
    }

    /// Whether `coord` is registered in the world map.
    pub fn is_loaded(&self, coord: ChunkCoord) -> (r: bool)
        ensures
            r == self.spec_is_loaded(coord),
    {
        match self.entry(coord) {
            Some(ChunkEntry::Ready(_)) => true,
            _ => false,
        }
    }

    /// The record of `coord` in the world map, if it is registered.
    pub fn record_of(&self, coord: ChunkCoord) -> (r: Option<ChunkRecord>)
        ensures
            r == self.spec_record(coord),
    {
        match self.entry(coord) {
            Some(ChunkEntry::Ready(record)) => Some(record),
            _ => None,
        }
    }

    /// Registers the chunk that a finished generation job produced: its
    /// coordinate is no longer pending, and the world map holds it, hidden
    /// and freshly touched. Where the world map already held a chunk at
    /// the coordinate, that chunk's handle is returned for release.
    pub fn receive_generated_map_chunk(&mut self, coord: ChunkCoord, handle: u64, now: u64) -> (r: Option<u64>)
        ensures
            final(self)@ == old(self)@.insert(
                coord,
                ChunkEntry::Ready(ChunkRecord { handle, last_touch: now, visible: false }),
            ),
            final(self).spec_player() == old(self).spec_player(),
            r == (match old(self).spec_record(coord) {
                Some(record) => Some(record.handle),
                None => None,
            }),
    {
        let before = table_insert(&mut self.table, (coord.x, coord.y), (true, handle, now, false));
        assert(self@ =~= old(self)@.insert(
            coord,
            ChunkEntry::Ready(ChunkRecord { handle, last_touch: now, visible: false }),
        ));
        match before {
            Some(raw) => if raw.0 {
                Some(raw.1)
            } else {
                None
            },
            None => None,
        }
    }

    /// Requests generation around the player's new chunk coordinate. Every
    /// coordinate of the closed outer window that the manager holds no
    /// entry for becomes pending and is returned, in the order in which
    /// the window is walked: the caller spawns one job for each. A
    /// coordinate that is pending or registered already is left alone.
    pub fn begin_generating_map_chunks(&mut self, new_position: ChunkCoord, config: &World) -> (spawned:
        Vec<ChunkCoord>)
        ensures
            final(self).spec_player() == new_position,
            forall|coord: ChunkCoord|
                spawned@.contains(coord) <==> spec_in_window(
                    new_position,
                    config.spec_outer_distance(),
                    coord,
                ) && old(self).spec_entry(coord).is_none(),
            forall|i: int, j: int|
                0 <= i < j < spawned@.len() ==> spec_walks_before(spawned@[i], spawned@[j]),
            final(self)@ == Map::new(
                |coord: ChunkCoord| old(self)@.dom().contains(coord) || spawned@.contains(coord),
                |coord: ChunkCoord|
                    if old(self)@.dom().contains(coord) {
                        old(self)@[coord]
                    } else {
                        ChunkEntry::Pending
                    },
            ),
    {
        let radius: i64 = config.world_dimension as i64 + config.preload_extra_distance as i64;
        self.player = new_position;
        let mut spawned: Vec<ChunkCoord> = Vec::new();
        let ghost before = spec_table_entries(old(self).table);
        if radius < 0 {
            assert(self@ =~= Map::new(
                |coord: ChunkCoord| old(self)@.dom().contains(coord) || spawned@.contains(coord),
                |coord: ChunkCoord|
                    if old(self)@.dom().contains(coord) {
                        old(self)@[coord]
                    } else {
                        ChunkEntry::Pending
                    },
            ));
            return spawned;
        }
        let low_x: i64 = if new_position.x as i64 - radius < i32::MIN as i64 {
            i32::MIN as i64
        } else {
            new_position.x as i64 - radius
        };
        let high_x: i64 = if new_position.x as i64 + radius > i32::MAX as i64 {
            i32::MAX as i64
        } else {
            new_position.x as i64 + radius
        };
        let low_y: i64 = if new_position.y as i64 - radius < i32::MIN as i64 {
            i32::MIN as i64
        } else {
            new_position.y as i64 - radius
        };
        let high_y: i64 = if new_position.y as i64 + radius > i32::MAX as i64 {
            i32::MAX as i64
        } else {
            new_position.y as i64 + radius
        };
        let mut x: i64 = low_x;
        while x <= high_x
            invariant
                self.player == new_position,
                radius == config.spec_outer_distance(),
                0 <= radius,
                i32::MIN <= low_x <= x <= high_x + 1 <= i32::MAX + 1,
                i32::MIN <= low_y <= high_y <= i32::MAX,
                forall|coord: ChunkCoord|
                    spec_in_window(new_position, radius as int, coord) <==> (low_x <= coord.x
                        <= high_x && low_y <= coord.y <= high_y),
                forall|key: RawKey|
                    #[trigger] spec_table_entries(self.table).dom().contains(key) <==> (
                    before.dom().contains(key) || (low_x <= key.0 < x && low_y <= key.1 <= high_y)),
                forall|key: RawKey|
                    spec_table_entries(self.table).dom().contains(key) ==> #[trigger] spec_table_entries(
                        self.table,
                    )[key] == (if before.dom().contains(key) {
                        before[key]
                    } else {
                        spec_pending_raw()
                    }),
                forall|coord: ChunkCoord|
                    #[trigger] spawned@.contains(coord) <==> (low_x <= coord.x < x && low_y
                        <= coord.y <= high_y && !before.dom().contains((coord.x, coord.y))),
                forall|i: int, j: int|
                    0 <= i < j < spawned@.len() ==> spec_walks_before(spawned@[i], spawned@[j]),
            decreases high_x + 1 - x,
        {
            let mut y: i64 = low_y;
            while y <= high_y
                invariant
                    self.player == new_position,
                    i32::MIN <= low_x <= x <= high_x <= i32::MAX,
                    i32::MIN <= low_y <= y <= high_y + 1 <= i32::MAX + 1,
                    forall|key: RawKey|
                        #[trigger] spec_table_entries(self.table).dom().contains(key) <==> (
                        before.dom().contains(key) || (low_x <= key.0 < x && low_y <= key.1
                            <= high_y) || (key.0 == x && low_y <= key.1 < y)),
                    forall|key: RawKey|
                        spec_table_entries(self.table).dom().contains(key)
                            ==> #[trigger] spec_table_entries(self.table)[key] == (if before.dom().contains(
                            key,
                        ) {
                            before[key]
                        } else {
                            spec_pending_raw()
                        }),
                    forall|coord: ChunkCoord|
                        #[trigger] spawned@.contains(coord) <==> (((low_x <= coord.x < x && low_y
                            <= coord.y <= high_y) || (coord.x == x && low_y <= coord.y < y))
                            && !before.dom().contains((coord.x, coord.y))),
                    forall|i: int, j: int|
                        0 <= i < j < spawned@.len() ==> spec_walks_before(spawned@[i], spawned@[j]),
                decreases high_y + 1 - y,
            {
                let coord = ChunkCoord { x: x as i32, y: y as i32 };
                let ghost entries = spec_table_entries(self.table);
                let ghost listed = spawned@;
                if table_get(&self.table, (coord.x, coord.y)).is_none() {
                    table_insert(&mut self.table, (coord.x, coord.y), (false, 0, 0, false));
                    spawned.push(coord);
                    proof {
                        assert forall|other: ChunkCoord|
                            #[trigger] spawned@.contains(other) <==> (listed.contains(other)
                                || other == coord) by {
                            if listed.contains(other) {
                                let k = choose|k: int| 0 <= k < listed.len() && listed[k] == other;
                                assert(spawned@[k] == other);
                            }
                            if other == coord {
                                assert(spawned@[listed.len() as int] == other);
                            }
                        }
                        assert forall|i: int, j: int| 0 <= i < j < spawned@.len() implies spec_walks_before(
                            spawned@[i],
                            spawned@[j],
                        ) by {
                            if j == listed.len() {
                                assert(listed.contains(listed[i]));
                            }
                        }
                    }
                }
                y = y + 1;
            }
            x = x + 1;
        }
        proof {
            let target = Map::new(
                |coord: ChunkCoord| old(self)@.dom().contains(coord) || spawned@.contains(coord),
                |coord: ChunkCoord|
                    if old(self)@.dom().contains(coord) {
                        old(self)@[coord]
                    } else {
                        ChunkEntry::Pending
                    },
            );
            assert forall|coord: ChunkCoord| self@.dom().contains(coord) <==> target.dom().contains(
                coord,
            ) by {
                let key = (coord.x, coord.y);
                assert(spec_table_entries(self.table).dom().contains(key) <==> (
                before.dom().contains(key) || (low_x <= key.0 < x && low_y <= key.1 <= high_y)));
            }
            assert forall|coord: ChunkCoord| self@.dom().contains(coord) implies self@[coord]
                == target[coord] by {
                let key = (coord.x, coord.y);
                assert(spec_table_entries(self.table)[key] == (if before.dom().contains(key) {
                    before[key]
                } else {
                    spec_pending_raw()
                }));
            }
            assert(self@ =~= target);
        }
        spawned
    }

    /// Refreshes the chunks around the player. Every registered chunk in
    /// the closed outer window around the player's last known coordinate
    /// is touched at `now`, and shown if it lies strictly inside the inner
    /// window. Every other entry stays as it is.
    pub fn touch_chunks_around_player_at_interval(&mut self, now: u64, config: &World)
        ensures
            final(self).spec_player() == old(self).spec_player(),
            final(self)@ == Map::new(
                |coord: ChunkCoord| old(self)@.dom().contains(coord),
                |coord: ChunkCoord|
                    match old(self)@[coord] {
                        ChunkEntry::Pending => ChunkEntry::Pending,
                        ChunkEntry::Ready(record) => ChunkEntry::Ready(
                            record.spec_touched(coord, old(self).spec_player(), *config, now),
                        ),
                    },
            ),
    {
        let ghost before = spec_table_entries(old(self).table);
        let player = self.player;
        let keys = table_keys(&self.table);
        let mut i: usize = 0;
        while i < keys.len()
            invariant
                i <= keys@.len(),
                self.player == player,
                keys@.no_duplicates(),
                forall|key: RawKey| keys@.contains(key) <==> before.dom().contains(key),
                forall|key: RawKey|
                    #[trigger] spec_table_entries(self.table).dom().contains(key)
                        <==> before.dom().contains(key),
                forall|key: RawKey|
                    before.dom().contains(key) ==> #[trigger] spec_table_entries(self.table)[key]
                        == (if keys@.take(i as int).contains(key) {
                        spec_touch_raw(key, before[key], player, *config, now)
                    } else {
                        before[key]
                    }),
            decreases keys@.len() - i,
        {
            let key = keys[i];
            proof {
                lemma_take_next(keys@, i as int);
                assert(keys@.contains(key));
            }
            match table_get(&self.table, key) {
                Some(raw) => {
                    if raw.0 {
                        let record = ChunkRecord { handle: raw.1, last_touch: raw.2, visible: raw.3 };
                        let next = record.touched(
                            ChunkCoord { x: key.0, y: key.1 },
                            player,
                            config,
                            now,
                        );
                        table_insert(
                            &mut self.table,
                            key,
                            (true, next.handle, next.last_touch, next.visible),
                        );
                    }
                },
                None => {},
            }
            i = i + 1;
        }
        proof {
            assert(keys@.take(keys@.len() as int) =~= keys@);
            let target = Map::new(
                |coord: ChunkCoord| old(self)@.dom().contains(coord),
                |coord: ChunkCoord|
                    match old(self)@[coord] {
                        ChunkEntry::Pending => ChunkEntry::Pending,
                        ChunkEntry::Ready(record) => ChunkEntry::Ready(
                            record.spec_touched(coord, old(self).spec_player(), *config, now),
                        ),
                    },
            );
            assert forall|coord: ChunkCoord| self@.dom().contains(coord) implies self@[coord]
                == target[coord] by {
                let key = (coord.x, coord.y);
                assert(keys@.contains(key));
                assert(spec_table_entries(self.table)[key] == spec_touch_raw(
                    key,
                    before[key],
                    player,
                    *config,
                    now,
                ));
            }
            assert(self@ =~= target);
        }
    }
}

/// The value of the table after a touch pass.
pub open spec fn spec_touch_raw(
    key: RawKey,
    raw: RawEntry,
    player: ChunkCoord,
    config: World,
    now: u64,
) -> RawEntry {
    if raw.0 {
        spec_encode(
            (ChunkRecord { handle: raw.1, last_touch: raw.2, visible: raw.3 }).spec_touched(
                ChunkCoord { x: key.0, y: key.1 },
                player,
                config,
                now,
            ),
        )
    } else {
        raw
    }
}

/// Among the keys of a list without repetitions, the first `i + 1` are the
/// first `i` and the key at `i`, which is not among the first `i`.
proof fn lemma_take_next(keys: Seq<RawKey>, i: int)
    requires
        0 <= i < keys.len(),
        keys.no_duplicates(),
    ensures
        !keys.take(i).contains(keys[i]),
        forall|key: RawKey|
            #[trigger] keys.take(i + 1).contains(key) <==> (keys.take(i).contains(key) || key
                == keys[i]),
{
    let shorter = keys.take(i);
    let longer = keys.take(i + 1);
    assert forall|key: RawKey| #[trigger]
        longer.contains(key) <==> (shorter.contains(key) || key == keys[i]) by {
        if longer.contains(key) {
            let j = choose|j: int| 0 <= j < longer.len() && longer[j] == key;
            if j < i {
                assert(shorter[j] == key);
            }
        }
        if shorter.contains(key) {
            let j = choose|j: int| 0 <= j < shorter.len() && shorter[j] == key;
            assert(longer[j] == key);
        }
        if key == keys[i] {
            assert(longer[i] == key);
        }
    }
    if shorter.contains(keys[i]) {
        let j = choose|j: int| 0 <= j < shorter.len() && shorter[j] == keys[i];
        assert(keys[j] == keys[i]);
    }
}

/// What a sweep makes of a record: an eviction pass under a policy, or
/// the removal of every record where there is no policy.
pub open spec fn spec_swept(record: ChunkRecord, now: u64, rule: Option<EvictionPolicy>) -> Option<
    ChunkRecord,
> {
    match rule {
        None => None,
        Some(policy) => record.spec_evicted(now, policy),
    }
}

/// What a sweep makes of an entry. A pending entry always stays.
pub open spec fn spec_swept_entry(entry: ChunkEntry, now: u64, rule: Option<EvictionPolicy>) -> Option<
    ChunkEntry,
> {
    match entry {
        ChunkEntry::Pending => Some(ChunkEntry::Pending),
        ChunkEntry::Ready(record) => match spec_swept(record, now, rule) {
            None => None,
            Some(kept) => Some(ChunkEntry::Ready(kept)),
        },
    }
}

/// The entries after a sweep: those that the sweep keeps, each as the
/// sweep leaves it.
pub open spec fn spec_swept_map(
    entries: Map<ChunkCoord, ChunkEntry>,
    now: u64,
    rule: Option<EvictionPolicy>,
) -> Map<ChunkCoord, ChunkEntry> {
    Map::new(
        |coord: ChunkCoord|
            entries.dom().contains(coord) && spec_swept_entry(entries[coord], now, rule).is_some(),
        |coord: ChunkCoord| spec_swept_entry(entries[coord], now, rule).unwrap(),
    )
}

/// Whether a sweep releases the chunk at `coord` with the given handle.
pub open spec fn spec_is_released(
    entries: Map<ChunkCoord, ChunkEntry>,
    now: u64,
    rule: Option<EvictionPolicy>,
    coord: ChunkCoord,
    handle: u64,
) -> bool {
    &&& entries.dom().contains(coord)
    &&& entries[coord] matches ChunkEntry::Ready(record)
    &&& record.handle == handle
    &&& spec_swept(record, now, rule).is_none()
}

impl ChunkLifecycleManager {
    /// Sweeps the world map and returns, for release, the coordinate and
    /// the handle of every chunk that left it.
    fn sweep(&mut self, now: u64, rule: Option<EvictionPolicy>) -> (released: Vec<
        (ChunkCoord, u64),
    >)
        ensures
            final(self).spec_player() == old(self).spec_player(),
            final(self)@ == spec_swept_map(old(self)@, now, rule),
            forall|coord: ChunkCoord, handle: u64|
                #[trigger] released@.contains((coord, handle)) <==> spec_is_released(
                    old(self)@,
                    now,
                    rule,
                    coord,
                    handle,
                ),
            forall|i: int, j: int|
                0 <= i < j < released@.len() ==> released@[i].0 != released@[j].0,
    {
        let ghost before = spec_table_entries(old(self).table);
        let keys = table_keys(&self.table);
        let mut released: Vec<(ChunkCoord, u64)> = Vec::new();
        let mut i: usize = 0;
        while i < keys.len()
            invariant
                i <= keys@.len(),
                self.player == old(self).player,
                before == spec_table_entries(old(self).table),
                keys@.no_duplicates(),
                forall|key: RawKey| keys@.contains(key) <==> before.dom().contains(key),
                forall|key: RawKey|
                    #[trigger] spec_table_entries(self.table).dom().contains(key) <==> (
                    before.dom().contains(key) && !(keys@.take(i as int).contains(key)
                        && spec_swept_entry(spec_decode(before[key]), now, rule).is_none())),
                forall|key: RawKey|
                    spec_table_entries(self.table).dom().contains(key) ==> spec_decode(
                        #[trigger] spec_table_entries(self.table)[key],
                    ) == (if keys@.take(i as int).contains(key) {
                        spec_swept_entry(spec_decode(before[key]), now, rule).unwrap()
                    } else {
                        spec_decode(before[key])
                    }),
                forall|coord: ChunkCoord, handle: u64|
                    #[trigger] released@.contains((coord, handle)) <==> (keys@.take(
                        i as int,
                    ).contains((coord.x, coord.y)) && spec_is_released(
                        old(self)@,
                        now,
                        rule,
                        coord,
                        handle,
                    )),
                forall|a: int, b: int|
                    0 <= a < b < released@.len() ==> released@[a].0 != released@[b].0,
            decreases keys@.len() - i,
        {
            let key = keys[i];
            let coord = ChunkCoord { x: key.0, y: key.1 };
            let ghost listed = released@;
            proof {
                lemma_take_next(keys@, i as int);
                assert(keys@.contains(key));
            }
            match table_get(&self.table, key) {
                Some(raw) => {
                    if raw.0 {
                        let record = ChunkRecord { handle: raw.1, last_touch: raw.2, visible: raw.3 };
                        let kept = match rule {
                            None => None,
                            Some(policy) => record.evicted(now, &policy),
                        };
                        match kept {
                            None => {
                                table_remove(&mut self.table, key);
                                released.push((coord, raw.1));
                                proof {
                                    assert forall|other: (ChunkCoord, u64)|
                                        #[trigger] released@.contains(other) <==> (listed.contains(
                                            other,
                                        ) || other == (coord, raw.1)) by {
                                        if listed.contains(other) {
                                            let k = choose|k: int|
                                                0 <= k < listed.len() && listed[k] == other;
                                            assert(released@[k] == other);
                                        }
                                        if other == (coord, raw.1) {
                                            assert(released@[listed.len() as int] == other);
                                        }
                                    }
                                    assert forall|a: int, b: int|
                                        0 <= a < b < released@.len() implies released@[a].0
                                        != released@[b].0 by {
                                        if b == listed.len() {
                                            assert(listed.contains(listed[a]));
                                            assert(listed.contains((listed[a].0, listed[a].1)));
                                        }
                                    }
                                }
                            },
                            Some(next) => {
                                table_insert(
                                    &mut self.table,
                                    key,
                                    (true, next.handle, next.last_touch, next.visible),
                                );
                            },
                        }
                    }
                },
                None => {},
            }
            proof {
                assert(old(self)@.dom().contains(coord));
                assert(old(self)@[coord] == spec_decode(before[key]));
                assert forall|other: ChunkCoord, handle: u64| #[trigger]
                    released@.contains((other, handle)) <==> (keys@.take(i + 1).contains(
                        (other.x, other.y),
                    ) && spec_is_released(old(self)@, now, rule, other, handle)) by {
                    if (other.x, other.y) == key {
                        assert(other == coord);
                    }
                }
            }
            i = i + 1;
        }
        proof {
            assert(keys@.take(keys@.len() as int) =~= keys@);
            let target = spec_swept_map(old(self)@, now, rule);
            assert forall|coord: ChunkCoord| self@.dom().contains(coord) <==> target.dom().contains(
                coord,
            ) by {
                let key = (coord.x, coord.y);
                assert(spec_table_entries(self.table).dom().contains(key) <==> (
                before.dom().contains(key) && !(keys@.contains(key) && spec_swept_entry(
                    spec_decode(before[key]),
                    now,
                    rule,
                ).is_none())));
            }
            assert forall|coord: ChunkCoord| self@.dom().contains(coord) implies self@[coord]
                == target[coord] by {
                let key = (coord.x, coord.y);
                assert(keys@.contains(key));
                assert(spec_decode(spec_table_entries(self.table)[key]) == spec_swept_entry(
                    spec_decode(before[key]),
                    now,
                    rule,
                ).unwrap());
            }
            assert(self@ =~= target);
            assert forall|coord: ChunkCoord, handle: u64| #[trigger]
                released@.contains((coord, handle)) <==> spec_is_released(
                    old(self)@,
                    now,
                    rule,
                    coord,
                    handle,
                ) by {
                if spec_is_released(old(self)@, now, rule, coord, handle) {
                    assert(keys@.contains((coord.x, coord.y)));
                }
            }
        }
        released
    }

    /// The eviction pass. A registered chunk that has not been touched for
    /// longer than the policy's first threshold is hidden; one that is
    /// hidden so and has not been touched for longer than the second
    /// threshold leaves the world map, and its coordinate and handle are
    /// returned for release. Pending coordinates and recently touched
    /// chunks stay as they are.
    pub fn remove_chunks_that_are_stale(&mut self, now: u64, policy: &EvictionPolicy) -> (released:
        Vec<(ChunkCoord, u64)>)
        ensures
            final(self).spec_player() == old(self).spec_player(),
            final(self)@ == spec_swept_map(old(self)@, now, Some(*policy)),
            forall|coord: ChunkCoord, handle: u64|
                #[trigger] released@.contains((coord, handle)) <==> spec_is_released(
                    old(self)@,
                    now,
                    Some(*policy),
                    coord,
                    handle,
                ),
            forall|i: int, j: int|
                0 <= i < j < released@.len() ==> released@[i].0 != released@[j].0,
    {
        self.sweep(now, Some(*policy))
    }

    /// Empties the world map, as a change of the noise configuration asks
    /// for: every registered chunk leaves it, and its coordinate and handle
    /// are returned for release. Jobs in flight cannot be called back, so
    /// pending coordinates stay pending.
    pub fn clear_world(&mut self) -> (released: Vec<(ChunkCoord, u64)>)
        ensures
            final(self).spec_player() == old(self).spec_player(),
            final(self)@ == spec_swept_map(old(self)@, 0, None),
            forall|coord: ChunkCoord, handle: u64|
                #[trigger] released@.contains((coord, handle)) <==> spec_is_released(
                    old(self)@,
                    0,
                    None,
                    coord,
                    handle,
                ),
            forall|i: int, j: int|
                0 <= i < j < released@.len() ==> released@[i].0 != released@[j].0,
    {
        self.sweep(0, None)
    }
}

/// Tells that the player's chunk coordinate has changed.
#[derive(Clone, Copy, Debug, PartialEq, Eq, Structural)]
pub struct PlayerChangedChunkCoordEvent {
    pub new_position: ChunkCoord,
    pub previous_position: ChunkCoord,
}

impl ChunkLifecycleManager {
    /// Compares the chunk that the player stands in with the last known
    /// one, and tells of the change where they differ.
    pub fn check_for_player_chunk_position_update(&self, player_chunk_coord: ChunkCoord) -> (r:
        Option<PlayerChangedChunkCoordEvent>)
        ensures
            r == (if player_chunk_coord != self.spec_player() {
                Some(
                    PlayerChangedChunkCoordEvent {
                        new_position: player_chunk_coord,
                        previous_position: self.spec_player(),
                    },
                )
            } else {
                None
            }),
    {
        if player_chunk_coord.x != self.player.x || player_chunk_coord.y != self.player.y {
            Some(
                PlayerChangedChunkCoordEvent {
                    new_position: player_chunk_coord,
                    previous_position: self.player,
                },
            )
        } else {
            None
        }
    }

    /// Takes the event's new position as the player's last known chunk
    /// coordinate. No entry changes.
    pub fn update_player_last_chunk_coord(&mut self, event: &PlayerChangedChunkCoordEvent)
        ensures
            final(self).spec_player() == event.new_position,
            final(self)@ == old(self)@,
    {
        self.player = event.new_position;
    }
}

/// No coordinate is spawned twice. Of two requests in a row, the second
/// returns no coordinate that the first returned, whatever the two windows
/// are; and over the same window it returns none at all.
pub proof fn lemma_no_coordinate_is_spawned_twice(
    before: Map<ChunkCoord, ChunkEntry>,
    first: Seq<ChunkCoord>,
    between: Map<ChunkCoord, ChunkEntry>,
    second: Seq<ChunkCoord>,
    first_center: ChunkCoord,
    first_radius: int,
    second_center: ChunkCoord,
    second_radius: int,
)
    requires
        forall|coord: ChunkCoord|
            first.contains(coord) <==> spec_in_window(first_center, first_radius, coord)
                && !before.dom().contains(coord),
        between == Map::new(
            |coord: ChunkCoord| before.dom().contains(coord) || first.contains(coord),
            |coord: ChunkCoord|
                if before.dom().contains(coord) {
                    before[coord]
                } else {
                    ChunkEntry::Pending
                },
        ),
        forall|coord: ChunkCoord|
            second.contains(coord) <==> spec_in_window(second_center, second_radius, coord)
                && !between.dom().contains(coord),
    ensures
        forall|coord: ChunkCoord| first.contains(coord) ==> between[coord] == ChunkEntry::Pending,
        forall|coord: ChunkCoord| !(first.contains(coord) && second.contains(coord)),
        forall|coord: ChunkCoord|
            second.contains(coord) ==> !before.dom().contains(coord),
        first_center == second_center && first_radius == second_radius ==> second.len() == 0,
{
    if first_center == second_center && first_radius == second_radius && second.len() > 0 {
        assert(second.contains(second[0]));
    }
}

/// What the eviction pass does to the world map, coordinate by
/// coordinate. A pending coordinate stays pending. A chunk touched no
/// longer ago than the first threshold stays as it is. A chunk past the
/// first threshold but not past the second is hidden and still in the
/// world map. Only a chunk past both thresholds is absent afterwards.
pub proof fn lemma_eviction_pass_is_two_phase(
    entries: Map<ChunkCoord, ChunkEntry>,
    now: u64,
    policy: EvictionPolicy,
    coord: ChunkCoord,
)
    requires
        entries.dom().contains(coord),
    ensures
        ({
            let after = spec_swept_map(entries, now, Some(policy));
            match entries[coord] {
                ChunkEntry::Pending => after.dom().contains(coord) && after[coord]
                    == ChunkEntry::Pending,
                ChunkEntry::Ready(record) => {
                    let age = record.spec_age(now);
                    &&& age <= policy.hide_after ==> after.dom().contains(coord) && after[coord]
                        == ChunkEntry::Ready(record)
                    &&& policy.hide_after < age <= policy.remove_after ==> after.dom().contains(
                        coord,
                    ) && after[coord] == ChunkEntry::Ready(
                        ChunkRecord {
                            handle: record.handle,
                            last_touch: record.last_touch,
                            visible: false,
                        },
                    )
                    &&& !after.dom().contains(coord) <==> (age > policy.hide_after && age
                        > policy.remove_after)
                },
            }
        }),
        forall|other: ChunkCoord|
            spec_swept_map(entries, now, Some(policy)).dom().contains(other)
                ==> entries.dom().contains(other),
{
}

} // verus!
