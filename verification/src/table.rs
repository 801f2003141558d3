//! The hash map that the lifecycle manager keeps its entries in.
//!
//! The map is bevy's; nothing of it is verified here. Each function below
//! states, over the map's entries, what the corresponding method of the map
//! does, and the manager is proved against those statements.

use vstd::prelude::*;
use bevy::platform::collections::HashMap;
use bevy::platform::hash::FixedHasher;

verus! {

/// `bevy::platform::collections::HashMap`, taken as an opaque type.
#[verifier::external_type_specification]
#[verifier::external_body]
#[verifier::reject_recursive_types(K)]
#[verifier::reject_recursive_types(V)]
#[verifier::reject_recursive_types(S)]
pub struct ExHashMap<K, V, S>(bevy::platform::collections::HashMap<K, V, S>);

/// `bevy::platform::hash::FixedHasher`, the map's default hasher, taken as
/// an opaque type.
#[verifier::external_type_specification]
#[verifier::external_body]
pub struct ExFixedHasher(bevy::platform::hash::FixedHasher);

/// The key of an entry: the x and y of a chunk coordinate.
pub type RawKey = (i32, i32);

/// The value of an entry: whether the chunk is registered (as opposed to
/// pending), its handle, its last touch and whether it is visible.
pub type RawEntry = (bool, u64, u64, bool);

pub type RawTable = HashMap<(i32, i32), (bool, u64, u64, bool), FixedHasher>;

/// The entries that a map holds: which keys it has, and the value of each.
/// Nothing is proved of it; the functions below say how the map's methods
/// change it.
pub uninterp spec fn spec_table_entries(
    table: HashMap<(i32, i32), (bool, u64, u64, bool), FixedHasher>,
) -> Map<(i32, i32), (bool, u64, u64, bool)>;

/// Calls `HashMap::new` of `bevy::platform::collections`. Claims that the
/// new map has no entries.
#[verifier::external_body]
pub(crate) fn table_new() -> (table: RawTable)
    ensures
        spec_table_entries(table) =~= Map::empty(),
{
    HashMap::new()
}

/// Calls `HashMap::get`. Claims that it finds the value stored under
/// `key` exactly when the map has an entry for `key`. The value is copied
/// out.
#[verifier::external_body]
pub(crate) fn table_get(table: &RawTable, key: RawKey) -> (r: Option<RawEntry>)
    ensures
        r == (if spec_table_entries(*table).dom().contains(key) {
            Some(spec_table_entries(*table)[key])
        } else {
            None
        }),
{
    table.get(&key).copied()
}

/// Calls `HashMap::insert`. Claims that afterwards `key` maps to `value`
/// and every other key maps to what it did, and that the value which `key`
/// had before is returned.
#[verifier::external_body]
pub(crate) fn table_insert(table: &mut RawTable, key: RawKey, value: RawEntry) -> (r: Option<
    RawEntry,
>)
    ensures
        spec_table_entries(*final(table)) == spec_table_entries(*old(table)).insert(key, value),
        r == (if spec_table_entries(*old(table)).dom().contains(key) {
            Some(spec_table_entries(*old(table))[key])
        } else {
            None
        }),
{
    table.insert(key, value)
}

/// Calls `HashMap::remove`. Claims that afterwards `key` has no entry and
/// every other key maps to what it did, and that the value which `key` had
/// before is returned.
#[verifier::external_body]
pub(crate) fn table_remove(table: &mut RawTable, key: RawKey) -> (r: Option<RawEntry>)
    ensures
        spec_table_entries(*final(table)) == spec_table_entries(*old(table)).remove(key),
        r == (if spec_table_entries(*old(table)).dom().contains(key) {
            Some(spec_table_entries(*old(table))[key])
        } else {
            None
        }),
{
    table.remove(&key)
}

/// Calls `HashMap::keys` and collects what it yields. Claims that every key
/// of the map comes once and nothing else comes; nothing is claimed of the
/// order.
#[verifier::external_body]
pub(crate) fn table_keys(table: &RawTable) -> (r: Vec<RawKey>)
    ensures
        r@.no_duplicates(),
        forall|key: RawKey| r@.contains(key) <==> spec_table_entries(*table).dom().contains(key),
{
    table.keys().copied().collect()
}

} // verus!
