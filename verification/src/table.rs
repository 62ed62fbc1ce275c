//! The table in which a surface keeps the last state of each source that
//! drives it.
//!
//! The table is bevy's `EntityHashMap`, which is hashbrown's `HashMap` with
//! the hasher that bevy uses for entities, keyed here by the 64 bits of a
//! source's entity. Verus does not look into it: what the functions of this
//! file say of it is taken from hashbrown's documentation. The hasher takes
//! 64-bit keys and no others, which is how a `u64` hashes itself.

use vstd::prelude::*;
use crate::events::InputState;

verus! {

/// The last-known states of the sources of one surface.
///
/// The map inside is hidden from Verus as a whole: hashbrown's `HashMap` has
/// an allocator parameter, with which the type cannot be declared to Verus.
#[verifier::external_body]
pub struct StateTable {
    inner: bevy::utils::EntityHashMap<u64, InputState>,
}

/// What a table holds: the state kept for each source.
pub uninterp spec fn table_entries(table: StateTable) -> Map<u64, InputState>;

impl View for StateTable {
    type V = Map<u64, InputState>;

    open spec fn view(&self) -> Map<u64, InputState> {
        table_entries(*self)
    }
}

/// `HashMap::default` of hashbrown, for the map with the entity hasher: the
/// new map is empty.
#[verifier::external_body]
pub(crate) fn table_new() -> (table: StateTable)
    ensures
        (table_entries(table) == Map::<u64, InputState>::empty()),
{
    StateTable { inner: bevy::utils::EntityHashMap::default() }
}

/// `HashMap::insert` of hashbrown: afterwards the map holds `state` for
/// `source`, and for every other key what it held before. The value that the
/// call hands back is dropped.
#[verifier::external_body]
pub(crate) fn table_insert(table: &mut StateTable, source: u64, state: InputState)
    ensures
        table_entries(*final(table)) == table_entries(*old(table)).insert(source, state),
{
    table.inner.insert(source, state);
}

/// `HashMap::remove` of hashbrown: the value kept for `source` comes back, if
/// there was one, and afterwards the map holds nothing for `source` and for
/// every other key what it held before.
#[verifier::external_body]
pub(crate) fn table_remove(table: &mut StateTable, source: u64) -> (state: Option<InputState>)
    ensures
        table_entries(*final(table)) == table_entries(*old(table)).remove(source),
        state == (if table_entries(*old(table)).contains_key(source) {
            Some(table_entries(*old(table))[source])
        } else {
            None
        }),
{
    table.inner.remove(&source)
}

/// `HashMap::get` of hashbrown: the value kept for `source`, if there is one.
#[verifier::external_body]
pub(crate) fn table_get(table: &StateTable, source: u64) -> (state: Option<InputState>)
    ensures
        state == (if table_entries(*table).contains_key(source) {
            Some(table_entries(*table)[source])
        } else {
            None
        }),
{
    table.inner.get(&source).copied()
}

/// `HashMap::into_iter` of hashbrown: every pair of the map comes out once,
/// in an order that is not told.
#[verifier::external_body]
pub(crate) fn table_into_entries(table: StateTable) -> (entries: Vec<(u64, InputState)>)
    ensures
        forall|i: int|
            0 <= i < entries.len() ==> table_entries(table).contains_pair(
                (#[trigger] entries[i]).0,
                entries[i].1,
            ),
        forall|i: int, j: int|
            0 <= i < j < entries.len() ==> (#[trigger] entries[i]).0 != (#[trigger] entries[j]).0,
        forall|source: u64| #[trigger]
            table_entries(table).contains_key(source) ==> exists|i: int|
                0 <= i < entries.len() && (#[trigger] entries[i]).0 == source,
{
    table.inner.into_iter().collect()
}

impl Default for StateTable {
    fn default() -> (table: StateTable)
        ensures
            table@ == Map::<u64, InputState>::empty(),
    {
        table_new()
    }
}

impl StateTable {
    /// Makes a table that holds no source.
    pub fn new() -> (table: StateTable)
        ensures
            table@ == Map::<u64, InputState>::empty(),
    {
        table_new()
    }

    /// The state kept for `source`, if the source drove the surface in the
    /// last frame.
    pub fn state_of(&self, source: u64) -> (state: Option<InputState>)
        ensures
            state is Some <==> self@.contains_key(source),
            state matches Some(kept) ==> kept == self@[source],
    {
        table_get(self, source)
    }

    /// Tells whether `source` drove the surface in the last frame.
    pub fn contains(&self, source: u64) -> (kept: bool)
        ensures
            kept == self@.contains_key(source),
    {
        table_get(self, source).is_some()
    }
}

} // verus!
