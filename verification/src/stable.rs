//! The stable structures that hold the records, and what this crate assumes of
//! them. Nothing in this file is proved: every contract restates what the
//! source of `ic_stable_structures` shows.
//!
//! The structures grow their memory as they need it and give up, as an
//! allocation does, when the machine has no more. They share one default
//! memory, so a program makes them once.

use ic_stable_structures::memory_manager::{MemoryId, MemoryManager, VirtualMemory};
use ic_stable_structures::{Cell, DefaultMemoryImpl, StableBTreeMap};
use vstd::prelude::*;

verus! {

/// A `MemoryManager` over the default memory: it divides one memory into
/// numbered virtual memories that do not overlap.
#[verifier::external_body]
pub(crate) struct Memories {
    manager: MemoryManager<DefaultMemoryImpl>,
}

/// One `VirtualMemory` of a [`Memories`].
#[verifier::external_body]
pub(crate) struct StableMemory {
    memory: VirtualMemory<DefaultMemoryImpl>,
}

/// A `StableBTreeMap` from a record's identifier to the record's bytes. Its
/// entries are spoken of through [`record_map_entries`].
#[verifier::external_body]
pub struct RecordMap {
    entries: StableBTreeMap<u64, Vec<u8>, VirtualMemory<DefaultMemoryImpl>>,
}

/// A stable `Cell` that holds an identifier counter. Its value is spoken of
/// through [`id_cell_value`].
#[verifier::external_body]
pub struct IdCell {
    cell: Cell<u64, VirtualMemory<DefaultMemoryImpl>>,
}

/// The entries that a record map holds.
pub uninterp spec fn record_map_entries(records: RecordMap) -> Map<u64, Seq<u8>>;

/// The number that an identifier cell holds.
pub uninterp spec fn id_cell_value(cell: IdCell) -> u64;

/// The longest value that a record map stores faithfully: the map writes the
/// length of a value as a `u32`.
pub const MAX_RECORD_BYTES: usize = 0xffff_ffff;

/// `MemoryManager::init` on a default memory. Nothing is claimed of the manager.
/// On an empty memory it starts anew; where the memory holds a manager
/// already, that one is taken up again.
#[verifier::external_body]
pub(crate) fn new_memories() -> Memories {
    Memories { manager: MemoryManager::init(DefaultMemoryImpl::default()) }
}

/// `MemoryManager::get`: the virtual memory with the given number (`MemoryId::new`
/// rejects 255). Memories with different numbers do not overlap; this crate asks
/// for each number once, so that every structure has a memory of its own.
#[verifier::external_body]
pub(crate) fn virtual_memory(memories: &Memories, id: u8) -> StableMemory
    requires
        id < 255,
{
    StableMemory { memory: memories.manager.get(MemoryId::new(id)) }
}

/// `StableBTreeMap::new`: a map without entries, whatever the memory held before.
#[verifier::external_body]
pub(crate) fn new_record_map(memory: StableMemory) -> (records: RecordMap)
    ensures
        record_map_entries(records) == (Map::<u64, Seq<u8>>::empty()),
{
    RecordMap { entries: StableBTreeMap::new(memory.memory) }
}

/// `StableBTreeMap::get`: the value stored under `key`, if there is one.
#[verifier::external_body]
pub(crate) fn record_map_get(records: &RecordMap, key: u64) -> (value: Option<Vec<u8>>)
    ensures
        value is Some <==> record_map_entries(*records).contains_key(key),
        value matches Some(bytes) ==> bytes@ == record_map_entries(*records)[key],
{
    records.entries.get(&key)
}

/// `StableBTreeMap::insert`: stores `value` under `key`, in place of what was
/// there, and returns the value that it replaced.
#[verifier::external_body]
pub(crate) fn record_map_insert(records: &mut RecordMap, key: u64, value: Vec<u8>) -> (previous:
    Option<Vec<u8>>)
    requires
        value@.len() <= MAX_RECORD_BYTES,
    ensures
        record_map_entries(*final(records)) == record_map_entries(*old(records)).insert(
            key,
            value@,
        ),
        previous is Some <==> record_map_entries(*old(records)).contains_key(key),
        previous matches Some(bytes) ==> bytes@ == record_map_entries(*old(records))[key],
{
    records.entries.insert(key, value)
}

/// `StableBTreeMap::remove`: drops the entry under `key`, if there is one, and
/// returns its value.
#[verifier::external_body]
pub(crate) fn record_map_remove(records: &mut RecordMap, key: u64) -> (previous: Option<Vec<u8>>)
    ensures
        record_map_entries(*final(records)) == record_map_entries(*old(records)).remove(key),
        previous is Some <==> record_map_entries(*old(records)).contains_key(key),
        previous matches Some(bytes) ==> bytes@ == record_map_entries(*old(records))[key],
{
    records.entries.remove(&key)
}

/// `Cell::new`: a cell that holds `value`, whatever the memory held before.
#[verifier::external_body]
pub(crate) fn new_id_cell(memory: StableMemory, value: u64) -> (cell: IdCell)
    ensures
        id_cell_value(cell) == value,
{
    IdCell { cell: Cell::new(memory.memory, value) }
}

/// `Cell::get`: the value in the cell.
#[verifier::external_body]
pub(crate) fn id_cell_get(cell: &IdCell) -> (value: u64)
    ensures
        value == id_cell_value(*cell),
{
    *cell.cell.get()
}

/// `Cell::set`: puts `value` in the cell and returns the value that was there.
#[verifier::external_body]
pub(crate) fn id_cell_set(cell: &mut IdCell, value: u64) -> (previous: u64)
    ensures
        id_cell_value(*final(cell)) == value,
        previous == id_cell_value(*old(cell)),
{
    cell.cell.set(value)
}

} // verus!
