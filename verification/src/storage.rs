//! Durable storage: a persistent counter cell and persistent tables from
//! identifiers to bounded byte strings, both kept by `ic-stable-structures`.
//!
//! Everything in this module is believed, not proved: the contracts say what
//! the stable structures do, as their sources show it. The structures are
//! made in one place, each in a virtual memory of its own. They write through
//! to the memory, so a process opens them once.
use vstd::prelude::*;
use ic_stable_structures::cell::ValueError;
use ic_stable_structures::memory_manager::{MemoryId, MemoryManager, VirtualMemory};
use ic_stable_structures::storable::Blob;
use ic_stable_structures::{Cell, DefaultMemoryImpl, StableBTreeMap};

verus! {

/// The largest number of bytes that one stored record may take.
pub const RECORD_BOUND: usize = 1024;

/// The failure that `Cell::set` reports; nothing is read from it.
#[verifier::external_type_specification]
#[verifier::external_body]
pub struct ExValueError(ValueError);

/// A `Cell<u64, _>`: one durable number.
#[verifier::external_body]
pub struct Counter {
    inner: Cell<u64, VirtualMemory<DefaultMemoryImpl>>,
}

/// A `StableBTreeMap` from `u64` keys to `Blob<1024>` values: one durable
/// table.
#[verifier::external_body]
pub struct Table {
    inner: StableBTreeMap<u64, Blob<1024>, VirtualMemory<DefaultMemoryImpl>>,
}

/// The number that a counter cell holds.
pub uninterp spec fn counter_value(counter: Counter) -> u64;

/// The entries that a table holds, each value as the bytes of its blob.
pub uninterp spec fn table_entries(table: Table) -> Map<u64, Seq<u8>>;

/// Calls `MemoryManager::init` on `DefaultMemoryImpl::default()`, then
/// `Cell::init` on one of its virtual memories, with `first` as the value of
/// a cell that the memory does not hold yet, and `StableBTreeMap::init` on
/// three more. What the cell and the tables hold depends on the memory, so
/// nothing is claimed of it. The four memories are distinct, so that no
/// structure writes where another one reads; `MemoryId::new` panics on 255.
/// The precondition asks for both.
#[verifier::external_body]
pub(crate) fn open_structures(
    first: u64,
    counter_slot: u8,
    event_slot: u8,
    user_slot: u8,
    ticket_slot: u8,
) -> (parts: (Option<Counter>, Table, Table, Table))
    requires
        counter_slot != 255 && event_slot != 255 && user_slot != 255 && ticket_slot != 255,
        counter_slot != event_slot && counter_slot != user_slot && counter_slot != ticket_slot,
        event_slot != user_slot && event_slot != ticket_slot && user_slot != ticket_slot,
{
    let pool = MemoryManager::init(DefaultMemoryImpl::default());
    let counter = match Cell::init(pool.get(MemoryId::new(counter_slot)), first) {
        Ok(cell) => Some(Counter { inner: cell }),
        Err(_) => None,
    };
    let events = Table { inner: StableBTreeMap::init(pool.get(MemoryId::new(event_slot))) };
    let users = Table { inner: StableBTreeMap::init(pool.get(MemoryId::new(user_slot))) };
    let tickets = Table { inner: StableBTreeMap::init(pool.get(MemoryId::new(ticket_slot))) };
    (counter, events, users, tickets)
}

/// Calls `Cell::get`, which returns the value that the cell holds.
#[verifier::external_body]
pub(crate) fn counter_get(counter: &Counter) -> (value: u64)
    ensures
        value == counter_value(*counter),
{
    *counter.inner.get()
}

/// Calls `Cell::set`. On success the cell holds the new value and the old one
/// is returned; on failure the cell holds what it held.
#[verifier::external_body]
pub(crate) fn counter_set(counter: &mut Counter, value: u64) -> (outcome: Result<u64, ValueError>)
    ensures
        outcome is Ok ==> counter_value(*final(counter)) == value,
        outcome matches Ok(previous) ==> previous == counter_value(*old(counter)),
        outcome is Err ==> counter_value(*final(counter)) == counter_value(*old(counter)),
{
    counter.inner.set(value)
}

/// Calls `StableBTreeMap::get`, which returns the value stored under the key,
/// if there is one; the blob is handed out as its bytes.
#[verifier::external_body]
pub(crate) fn table_get(table: &Table, key: u64) -> (found: Option<Vec<u8>>)
    ensures
        found is Some <==> table_entries(*table).contains_key(key),
        found matches Some(bytes) ==> bytes@ == table_entries(*table)[key],
{
    match table.inner.get(&key) {
        Some(blob) => Some(blob.as_slice().to_vec()),
        None => None,
    }
}

/// Calls `StableBTreeMap::insert` with the bytes as a `Blob<1024>`: afterwards
/// the key maps to the bytes and every other entry is as it was. A blob takes
/// at most 1024 bytes, which the precondition asks for.
#[verifier::external_body]
pub(crate) fn table_insert(table: &mut Table, key: u64, bytes: &Vec<u8>)
    requires
        bytes@.len() <= RECORD_BOUND,
    ensures
        table_entries(*final(table)) == table_entries(*old(table)).insert(key, bytes@),
{
    if let Ok(blob) = Blob::<1024>::try_from(bytes.as_slice()) {
        table.inner.insert(key, blob);
    }
}

/// Calls `StableBTreeMap::remove`: afterwards the key has no entry and every
/// other entry is as it was.
#[verifier::external_body]
pub(crate) fn table_remove(table: &mut Table, key: u64)
    ensures
        table_entries(*final(table)) == table_entries(*old(table)).remove(key),
{
    table.inner.remove(&key);
}

/// Walks `StableBTreeMap::iter`, which yields the entries sorted by key:
/// the list holds every entry of the table once, keys ascending, each blob as
/// its bytes.
#[verifier::external_body]
pub(crate) fn table_list(table: &Table) -> (entries: Vec<(u64, Vec<u8>)>)
    ensures
        forall|i: int|
            0 <= i < entries@.len() ==> table_entries(*table).contains_key(
                (#[trigger] entries@[i]).0,
            ) && table_entries(*table)[entries@[i].0] == entries@[i].1@,
        forall|key: u64| #[trigger]
            table_entries(*table).contains_key(key) ==> exists|i: int|
                0 <= i < entries@.len() && (#[trigger] entries@[i]).0 == key,
        forall|i: int, j: int|
            0 <= i < j < entries@.len() ==> (#[trigger] entries@[i]).0 < (#[trigger] entries@[j]).0,
{
    table.inner.iter().map(|(key, blob)| (key, blob.as_slice().to_vec())).collect()
}

} // verus!
