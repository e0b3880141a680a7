//! The store: the identifier counter and the three tables, read and written
//! one record at a time.
use vstd::prelude::*;
use ic_stable_structures::cell::ValueError;
use crate::layout::{
    decode_event, decode_ticket, decode_user, encode_event, encode_ticket, encode_user, event_fits,
    event_len, event_of_bytes, lemma_event_round_trip, lemma_ticket_round_trip,
    lemma_user_round_trip, ticket_of_bytes, user_fits, user_len, user_of_bytes,
};
use crate::model::StoreView;
use crate::records::{Error, Event, EventView, Ticket, User, UserView};
use crate::storage::{
    counter_get, counter_set, counter_value, open_structures, table_entries, table_get,
    table_insert, table_list, table_remove, Counter, Table, RECORD_BOUND,
};
use crate::text::{counter_message, counter_text};

verus! {

/// The durable state of the service.
pub struct Store {
    counter: Counter,
    events: Table,
    users: Table,
    tickets: Table,
}

/// Whether every entry holds the bytes of an event that fits.
pub open spec fn events_sound(entries: Map<u64, Seq<u8>>) -> bool {
    forall|key: u64| #[trigger]
        entries.contains_key(key) ==> (event_of_bytes(entries[key]) matches Some(event)
            && event_fits(event))
}

/// Whether every entry holds the bytes of a user that fits.
pub open spec fn users_sound(entries: Map<u64, Seq<u8>>) -> bool {
    forall|key: u64| #[trigger]
        entries.contains_key(key) ==> (user_of_bytes(entries[key]) matches Some(user) && user_fits(
            user,
        ))
}

/// Whether every entry holds the bytes of a ticket.
pub open spec fn tickets_sound(entries: Map<u64, Seq<u8>>) -> bool {
    forall|key: u64| #[trigger]
        entries.contains_key(key) ==> ticket_of_bytes(entries[key]) is Some
}

/// The events that the entries hold.
pub open spec fn events_of(entries: Map<u64, Seq<u8>>) -> Map<u64, EventView> {
    Map::new(
        |key: u64| entries.contains_key(key),
        |key: u64| event_of_bytes(entries[key]).unwrap(),
    )
}

/// The users that the entries hold.
pub open spec fn users_of(entries: Map<u64, Seq<u8>>) -> Map<u64, UserView> {
    Map::new(|key: u64| entries.contains_key(key), |key: u64| user_of_bytes(entries[key]).unwrap())
}

/// The tickets that the entries hold.
pub open spec fn tickets_of(entries: Map<u64, Seq<u8>>) -> Map<u64, Ticket> {
    Map::new(
        |key: u64| entries.contains_key(key),
        |key: u64| ticket_of_bytes(entries[key]).unwrap(),
    )
}

/// Whether the keys are those of the map, in ascending order.
pub open spec fn ascending_keys<V>(map: Map<u64, V>, keys: Seq<u64>) -> bool {
    &&& forall|i: int, j: int| 0 <= i < j < keys.len() ==> keys[i] < keys[j]
    &&& forall|i: int| 0 <= i < keys.len() ==> map.contains_key(#[trigger] keys[i])
    &&& forall|key: u64| #[trigger] map.contains_key(key) ==> keys.contains(key)
}

impl View for Store {
    type V = StoreView;

    closed spec fn view(&self) -> StoreView {
        StoreView {
            counter: counter_value(self.counter),
            events: events_of(table_entries(self.events)),
            users: users_of(table_entries(self.users)),
            tickets: tickets_of(table_entries(self.tickets)),
        }
    }
}

fn check_events(table: &Table) -> (ok: bool)
    ensures
        ok == events_sound(table_entries(*table)),
{
    let entries = table_list(table);
    let mut i: usize = 0;
    while i < entries.len()
        invariant
            i <= entries.len(),
            forall|j: int|
                0 <= j < i ==> (event_of_bytes((#[trigger] entries@[j]).1@) matches Some(event)
                    && event_fits(event)),
            forall|j: int|
                0 <= j < entries@.len() ==> table_entries(*table).contains_key(
                    (#[trigger] entries@[j]).0,
                ) && table_entries(*table)[entries@[j].0] == entries@[j].1@,
        decreases entries.len() - i,
    {
        let fits = match decode_event(entries[i].1.as_slice()) {
            Some(event) => event_len(&event) <= RECORD_BOUND as u128,
            None => false,
        };
        if !fits {
            assert(table_entries(*table).contains_key(entries@[i as int].0));
            return false;
        }
        i += 1;
    }
    true
}

fn check_users(table: &Table) -> (ok: bool)
    ensures
        ok == users_sound(table_entries(*table)),
{
    let entries = table_list(table);
    let mut i: usize = 0;
    while i < entries.len()
        invariant
            i <= entries.len(),
            forall|j: int|
                0 <= j < i ==> (user_of_bytes((#[trigger] entries@[j]).1@) matches Some(user)
                    && user_fits(user)),
            forall|j: int|
                0 <= j < entries@.len() ==> table_entries(*table).contains_key(
                    (#[trigger] entries@[j]).0,
                ) && table_entries(*table)[entries@[j].0] == entries@[j].1@,
        decreases entries.len() - i,
    {
        let fits = match decode_user(entries[i].1.as_slice()) {
            Some(user) => user_len(&user) <= RECORD_BOUND as u128,
            None => false,
        };
        if !fits {
            assert(table_entries(*table).contains_key(entries@[i as int].0));
            return false;
        }
        i += 1;
    }
    true
}

fn check_tickets(table: &Table) -> (ok: bool)
    ensures
        ok == tickets_sound(table_entries(*table)),
{
    let entries = table_list(table);
    let mut i: usize = 0;
    while i < entries.len()
        invariant
            i <= entries.len(),
            forall|j: int| 0 <= j < i ==> ticket_of_bytes((#[trigger] entries@[j]).1@) is Some,
            forall|j: int|
                0 <= j < entries@.len() ==> table_entries(*table).contains_key(
                    (#[trigger] entries@[j]).0,
                ) && table_entries(*table)[entries@[j].0] == entries@[j].1@,
        decreases entries.len() - i,
    {
        if decode_ticket(entries[i].1.as_slice()).is_none() {
            assert(table_entries(*table).contains_key(entries@[i as int].0));
            return false;
        }
        i += 1;
    }
    true
}

impl Store {
    /// Whether every stored entry is a record of its table's kind that fits.
    /// Every operation asks for this and keeps it.
    pub closed spec fn wf(&self) -> bool {
        &&& events_sound(table_entries(self.events))
        &&& users_sound(table_entries(self.users))
        &&& tickets_sound(table_entries(self.tickets))
    }

    /// In a well-formed store every event and every user fits.
    pub proof fn lemma_sound(&self)
        requires
            self.wf(),
        ensures
            self@.sound(),
    {
    }

    /// Makes a store of a counter and three tables, if the counter could be
    /// opened and every entry of the tables is a record of its kind that fits.
    pub fn assemble(counter: Option<Counter>, events: Table, users: Table, tickets: Table) -> (r:
        Option<Store>)
        ensures
            r is Some <==> counter is Some && events_sound(table_entries(events)) && users_sound(
                table_entries(users),
            ) && tickets_sound(table_entries(tickets)),
            r matches Some(store) ==> store.wf() && store@ == (StoreView {
                counter: counter_value(counter.unwrap()),
                events: events_of(table_entries(events)),
                users: users_of(table_entries(users)),
                tickets: tickets_of(table_entries(tickets)),
            }),
    {
        match counter {
            Some(counter) => {
                if check_events(&events) && check_users(&users) && check_tickets(&tickets) {
                    Some(Store { counter, events, users, tickets })
                } else {
                    None
                }
            },
            None => None,
        }
    }

    /// Opens the store in the default memory: the counter in the first
    /// virtual memory, then the events, the users and the tickets. What it
    /// holds is what the memory held; a memory that was never written gives
    /// an empty store. `None` where the counter cannot be opened or an entry
    /// is no record that fits.
    pub fn open() -> (r: Option<Store>)
        ensures
            r matches Some(store) ==> store.wf(),
    {
        let (counter, events, users, tickets) = open_structures(0, 0, 1, 2, 3);
        Store::assemble(counter, events, users, tickets)
    }
}

/// What an allocation answers once the counter was asked to hold the next
/// identifier: the identifier where the counter took it, else the failure.
pub fn allocation_outcome(next: u64, committed: Result<u64, ValueError>) -> (r: Result<u64, Error>)
    ensures
        committed is Ok ==> r == Ok::<u64, Error>(next),
        committed is Err ==> (r matches Err(Error::NotCreated { msg }) && msg@ == counter_text()),
{
    match committed {
        Ok(_) => Ok(next),
        Err(_) => Err(Error::NotCreated { msg: counter_message() }),
    }
}

/// Issues the next identifier: one more than the last. Fails, and issues
/// nothing, where the counter does not take the new value or has no value
/// left to take.
pub fn increment_id_counter(store: &mut Store) -> (r: Result<u64, Error>)
    requires
        old(store).wf(),
    ensures
        final(store).wf(),
        match r {
            Ok(id) => id == old(store)@.counter + 1 && final(store)@ == old(store)@.counting(id),
            Err(error) => error matches Error::NotCreated { msg } && msg@ == counter_text()
                && final(store)@ == old(store)@,
        },
        old(store)@.counter == u64::MAX ==> r is Err,
{
    let current = counter_get(&store.counter);
    if current == u64::MAX {
        return Err(Error::NotCreated { msg: counter_message() });
    }
    let committed = counter_set(&mut store.counter, current + 1);
    allocation_outcome(current + 1, committed)
}

/// The last identifier that was issued; zero where none was.
pub fn last_id(store: &Store) -> (id: u64)
    ensures
        id == store@.counter,
{
    counter_get(&store.counter)
}

/// Looks an event up by its key.
pub fn _get_event(store: &Store, id: &u64) -> (r: Option<Event>)
    requires
        store.wf(),
    ensures
        r is Some <==> store@.events.contains_key(*id),
        r matches Some(event) ==> event@ == store@.events[*id] && event_fits(event@),
{
    match table_get(&store.events, *id) {
        Some(bytes) => decode_event(bytes.as_slice()),
        None => None,
    }
}

/// Looks a user up by its key.
pub fn _get_user(store: &Store, id: &u64) -> (r: Option<User>)
    requires
        store.wf(),
    ensures
        r is Some <==> store@.users.contains_key(*id),
        r matches Some(user) ==> user@ == store@.users[*id] && user_fits(user@),
{
    match table_get(&store.users, *id) {
        Some(bytes) => decode_user(bytes.as_slice()),
        None => None,
    }
}

/// Looks a ticket up by its key.
pub fn _get_ticket(store: &Store, id: &u64) -> (r: Option<Ticket>)
    requires
        store.wf(),
    ensures
        r == store@.tickets.get(*id),
{
    match table_get(&store.tickets, *id) {
        Some(bytes) => decode_ticket(bytes.as_slice()),
        None => None,
    }
}

/// Stores an event under a key, in place of what was there.
pub fn put_event(store: &mut Store, key: u64, event: &Event)
    requires
        old(store).wf(),
        event_fits(event@),
    ensures
        final(store).wf(),
        final(store)@ == old(store)@.put_event(key, event@),
{
    let bytes = encode_event(event);
    proof {
        lemma_event_round_trip(event@);
    }
    table_insert(&mut store.events, key, &bytes);
    proof {
        assert(store@.events =~= old(store)@.events.insert(key, event@));
    }
}

/// Stores a user under a key, in place of what was there.
pub fn put_user(store: &mut Store, key: u64, user: &User)
    requires
        old(store).wf(),
        user_fits(user@),
    ensures
        final(store).wf(),
        final(store)@ == old(store)@.put_user(key, user@),
{
    let bytes = encode_user(user);
    proof {
        lemma_user_round_trip(user@);
    }
    table_insert(&mut store.users, key, &bytes);
    proof {
        assert(store@.users =~= old(store)@.users.insert(key, user@));
    }
}

/// Stores a ticket under a key, in place of what was there.
pub fn put_ticket(store: &mut Store, key: u64, ticket: &Ticket)
    requires
        old(store).wf(),
    ensures
        final(store).wf(),
        final(store)@ == old(store)@.put_ticket(key, *ticket),
{
    let bytes = encode_ticket(ticket);
    proof {
        lemma_ticket_round_trip(*ticket);
    }
    table_insert(&mut store.tickets, key, &bytes);
    proof {
        assert(store@.tickets =~= old(store)@.tickets.insert(key, *ticket));
    }
}

/// Takes the event under a key out of the store, if there is one.
pub fn remove_event(store: &mut Store, key: u64)
    requires
        old(store).wf(),
    ensures
        final(store).wf(),
        final(store)@ == old(store)@.drop_event(key),
{
    table_remove(&mut store.events, key);
    proof {
        assert(store@.events =~= old(store)@.events.remove(key));
    }
}

/// Takes the user under a key out of the store, if there is one.
pub fn remove_user(store: &mut Store, key: u64)
    requires
        old(store).wf(),
    ensures
        final(store).wf(),
        final(store)@ == old(store)@.drop_user(key),
{
    table_remove(&mut store.users, key);
    proof {
        assert(store@.users =~= old(store)@.users.remove(key));
    }
}

/// Takes the ticket under a key out of the store, if there is one.
pub fn remove_ticket(store: &mut Store, key: u64)
    requires
        old(store).wf(),
    ensures
        final(store).wf(),
        final(store)@ == old(store)@.drop_ticket(key),
{
    table_remove(&mut store.tickets, key);
    proof {
        assert(store@.tickets =~= old(store)@.tickets.remove(key));
    }
}

/// All events, in ascending order of their keys.
pub fn get_all_events(store: &Store) -> (events: Vec<Event>)
    requires
        store.wf(),
    ensures
        exists|keys: Seq<u64>|
            ascending_keys(store@.events, keys) && events@.len() == keys.len() && forall|i: int|
                0 <= i < keys.len() ==> (#[trigger] events@[i])@ == store@.events[keys[i]],
{
    let entries = table_list(&store.events);
    let ghost keys = Seq::new(entries@.len(), |i: int| entries@[i].0);
    let mut events: Vec<Event> = Vec::new();
    let mut i: usize = 0;
    while i < entries.len()
        invariant
            i <= entries.len(),
            store.wf(),
            events@.len() == i,
            forall|j: int|
                0 <= j < entries@.len() ==> table_entries(store.events).contains_key(
                    (#[trigger] entries@[j]).0,
                ) && table_entries(store.events)[entries@[j].0] == entries@[j].1@,
            forall|j: int| 0 <= j < i ==> (#[trigger] events@[j])@ == store@.events[entries@[j].0],
        decreases entries.len() - i,
    {
        assert(table_entries(store.events).contains_key(entries@[i as int].0));
        match decode_event(entries[i].1.as_slice()) {
            Some(event) => {
                events.push(event);
            },
            None => {
                assert(false);
            },
        }
        i += 1;
    }
    proof {
        assert forall|key: u64| #[trigger] store@.events.contains_key(key) implies keys.contains(
            key,
        ) by {
            let j = choose|j: int| 0 <= j < entries@.len() && (#[trigger] entries@[j]).0 == key;
            assert(keys[j] == key);
        }
        assert(ascending_keys(store@.events, keys));
    }
    events
}

} // verus!
