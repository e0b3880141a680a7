//! The records that a list of identifiers refers to: the attendees of an
//! event, the tickets of an event, the tickets of a user.
use vstd::prelude::*;
use crate::records::{Error, Ticket, User, UserView};
use crate::store::{_get_event, _get_ticket, _get_user, Store};
use crate::text::RecordKind;

verus! {

/// Whether the identifier at the place is the first of the list that the
/// table has no record for.
pub open spec fn first_unresolved<V>(ids: Seq<u64>, table: Map<u64, V>, at: int) -> bool {
    &&& 0 <= at < ids.len()
    &&& !table.contains_key(ids[at])
    &&& forall|j: int| 0 <= j < at ==> table.contains_key(#[trigger] ids[j])
}

/// What looking up the users of a list answers: the users in the order of
/// the list, or that the first identifier without a user is missing.
pub open spec fn users_answer(
    ids: Seq<u64>,
    table: Map<u64, UserView>,
    r: Result<Vec<User>, Error>,
) -> bool {
    match r {
        Ok(users) => users@.len() == ids.len() && forall|i: int|
            0 <= i < ids.len() ==> table.contains_key(#[trigger] ids[i]) && users@[i]@
                == table[ids[i]],
        Err(error) => exists|at: int|
            first_unresolved(ids, table, at) && error.is_missing(RecordKind::User, ids[at]),
    }
}

/// What looking up the tickets of a list answers: the tickets in the order
/// of the list, or that the first identifier without a ticket is missing.
pub open spec fn tickets_answer(
    ids: Seq<u64>,
    table: Map<u64, Ticket>,
    r: Result<Vec<Ticket>, Error>,
) -> bool {
    match r {
        Ok(tickets) => tickets@.len() == ids.len() && forall|i: int|
            0 <= i < ids.len() ==> table.contains_key(#[trigger] ids[i]) && tickets@[i]
                == table[ids[i]],
        Err(error) => exists|at: int|
            first_unresolved(ids, table, at) && error.is_missing(RecordKind::Ticket, ids[at]),
    }
}

/// Looks up the user of each identifier of a list.
pub fn resolve_users(store: &Store, ids: &Vec<u64>) -> (r: Result<Vec<User>, Error>)
    requires
        store.wf(),
    ensures
        users_answer(ids@, store@.users, r),
{
    let mut users: Vec<User> = Vec::new();
    let mut i: usize = 0;
    while i < ids.len()
        invariant
            i <= ids.len(),
            store.wf(),
            users@.len() == i,
            forall|j: int|
                0 <= j < i ==> store@.users.contains_key(#[trigger] ids@[j]) && users@[j]@
                    == store@.users[ids@[j]],
        decreases ids.len() - i,
    {
        match _get_user(store, &ids[i]) {
            Some(user) => {
                users.push(user);
            },
            None => {
                assert(first_unresolved(ids@, store@.users, i as int));
                return Err(Error::missing(RecordKind::User, ids[i]));
            },
        }
        i += 1;
    }
    Ok(users)
}

/// Looks up the ticket of each identifier of a list.
pub fn resolve_tickets(store: &Store, ids: &Vec<u64>) -> (r: Result<Vec<Ticket>, Error>)
    requires
        store.wf(),
    ensures
        tickets_answer(ids@, store@.tickets, r),
{
    let mut tickets: Vec<Ticket> = Vec::new();
    let mut i: usize = 0;
    while i < ids.len()
        invariant
            i <= ids.len(),
            store.wf(),
            tickets@.len() == i,
            forall|j: int|
                0 <= j < i ==> store@.tickets.contains_key(#[trigger] ids@[j]) && tickets@[j]
                    == store@.tickets[ids@[j]],
        decreases ids.len() - i,
    {
        match _get_ticket(store, &ids[i]) {
            Some(ticket) => {
                tickets.push(ticket);
            },
            None => {
                assert(first_unresolved(ids@, store@.tickets, i as int));
                return Err(Error::missing(RecordKind::Ticket, ids[i]));
            },
        }
        i += 1;
    }
    Ok(tickets)
}

/// The users who attend the event, in the order in which they were added.
pub fn get_event_attendees(store: &Store, id: u64) -> (r: Result<Vec<User>, Error>)
    requires
        store.wf(),
    ensures
        store@.events.contains_key(id) ==> users_answer(
            store@.events[id].attendee_ids,
            store@.users,
            r,
        ),
        !store@.events.contains_key(id) ==> (r matches Err(error) && error.is_missing(
            RecordKind::Event,
            id,
        )),
{
    let event = match _get_event(store, &id) {
        Some(event) => event,
        None => { return Err(Error::missing(RecordKind::Event, id)); },
    };
    resolve_users(store, &event.attendee_ids)
}

/// The tickets of the user, in the order in which they were added.
pub fn get_user_tickets(store: &Store, id: u64) -> (r: Result<Vec<Ticket>, Error>)
    requires
        store.wf(),
    ensures
        store@.users.contains_key(id) ==> tickets_answer(
            store@.users[id].ticket_ids,
            store@.tickets,
            r,
        ),
        !store@.users.contains_key(id) ==> (r matches Err(error) && error.is_missing(
            RecordKind::User,
            id,
        )),
{
    let user = match _get_user(store, &id) {
        Some(user) => user,
        None => { return Err(Error::missing(RecordKind::User, id)); },
    };
    resolve_tickets(store, &user.ticket_ids)
}

/// The tickets of the event, in the order in which they were added.
pub fn get_event_tickets(store: &Store, id: u64) -> (r: Result<Vec<Ticket>, Error>)
    requires
        store.wf(),
    ensures
        store@.events.contains_key(id) ==> tickets_answer(
            store@.events[id].ticket_ids,
            store@.tickets,
            r,
        ),
        !store@.events.contains_key(id) ==> (r matches Err(error) && error.is_missing(
            RecordKind::Event,
            id,
        )),
{
    let event = match _get_event(store, &id) {
        Some(event) => event,
        None => { return Err(Error::missing(RecordKind::Event, id)); },
    };
    resolve_tickets(store, &event.ticket_ids)
}

} // verus!
