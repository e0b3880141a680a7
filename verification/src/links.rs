//! The lists that tie events, users and tickets together. Each operation
//! reads one record, changes one list in it and writes it back.
use vstd::prelude::*;
use crate::layout::{event_fits, event_len, user_fits, user_len};
use crate::model::{
    differs_from, event_with_attendee, event_with_ticket, user_with_ticket, with_id, without_id,
};
use crate::records::Error;
use crate::storage::RECORD_BOUND;
use crate::store::{_get_event, _get_user, put_event, put_user, Store};
use crate::text::RecordKind;

verus! {

/// Whether the identifier is in the list.
pub fn has_id(list: &Vec<u64>, id: u64) -> (found: bool)
    ensures
        found == list@.contains(id),
{
    let mut i: usize = 0;
    while i < list.len()
        invariant
            i <= list.len(),
            forall|j: int| 0 <= j < i ==> list@[j] != id,
        decreases list.len() - i,
    {
        if list[i] == id {
            return true;
        }
        i += 1;
    }
    false
}

/// Puts the identifier at the end of the list unless it is in it; says
/// whether the list changed.
pub fn insert_id(list: &mut Vec<u64>, id: u64) -> (added: bool)
    ensures
        final(list)@ == with_id(old(list)@, id),
        added == !old(list)@.contains(id),
{
    if has_id(list, id) {
        false
    } else {
        list.push(id);
        true
    }
}

/// The list without any occurrence of the identifier.
pub fn remove_id(list: &Vec<u64>, id: u64) -> (kept: Vec<u64>)
    ensures
        kept@ == without_id(list@, id),
{
    let mut kept: Vec<u64> = Vec::new();
    let mut i: usize = 0;
    proof {
        reveal(Seq::filter);
    }
    assert(list@.take(0) =~= Seq::<u64>::empty());
    while i < list.len()
        invariant
            i <= list.len(),
            kept@ == without_id(list@.take(i as int), id),
        decreases list.len() - i,
    {
        let current = list[i];
        proof {
            reveal(Seq::filter);
            let next = list@.take(i + 1);
            assert(next.drop_last() =~= list@.take(i as int));
            assert(next.last() == current);
        }
        if current != id {
            kept.push(current);
        }
        i += 1;
    }
    assert(list@.take(i as int) =~= list@);
    kept
}

/// Whether the event, with the user among its attendees, is small enough to
/// be stored; true where the event does not exist.
pub fn attendee_fits(store: &Store, event_id: u64, user_id: u64, now: u64) -> (fits: bool)
    requires
        store.wf(),
    ensures
        fits == (store@.events.contains_key(event_id) ==> event_fits(
            event_with_attendee(store@.events[event_id], user_id, now),
        )),
{
    match _get_event(store, &event_id) {
        Some(mut event) => {
            if insert_id(&mut event.attendee_ids, user_id) {
                event.updated_at = Some(now);
            }
            event_len(&event) <= RECORD_BOUND as u128
        },
        None => true,
    }
}

/// Whether the event, with the ticket among its tickets, is small enough to
/// be stored; true where the event does not exist.
pub fn event_ticket_fits(store: &Store, event_id: u64, ticket_id: u64, now: u64) -> (fits: bool)
    requires
        store.wf(),
    ensures
        fits == (store@.events.contains_key(event_id) ==> event_fits(
            event_with_ticket(store@.events[event_id], ticket_id, now),
        )),
{
    match _get_event(store, &event_id) {
        Some(mut event) => {
            if insert_id(&mut event.ticket_ids, ticket_id) {
                event.updated_at = Some(now);
            }
            event_len(&event) <= RECORD_BOUND as u128
        },
        None => true,
    }
}

/// Whether the user, with the ticket among its tickets, is small enough to
/// be stored; true where the user does not exist.
pub fn user_ticket_fits(store: &Store, user_id: u64, ticket_id: u64, now: u64) -> (fits: bool)
    requires
        store.wf(),
    ensures
        fits == (store@.users.contains_key(user_id) ==> user_fits(
            user_with_ticket(store@.users[user_id], ticket_id, now),
        )),
{
    match _get_user(store, &user_id) {
        Some(mut user) => {
            if insert_id(&mut user.ticket_ids, ticket_id) {
                user.updated_at = Some(now);
            }
            user_len(&user) <= RECORD_BOUND as u128
        },
        None => true,
    }
}

/// Adds the user to the attendees of the event, unless it is among them.
pub fn add_event_attendee(store: &mut Store, event_id: u64, user_id: u64, now: u64) -> (r: Result<
    (),
    Error,
>)
    requires
        old(store).wf(),
        old(store)@.events.contains_key(event_id) ==> event_fits(
            event_with_attendee(old(store)@.events[event_id], user_id, now),
        ),
    ensures
        final(store).wf(),
        final(store)@ == old(store)@.with_attendee(event_id, user_id, now),
        match r {
            Ok(_) => old(store)@.events.contains_key(event_id),
            Err(error) => !old(store)@.events.contains_key(event_id) && error.is_missing(
                RecordKind::Event,
                event_id,
            ),
        },
{
    let mut event = match _get_event(store, &event_id) {
        Some(event) => event,
        None => { return Err(Error::missing(RecordKind::Event, event_id)); },
    };
    if insert_id(&mut event.attendee_ids, user_id) {
        event.updated_at = Some(now);
        put_event(store, event_id, &event);
    } else {
        assert(store@.events.insert(event_id, store@.events[event_id]) =~= store@.events);
    }
    Ok(())
}

/// Adds the ticket to the tickets of the event, unless it is among them.
pub fn add_event_ticket(store: &mut Store, event_id: u64, ticket_id: u64, now: u64) -> (r: Result<
    (),
    Error,
>)
    requires
        old(store).wf(),
        old(store)@.events.contains_key(event_id) ==> event_fits(
            event_with_ticket(old(store)@.events[event_id], ticket_id, now),
        ),
    ensures
        final(store).wf(),
        final(store)@ == old(store)@.with_event_ticket(event_id, ticket_id, now),
        match r {
            Ok(_) => old(store)@.events.contains_key(event_id),
            Err(error) => !old(store)@.events.contains_key(event_id) && error.is_missing(
                RecordKind::Event,
                event_id,
            ),
        },
{
    let mut event = match _get_event(store, &event_id) {
        Some(event) => event,
        None => { return Err(Error::missing(RecordKind::Event, event_id)); },
    };
    if insert_id(&mut event.ticket_ids, ticket_id) {
        event.updated_at = Some(now);
        put_event(store, event_id, &event);
    } else {
        assert(store@.events.insert(event_id, store@.events[event_id]) =~= store@.events);
    }
    Ok(())
}

/// Adds the ticket to the tickets of the user, unless it is among them.
pub fn add_user_ticket(store: &mut Store, user_id: u64, ticket_id: u64, now: u64) -> (r: Result<
    (),
    Error,
>)
    requires
        old(store).wf(),
        old(store)@.users.contains_key(user_id) ==> user_fits(
            user_with_ticket(old(store)@.users[user_id], ticket_id, now),
        ),
    ensures
        final(store).wf(),
        final(store)@ == old(store)@.with_user_ticket(user_id, ticket_id, now),
        match r {
            Ok(_) => old(store)@.users.contains_key(user_id),
            Err(error) => !old(store)@.users.contains_key(user_id) && error.is_missing(
                RecordKind::User,
                user_id,
            ),
        },
{
    let mut user = match _get_user(store, &user_id) {
        Some(user) => user,
        None => { return Err(Error::missing(RecordKind::User, user_id)); },
    };
    if insert_id(&mut user.ticket_ids, ticket_id) {
        user.updated_at = Some(now);
        put_user(store, user_id, &user);
    } else {
        assert(store@.users.insert(user_id, store@.users[user_id]) =~= store@.users);
    }
    Ok(())
}

/// Takes every occurrence of the ticket out of the tickets of the user.
pub fn remove_user_ticket(store: &mut Store, user_id: u64, ticket_id: u64, now: u64) -> (r: Result<
    (),
    Error,
>)
    requires
        old(store).wf(),
    ensures
        final(store).wf(),
        final(store)@ == old(store)@.without_user_ticket(user_id, ticket_id, now),
        match r {
            Ok(_) => old(store)@.users.contains_key(user_id),
            Err(error) => !old(store)@.users.contains_key(user_id) && error.is_missing(
                RecordKind::User,
                user_id,
            ),
        },
{
    let mut user = match _get_user(store, &user_id) {
        Some(user) => user,
        None => { return Err(Error::missing(RecordKind::User, user_id)); },
    };
    let kept = remove_id(&user.ticket_ids, ticket_id);
    proof {
        user.ticket_ids@.lemma_filter_len(differs_from(ticket_id));
    }
    user.ticket_ids = kept;
    user.updated_at = Some(now);
    put_user(store, user_id, &user);
    Ok(())
}

/// Takes every occurrence of the ticket out of the tickets of the event.
pub fn remove_event_ticket(store: &mut Store, event_id: u64, ticket_id: u64, now: u64) -> (r:
    Result<(), Error>)
    requires
        old(store).wf(),
    ensures
        final(store).wf(),
        final(store)@ == old(store)@.without_event_ticket(event_id, ticket_id, now),
        match r {
            Ok(_) => old(store)@.events.contains_key(event_id),
            Err(error) => !old(store)@.events.contains_key(event_id) && error.is_missing(
                RecordKind::Event,
                event_id,
            ),
        },
{
    let mut event = match _get_event(store, &event_id) {
        Some(event) => event,
        None => { return Err(Error::missing(RecordKind::Event, event_id)); },
    };
    let kept = remove_id(&event.ticket_ids, ticket_id);
    proof {
        event.ticket_ids@.lemma_filter_len(differs_from(ticket_id));
    }
    event.ticket_ids = kept;
    event.updated_at = Some(now);
    put_event(store, event_id, &event);
    Ok(())
}

} // verus!
