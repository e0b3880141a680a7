//! The operations of the service on events, users and tickets.
use vstd::prelude::*;
use crate::layout::{event_fits, event_len, user_fits, user_len};
use crate::model::{fresh_event, fresh_user, revised_event, revised_user};
use crate::records::{Error, Event, EventPayload, User, UserPayload};
use crate::storage::RECORD_BOUND;
use crate::store::{
    _get_event, _get_user, increment_id_counter, put_event, put_user, remove_event, remove_user,
    Store,
};
use crate::text::{counter_text, deleted_message, deleted_text, RecordKind};

verus! {

/// The event under the identifier.
pub fn get_event(store: &Store, id: u64) -> (r: Result<Event, Error>)
    requires
        store.wf(),
    ensures
        match r {
            Ok(event) => store@.events.contains_key(id) && event@ == store@.events[id],
            Err(error) => !store@.events.contains_key(id) && error.is_missing(
                RecordKind::Event,
                id,
            ),
        },
{
    match _get_event(store, &id) {
        Some(event) => Ok(event),
        None => Err(Error::missing(RecordKind::Event, id)),
    }
}

/// Whether an event made of the payload is small enough to be stored.
pub fn event_payload_fits(payload: &EventPayload) -> (fits: bool)
    ensures
        fits == forall|id: u64, now: u64| event_fits(#[trigger] fresh_event(id, payload@, now)),
{
    let probe = Event {
        id: 0,
        name: payload.name.clone(),
        description: payload.description.clone(),
        date: payload.date.clone(),
        start_time: payload.start_time.clone(),
        location: payload.location.clone(),
        attendee_ids: Vec::new(),
        ticket_ids: Vec::new(),
        created_at: 0,
        updated_at: None,
    };
    let fits = event_len(&probe) <= RECORD_BOUND as u128;
    proof {
        assert(probe@ == fresh_event(0, payload@, 0));
        if !fits {
            assert(!event_fits(fresh_event(0, payload@, 0)));
        }
    }
    fits
}

/// Stores a new event under the identifier.
pub fn enter_event(store: &mut Store, id: u64, payload: EventPayload, now: u64) -> (event: Event)
    requires
        old(store).wf(),
        event_fits(fresh_event(id, payload@, now)),
    ensures
        final(store).wf(),
        event@ == fresh_event(id, payload@, now),
        final(store)@ == old(store)@.put_event(id, event@),
{
    let event = Event {
        id,
        name: payload.name,
        description: payload.description,
        date: payload.date,
        start_time: payload.start_time,
        location: payload.location,
        attendee_ids: Vec::new(),
        ticket_ids: Vec::new(),
        created_at: now,
        updated_at: None,
    };
    put_event(store, id, &event);
    event
}

/// Creates an event: issues an identifier and stores the event under it.
pub fn create_event(store: &mut Store, payload: EventPayload, now: u64) -> (r: Result<
    Event,
    Error,
>)
    requires
        old(store).wf(),
        event_fits(fresh_event(0, payload@, now)),
    ensures
        final(store).wf(),
        match r {
            Ok(event) => old(store)@.counter < u64::MAX && event@ == fresh_event(
                old(store)@.next_id(),
                payload@,
                now,
            ) && final(store)@ == old(store)@.entered_event(payload@, now),
            Err(error) => error matches Error::NotCreated { msg } && msg@ == counter_text()
                && final(store)@ == old(store)@,
        },
        old(store)@.counter == u64::MAX ==> r is Err,
{
    let id = match increment_id_counter(store) {
        Ok(id) => id,
        Err(error) => { return Err(error); },
    };
    Ok(enter_event(store, id, payload, now))
}

/// Whether the event under the identifier, once the payload is written over
/// it, is small enough to be stored.
pub fn event_update_fits(store: &Store, id: u64, payload: &EventPayload, now: u64) -> (fits: bool)
    requires
        store.wf(),
    ensures
        fits == (store@.events.contains_key(id) ==> event_fits(
            revised_event(store@.events[id], payload@, now),
        )),
{
    match _get_event(store, &id) {
        Some(event) => {
            let probe = Event {
                id: event.id,
                name: payload.name.clone(),
                description: payload.description.clone(),
                date: payload.date.clone(),
                start_time: payload.start_time.clone(),
                location: payload.location.clone(),
                attendee_ids: event.attendee_ids,
                ticket_ids: event.ticket_ids,
                created_at: event.created_at,
                updated_at: Some(now),
            };
            assert(probe@ == revised_event(store@.events[id], payload@, now));
            event_len(&probe) <= RECORD_BOUND as u128
        },
        None => true,
    }
}

/// Writes the payload over the event under the identifier.
pub fn update_event(store: &mut Store, id: u64, payload: EventPayload, now: u64) -> (r: Result<
    Event,
    Error,
>)
    requires
        old(store).wf(),
        old(store)@.events.contains_key(id) ==> event_fits(
            revised_event(old(store)@.events[id], payload@, now),
        ),
    ensures
        final(store).wf(),
        match r {
            Ok(event) => old(store)@.events.contains_key(id) && event@ == revised_event(
                old(store)@.events[id],
                payload@,
                now,
            ) && final(store)@ == old(store)@.put_event(id, event@),
            Err(error) => !old(store)@.events.contains_key(id) && error.is_missing(
                RecordKind::Event,
                id,
            ) && final(store)@ == old(store)@,
        },
{
    let mut event = match _get_event(store, &id) {
        Some(event) => event,
        None => { return Err(Error::missing(RecordKind::Event, id)); },
    };
    event.name = payload.name;
    event.description = payload.description;
    event.date = payload.date;
    event.start_time = payload.start_time;
    event.location = payload.location;
    event.updated_at = Some(now);
    put_event(store, id, &event);
    Ok(event)
}

/// Deletes the event under the identifier. Tickets of the event stay as they
/// are.
pub fn delete_event(store: &mut Store, id: u64) -> (r: Result<String, Error>)
    requires
        old(store).wf(),
    ensures
        final(store).wf(),
        match r {
            Ok(msg) => old(store)@.events.contains_key(id) && msg@ == deleted_text(
                RecordKind::Event,
                id,
            ) && final(store)@ == old(store)@.drop_event(id),
            Err(error) => !old(store)@.events.contains_key(id) && error.is_missing(
                RecordKind::Event,
                id,
            ) && final(store)@ == old(store)@,
        },
{
    if _get_event(store, &id).is_none() {
        return Err(Error::missing(RecordKind::Event, id));
    }
    remove_event(store, id);
    Ok(deleted_message(RecordKind::Event, id))
}

/// The user under the identifier.
pub fn get_user(store: &Store, id: u64) -> (r: Result<User, Error>)
    requires
        store.wf(),
    ensures
        match r {
            Ok(user) => store@.users.contains_key(id) && user@ == store@.users[id],
            Err(error) => !store@.users.contains_key(id) && error.is_missing(RecordKind::User, id),
        },
{
    match _get_user(store, &id) {
        Some(user) => Ok(user),
        None => Err(Error::missing(RecordKind::User, id)),
    }
}

/// Whether a user made of the payload is small enough to be stored.
pub fn user_payload_fits(payload: &UserPayload) -> (fits: bool)
    ensures
        fits == forall|id: u64, now: u64| user_fits(#[trigger] fresh_user(id, payload@, now)),
{
    let probe = User {
        id: 0,
        name: payload.name.clone(),
        email: payload.email.clone(),
        password: payload.password.clone(),
        event_ids: Vec::new(),
        ticket_ids: Vec::new(),
        created_at: 0,
        updated_at: None,
    };
    let fits = user_len(&probe) <= RECORD_BOUND as u128;
    proof {
        assert(probe@ == fresh_user(0, payload@, 0));
        if !fits {
            assert(!user_fits(fresh_user(0, payload@, 0)));
        }
    }
    fits
}

/// Stores a new user under the identifier.
pub fn enter_user(store: &mut Store, id: u64, payload: UserPayload, now: u64) -> (user: User)
    requires
        old(store).wf(),
        user_fits(fresh_user(id, payload@, now)),
    ensures
        final(store).wf(),
        user@ == fresh_user(id, payload@, now),
        final(store)@ == old(store)@.put_user(id, user@),
{
    let user = User {
        id,
        name: payload.name,
        email: payload.email,
        password: payload.password,
        event_ids: Vec::new(),
        ticket_ids: Vec::new(),
        created_at: now,
        updated_at: None,
    };
    put_user(store, id, &user);
    user
}

/// Creates a user: issues an identifier and stores the user under it.
pub fn create_user(store: &mut Store, payload: UserPayload, now: u64) -> (r: Result<User, Error>)
    requires
        old(store).wf(),
        user_fits(fresh_user(0, payload@, now)),
    ensures
        final(store).wf(),
        match r {
            Ok(user) => old(store)@.counter < u64::MAX && user@ == fresh_user(
                old(store)@.next_id(),
                payload@,
                now,
            ) && final(store)@ == old(store)@.entered_user(payload@, now),
            Err(error) => error matches Error::NotCreated { msg } && msg@ == counter_text()
                && final(store)@ == old(store)@,
        },
        old(store)@.counter == u64::MAX ==> r is Err,
{
    let id = match increment_id_counter(store) {
        Ok(id) => id,
        Err(error) => { return Err(error); },
    };
    Ok(enter_user(store, id, payload, now))
}

/// Whether the user under the identifier, once the payload is written over
/// it, is small enough to be stored.
pub fn user_update_fits(store: &Store, id: u64, payload: &UserPayload, now: u64) -> (fits: bool)
    requires
        store.wf(),
    ensures
        fits == (store@.users.contains_key(id) ==> user_fits(
            revised_user(store@.users[id], payload@, now),
        )),
{
    match _get_user(store, &id) {
        Some(user) => {
            let probe = User {
                id: user.id,
                name: payload.name.clone(),
                email: payload.email.clone(),
                password: payload.password.clone(),
                event_ids: user.event_ids,
                ticket_ids: user.ticket_ids,
                created_at: user.created_at,
                updated_at: Some(now),
            };
            assert(probe@ == revised_user(store@.users[id], payload@, now));
            user_len(&probe) <= RECORD_BOUND as u128
        },
        None => true,
    }
}

/// Writes the payload over the user under the identifier.
pub fn update_user(store: &mut Store, id: u64, payload: UserPayload, now: u64) -> (r: Result<
    User,
    Error,
>)
    requires
        old(store).wf(),
        old(store)@.users.contains_key(id) ==> user_fits(
            revised_user(old(store)@.users[id], payload@, now),
        ),
    ensures
        final(store).wf(),
        match r {
            Ok(user) => old(store)@.users.contains_key(id) && user@ == revised_user(
                old(store)@.users[id],
                payload@,
                now,
            ) && final(store)@ == old(store)@.put_user(id, user@),
            Err(error) => !old(store)@.users.contains_key(id) && error.is_missing(
                RecordKind::User,
                id,
            ) && final(store)@ == old(store)@,
        },
{
    let mut user = match _get_user(store, &id) {
        Some(user) => user,
        None => { return Err(Error::missing(RecordKind::User, id)); },
    };
    user.name = payload.name;
    user.email = payload.email;
    user.password = payload.password;
    user.updated_at = Some(now);
    put_user(store, id, &user);
    Ok(user)
}

/// Deletes the user under the identifier. Tickets of the user stay as they
/// are.
pub fn delete_user(store: &mut Store, id: u64) -> (r: Result<String, Error>)
    requires
        old(store).wf(),
    ensures
        final(store).wf(),
        match r {
            Ok(msg) => old(store)@.users.contains_key(id) && msg@ == deleted_text(
                RecordKind::User,
                id,
            ) && final(store)@ == old(store)@.drop_user(id),
            Err(error) => !old(store)@.users.contains_key(id) && error.is_missing(
                RecordKind::User,
                id,
            ) && final(store)@ == old(store)@,
        },
{
    if _get_user(store, &id).is_none() {
        return Err(Error::missing(RecordKind::User, id));
    }
    remove_user(store, id);
    Ok(deleted_message(RecordKind::User, id))
}

} // verus!
