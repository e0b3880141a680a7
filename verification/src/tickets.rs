//! The operations of the service on tickets. Each one writes several
//! records, one after the other; where a step finds its record missing, the
//! steps before it stay done.
use vstd::prelude::*;
use crate::layout::{event_len, user_len};
use crate::links::{
    add_event_attendee, add_event_ticket, add_user_ticket, insert_id, remove_event_ticket,
    remove_user_ticket,
};
use crate::model::{differs_from, fresh_ticket, revised_ticket, Placement, StoreView};
use crate::records::{AssociationError, Error, Ticket, TicketPayload};
use crate::storage::RECORD_BOUND;
use crate::store::{
    _get_event, _get_ticket, _get_user, increment_id_counter, last_id, put_ticket, remove_ticket,
    Store,
};
use crate::text::{
    attendee_failed_message, attendee_failed_text, deleted_message, deleted_text,
    event_link_failed_message, no_ticket_id_message, no_ticket_id_text, user_link_failed_message,
    user_link_failed_text, RecordKind,
};

verus! {

/// The ticket under the identifier.
pub fn get_ticket(store: &Store, id: u64) -> (r: Result<Ticket, Error>)
    requires
        store.wf(),
    ensures
        match r {
            Ok(ticket) => store@.tickets.contains_key(id) && ticket == store@.tickets[id],
            Err(error) => !store@.tickets.contains_key(id) && error.is_missing(
                RecordKind::Ticket,
                id,
            ),
        },
{
    match _get_ticket(store, &id) {
        Some(ticket) => Ok(ticket),
        None => Err(Error::missing(RecordKind::Ticket, id)),
    }
}

/// What the creation of a ticket under the identifier answers in a store:
/// the ticket where its event and its user exist; else the failure of the
/// first step that found its record missing, with the ticket.
pub open spec fn placement_answer(
    before: StoreView,
    id: u64,
    payload: TicketPayload,
    now: u64,
    r: Result<Ticket, AssociationError>,
) -> bool {
    match before.placement(payload) {
        Placement::Linked => r == Ok::<Ticket, AssociationError>(fresh_ticket(id, payload, now)),
        Placement::NoEvent => r matches Err(AssociationError::Failed { msg, ticket }) && ticket
            == fresh_ticket(id, payload, now) && msg@ == attendee_failed_text(payload.event_id),
        Placement::NoUser => r matches Err(AssociationError::Failed { msg, ticket }) && ticket
            == fresh_ticket(id, payload, now) && msg@ == user_link_failed_text(
            id,
            payload.user_id,
        ),
    }
}

/// Stores a new ticket under the identifier, then lists the user among the
/// event's attendees, the ticket with the user and the ticket with the event.
pub fn place_ticket(store: &mut Store, id: u64, payload: TicketPayload, now: u64) -> (r: Result<
    Ticket,
    AssociationError,
>)
    requires
        old(store).wf(),
        old(store)@.placed(id, payload, now).sound(),
    ensures
        final(store).wf(),
        final(store)@ == old(store)@.placed(id, payload, now),
        placement_answer(old(store)@, id, payload, now, r),
{
    let ticket = Ticket {
        id,
        event_id: payload.event_id,
        user_id: payload.user_id,
        created_at: now,
        updated_at: None,
    };
    put_ticket(store, id, &ticket);
    proof {
        let end = old(store)@.placed(id, payload, now);
        if store@.events.contains_key(payload.event_id) {
            assert(end.events.contains_key(payload.event_id));
        }
    }
    if add_event_attendee(store, payload.event_id, payload.user_id, now).is_err() {
        return Err(
            AssociationError::Failed { msg: attendee_failed_message(payload.event_id), ticket },
        );
    }
    proof {
        let end = old(store)@.placed(id, payload, now);
        if store@.users.contains_key(payload.user_id) {
            assert(end.users.contains_key(payload.user_id));
        }
    }
    if add_user_ticket(store, payload.user_id, id, now).is_err() {
        return Err(
            AssociationError::Failed { msg: user_link_failed_message(id, payload.user_id), ticket },
        );
    }
    proof {
        let end = old(store)@.placed(id, payload, now);
        assert(end.events.contains_key(payload.event_id));
    }
    if add_event_ticket(store, payload.event_id, id, now).is_err() {
        return Err(
            AssociationError::Failed {
                msg: event_link_failed_message(id, payload.event_id),
                ticket,
            },
        );
    }
    Ok(ticket)
}

/// Whether every record that the creation of a ticket would write is small
/// enough to be stored.
pub open spec fn creation_fits(before: StoreView, payload: TicketPayload, now: u64) -> bool {
    before.counter < u64::MAX ==> before.entered_ticket(payload, now).sound()
}

/// What the creation of a ticket leaves and answers: where no identifier was
/// issued, the store as it was and a failure with the ticket that stands in
/// where none was made; else the store with the ticket placed under the next
/// identifier, and what that placement answers.
pub open spec fn creation_answer(
    before: StoreView,
    payload: TicketPayload,
    now: u64,
    after: StoreView,
    r: Result<Ticket, AssociationError>,
) -> bool {
    if after.counter == before.counter {
        &&& after == before
        &&& r matches Err(AssociationError::Failed { msg, ticket })
        &&& msg@ == no_ticket_id_text()
        &&& ticket == Ticket { id: 0, event_id: 0, user_id: 0, created_at: 0, updated_at: None }
    } else {
        &&& before.counter < u64::MAX
        &&& after == before.entered_ticket(payload, now)
        &&& placement_answer(before, before.next_id(), payload, now, r)
    }
}

/// Whether every record that the placing of a ticket under the identifier
/// would write is small enough to be stored.
pub fn placement_fits(store: &Store, id: u64, payload: &TicketPayload, now: u64) -> (fits: bool)
    requires
        store.wf(),
    ensures
        fits == store@.placed(id, *payload, now).sound(),
{
    proof {
        store.lemma_sound();
    }
    let ghost end = store@.placed(id, *payload, now);
    let mut event = match _get_event(store, &payload.event_id) {
        Some(event) => event,
        None => { return true; },
    };
    if insert_id(&mut event.attendee_ids, payload.user_id) {
        event.updated_at = Some(now);
    }
    let mut user = match _get_user(store, &payload.user_id) {
        Some(user) => user,
        None => {
            assert(end.events.contains_key(payload.event_id));
            return event_len(&event) <= RECORD_BOUND as u128;
        },
    };
    if insert_id(&mut event.ticket_ids, id) {
        event.updated_at = Some(now);
    }
    if insert_id(&mut user.ticket_ids, id) {
        user.updated_at = Some(now);
    }
    assert(end.events.contains_key(payload.event_id));
    assert(end.users.contains_key(payload.user_id));
    event_len(&event) <= RECORD_BOUND as u128 && user_len(&user) <= RECORD_BOUND as u128
}

/// Whether every record that the creation of a ticket would write is small
/// enough to be stored.
pub fn ticket_creation_fits(store: &Store, payload: &TicketPayload, now: u64) -> (fits: bool)
    requires
        store.wf(),
    ensures
        fits == creation_fits(store@, *payload, now),
{
    let current = last_id(store);
    if current == u64::MAX {
        return true;
    }
    proof {
        let planned = store@.placed((current + 1) as u64, *payload, now);
        let ahead = store@.entered_ticket(*payload, now);
        assert(ahead.events =~= planned.events);
        assert(ahead.users =~= planned.users);
    }
    placement_fits(store, current + 1, payload, now)
}

/// Creates a ticket: issues an identifier, stores the ticket under it and
/// lists it with its event and its user.
pub fn create_ticket(store: &mut Store, payload: TicketPayload, now: u64) -> (r: Result<
    Ticket,
    AssociationError,
>)
    requires
        old(store).wf(),
        creation_fits(old(store)@, payload, now),
    ensures
        final(store).wf(),
        creation_answer(old(store)@, payload, now, final(store)@, r),
{
    let id = match increment_id_counter(store) {
        Ok(id) => id,
        Err(_) => {
            return Err(
                AssociationError::Failed { msg: no_ticket_id_message(), ticket: Ticket::default() },
            );
        },
    };
    place_ticket(store, id, payload, now)
}

/// What the update of the ticket under the key answers in a store: the
/// ticket as updated, or the record that was missing.
pub open spec fn retarget_answer(
    before: StoreView,
    key: u64,
    payload: TicketPayload,
    now: u64,
    r: Result<Ticket, Error>,
) -> bool {
    match before.retarget_missing(key, payload) {
        None => r == Ok::<Ticket, Error>(revised_ticket(before.tickets[key], payload, now)),
        Some((kind, id)) => r matches Err(error) && error.is_missing(kind, id),
    }
}

/// Writes the payload over the ticket under the identifier. Where the user
/// changes, the ticket moves from the old user's tickets to the new user's;
/// where the event changes, from the old event's tickets to the new event's.
pub fn update_ticket(store: &mut Store, id: u64, payload: TicketPayload, now: u64) -> (r: Result<
    Ticket,
    Error,
>)
    requires
        old(store).wf(),
        old(store)@.retargeted(id, payload, now).sound(),
    ensures
        final(store).wf(),
        final(store)@ == old(store)@.retargeted(id, payload, now),
        retarget_answer(old(store)@, id, payload, now, r),
{
    let mut ticket = match _get_ticket(store, &id) {
        Some(ticket) => ticket,
        None => { return Err(Error::missing(RecordKind::Ticket, id)); },
    };
    let ghost before = store@;
    let ghost first = ticket;
    let ghost end = before.retargeted(id, payload, now);
    if payload.user_id != ticket.user_id {
        match remove_user_ticket(store, ticket.user_id, ticket.id, now) {
            Ok(_) => {},
            Err(error) => { return Err(error); },
        }
        proof {
            if store@.users.contains_key(payload.user_id) {
                assert(end.users.contains_key(payload.user_id));
            }
        }
        match add_user_ticket(store, payload.user_id, ticket.id, now) {
            Ok(_) => {},
            Err(error) => { return Err(error); },
        }
        ticket.user_id = payload.user_id;
    }
    assert(store@ == before.user_moved(first, payload, now));
    if payload.event_id != ticket.event_id {
        match remove_event_ticket(store, ticket.event_id, ticket.id, now) {
            Ok(_) => {},
            Err(error) => { return Err(error); },
        }
        proof {
            if store@.events.contains_key(payload.event_id) {
                assert(end.events.contains_key(payload.event_id));
            }
        }
        match add_event_ticket(store, payload.event_id, ticket.id, now) {
            Ok(_) => {},
            Err(error) => { return Err(error); },
        }
        ticket.event_id = payload.event_id;
    }
    ticket.updated_at = Some(now);
    put_ticket(store, id, &ticket);
    Ok(ticket)
}

/// Whether every record that the update of the ticket under the identifier
/// would write is small enough to be stored.
pub fn ticket_update_fits(store: &Store, id: u64, payload: &TicketPayload, now: u64) -> (fits:
    bool)
    requires
        store.wf(),
    ensures
        fits == store@.retargeted(id, *payload, now).sound(),
{
    proof {
        store.lemma_sound();
    }
    let ghost end = store@.retargeted(id, *payload, now);
    let ticket = match _get_ticket(store, &id) {
        Some(ticket) => ticket,
        None => { return true; },
    };
    if payload.user_id != ticket.user_id {
        if _get_user(store, &ticket.user_id).is_none() {
            return true;
        }
        proof {
            store@.users[ticket.user_id].ticket_ids.lemma_filter_len(differs_from(ticket.id));
        }
        match _get_user(store, &payload.user_id) {
            Some(mut user) => {
                if insert_id(&mut user.ticket_ids, ticket.id) {
                    user.updated_at = Some(now);
                }
                assert(end.users.contains_key(payload.user_id));
                assert(end.users[payload.user_id] == user@);
                if user_len(&user) > RECORD_BOUND as u128 {
                    return false;
                }
            },
            None => { return true; },
        }
    }
    if payload.event_id != ticket.event_id {
        if _get_event(store, &ticket.event_id).is_none() {
            return true;
        }
        proof {
            store@.events[ticket.event_id].ticket_ids.lemma_filter_len(differs_from(ticket.id));
        }
        match _get_event(store, &payload.event_id) {
            Some(mut event) => {
                if insert_id(&mut event.ticket_ids, ticket.id) {
                    event.updated_at = Some(now);
                }
                assert(end.events.contains_key(payload.event_id));
                assert(end.events[payload.event_id] == event@);
                if event_len(&event) > RECORD_BOUND as u128 {
                    return false;
                }
            },
            None => { return true; },
        }
    }
    true
}

/// What the deletion of the ticket under the key answers in a store: the
/// confirmation, or the record that was missing.
pub open spec fn withdraw_answer(before: StoreView, key: u64, r: Result<String, Error>) -> bool {
    match before.withdraw_missing(key) {
        None => r matches Ok(msg) && msg@ == deleted_text(RecordKind::Ticket, key),
        Some((kind, id)) => r matches Err(error) && error.is_missing(kind, id),
    }
}

/// Deletes the ticket under the identifier: takes it out of its user's
/// tickets, then out of its event's, then out of the store.
pub fn delete_ticket(store: &mut Store, id: u64, now: u64) -> (r: Result<String, Error>)
    requires
        old(store).wf(),
    ensures
        final(store).wf(),
        final(store)@ == old(store)@.withdrawn(id, now),
        withdraw_answer(old(store)@, id, r),
{
    let ticket = match _get_ticket(store, &id) {
        Some(ticket) => ticket,
        None => { return Err(Error::missing(RecordKind::Ticket, id)); },
    };
    match remove_user_ticket(store, ticket.user_id, ticket.id, now) {
        Ok(_) => {},
        Err(error) => { return Err(error); },
    }
    match remove_event_ticket(store, ticket.event_id, ticket.id, now) {
        Ok(_) => {},
        Err(error) => { return Err(error); },
    }
    remove_ticket(store, id);
    Ok(deleted_message(RecordKind::Ticket, id))
}

} // verus!
