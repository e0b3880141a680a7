//! What holds of the operations taken together, stated over the store as a
//! mathematical value.
use vstd::prelude::*;
use crate::model::{
    differs_from, fresh_event, fresh_ticket, fresh_user, revised_event, revised_ticket, revised_user, without_id,
    Placement, StoreView,
};
use crate::records::{EventPayloadView, EventView, Ticket, TicketPayload, UserPayloadView, UserView};

verus! {

/// One operation that changes the store.
pub enum Step {
    /// A creation of an event that got its identifier.
    CreateEvent { payload: EventPayloadView, now: u64 },
    /// A creation of a user that got its identifier.
    CreateUser { payload: UserPayloadView, now: u64 },
    /// A creation of a ticket that got its identifier.
    CreateTicket { payload: TicketPayload, now: u64 },
    /// A creation that got no identifier.
    Refused,
    /// An identifier issued for no record.
    Allocate,
    /// Records put, removed or linked under keys that the caller chose: the
    /// tables may be any afterwards.
    Write { events: Map<u64, EventView>, users: Map<u64, UserView>, tickets: Map<u64, Ticket> },
    UpdateEvent { id: u64, payload: EventPayloadView, now: u64 },
    UpdateUser { id: u64, payload: UserPayloadView, now: u64 },
    UpdateTicket { id: u64, payload: TicketPayload, now: u64 },
    DeleteEvent { id: u64 },
    DeleteUser { id: u64 },
    DeleteTicket { id: u64, now: u64 },
}

/// The identifier that a step issues in a store, if it issues one.
pub open spec fn issued(before: StoreView, step: Step) -> Option<u64> {
    match step {
        Step::CreateEvent { .. } | Step::CreateUser { .. } | Step::CreateTicket { .. }
        | Step::Allocate => if before.counter < u64::MAX {
            Some(before.next_id())
        } else {
            None
        },
        _ => None,
    }
}

/// The store after a step.
pub open spec fn after(before: StoreView, step: Step) -> StoreView {
    match step {
        Step::CreateEvent { payload, now } => if before.counter < u64::MAX {
            before.entered_event(payload, now)
        } else {
            before
        },
        Step::CreateUser { payload, now } => if before.counter < u64::MAX {
            before.entered_user(payload, now)
        } else {
            before
        },
        Step::CreateTicket { payload, now } => if before.counter < u64::MAX {
            before.entered_ticket(payload, now)
        } else {
            before
        },
        Step::Refused => before,
        Step::Allocate => if before.counter < u64::MAX {
            before.counting(before.next_id())
        } else {
            before
        },
        Step::Write { events, users, tickets } => StoreView {
            counter: before.counter,
            events,
            users,
            tickets,
        },
        Step::UpdateEvent { id, payload, now } => if before.events.contains_key(id) {
            before.put_event(id, revised_event(before.events[id], payload, now))
        } else {
            before
        },
        Step::UpdateUser { id, payload, now } => if before.users.contains_key(id) {
            before.put_user(id, revised_user(before.users[id], payload, now))
        } else {
            before
        },
        Step::UpdateTicket { id, payload, now } => before.retargeted(id, payload, now),
        Step::DeleteEvent { id } => before.drop_event(id),
        Step::DeleteUser { id } => before.drop_user(id),
        Step::DeleteTicket { id, now } => before.withdrawn(id, now),
    }
}

/// The store after a sequence of steps.
pub open spec fn after_all(before: StoreView, steps: Seq<Step>) -> StoreView
    decreases steps.len(),
{
    if steps.len() == 0 {
        before
    } else {
        after(after_all(before, steps.drop_last()), steps.last())
    }
}

/// The identifiers that a sequence of steps issues, in the order of issue.
pub open spec fn issued_all(before: StoreView, steps: Seq<Step>) -> Seq<u64>
    decreases steps.len(),
{
    if steps.len() == 0 {
        Seq::empty()
    } else {
        let earlier = issued_all(before, steps.drop_last());
        match issued(after_all(before, steps.drop_last()), steps.last()) {
            Some(id) => earlier.push(id),
            None => earlier,
        }
    }
}

/// No step lowers the counter, and a step that issues an identifier issues
/// one above the counter and leaves the counter at it.
pub proof fn law_step_counts_up(before: StoreView, step: Step)
    ensures
        after(before, step).counter >= before.counter,
        issued(before, step) matches Some(id) ==> id > before.counter && after(
            before,
            step,
        ).counter == id,
{
}

/// Identifiers strictly increase: whatever creations, updates and deletions
/// are made in whatever order, each identifier issued is above the counter
/// at the start and above every identifier issued before it, so none is
/// issued twice.
pub proof fn law_ids_increase(before: StoreView, steps: Seq<Step>)
    ensures
        after_all(before, steps).counter >= before.counter,
        forall|i: int|
            0 <= i < issued_all(before, steps).len() ==> before.counter < (#[trigger] issued_all(
                before,
                steps,
            )[i]) <= after_all(before, steps).counter,
        forall|i: int, j: int|
            0 <= i < j < issued_all(before, steps).len() ==> issued_all(before, steps)[i]
                < issued_all(before, steps)[j],
    decreases steps.len(),
{
    if steps.len() > 0 {
        let middle = after_all(before, steps.drop_last());
        let earlier = issued_all(before, steps.drop_last());
        let ids = issued_all(before, steps);
        law_ids_increase(before, steps.drop_last());
        law_step_counts_up(middle, steps.last());
        assert forall|i: int| 0 <= i < ids.len() implies before.counter < #[trigger] ids[i]
            <= after_all(before, steps).counter by {
            if i < earlier.len() {
                assert(ids[i] == earlier[i]);
            }
        }
        assert forall|i: int, j: int| 0 <= i < j < ids.len() implies ids[i] < ids[j] by {
            if j < earlier.len() {
                assert(ids[i] == earlier[i] && ids[j] == earlier[j]);
            } else {
                assert(ids[i] == earlier[i]);
            }
        }
    }
}

/// A created event is found under its identifier, as it was made.
pub proof fn law_created_event_is_found(before: StoreView, payload: EventPayloadView, now: u64)
    requires
        before.counter < u64::MAX,
    ensures
        before.entered_event(payload, now).events.contains_key(before.next_id()),
        before.entered_event(payload, now).events[before.next_id()] == fresh_event(
            before.next_id(),
            payload,
            now,
        ),
{
}

/// A created user is found under its identifier, as it was made.
pub proof fn law_created_user_is_found(before: StoreView, payload: UserPayloadView, now: u64)
    requires
        before.counter < u64::MAX,
    ensures
        before.entered_user(payload, now).users.contains_key(before.next_id()),
        before.entered_user(payload, now).users[before.next_id()] == fresh_user(
            before.next_id(),
            payload,
            now,
        ),
{
}

/// A created ticket is found under its identifier, as it was made, whether
/// or not its event and its user exist.
pub proof fn law_created_ticket_is_found(before: StoreView, payload: TicketPayload, now: u64)
    requires
        before.counter < u64::MAX,
    ensures
        before.entered_ticket(payload, now).tickets.contains_key(before.next_id()),
        before.entered_ticket(payload, now).tickets[before.next_id()] == fresh_ticket(
            before.next_id(),
            payload,
            now,
        ),
{
}

/// An update of an event sets the fields of the payload and the time of
/// update, and nothing else: not the identifier, the lists or the time of
/// creation of the event, nor any other record. With a clock that does not
/// run backwards, the time of update is not before the earlier one nor
/// before the creation.
pub proof fn law_event_update(
    before: StoreView,
    id: u64,
    payload: EventPayloadView,
    now: u64,
)
    requires
        before.events.contains_key(id),
    ensures
        ({
            let old_event = before.events[id];
            let new_event = revised_event(old_event, payload, now);
            let end = before.put_event(id, new_event);
            &&& new_event.id == old_event.id
            &&& new_event.attendee_ids == old_event.attendee_ids
            &&& new_event.ticket_ids == old_event.ticket_ids
            &&& new_event.created_at == old_event.created_at
            &&& new_event.updated_at == Some(now)
            &&& now >= old_event.created_at ==> new_event.updated_at.unwrap()
                >= old_event.created_at
            &&& (old_event.updated_at matches Some(earlier) && now >= earlier)
                ==> new_event.updated_at.unwrap() >= old_event.updated_at.unwrap()
            &&& end.events[id] == new_event
            &&& forall|other: u64|
                other != id ==> end.events.contains_key(other) == before.events.contains_key(other)
                    && end.events[other] == before.events[other]
            &&& end.users == before.users
            &&& end.tickets == before.tickets
            &&& end.counter == before.counter
        }),
{
}

/// An update of a user sets the fields of the payload and the time of
/// update, and nothing else: not the identifier, the lists or the time of
/// creation of the user, nor any other record. With a clock that does not
/// run backwards, the time of update is not before the earlier one nor
/// before the creation.
pub proof fn law_user_update(before: StoreView, id: u64, payload: UserPayloadView, now: u64)
    requires
        before.users.contains_key(id),
    ensures
        ({
            let old_user = before.users[id];
            let new_user = revised_user(old_user, payload, now);
            let end = before.put_user(id, new_user);
            &&& new_user.id == old_user.id
            &&& new_user.event_ids == old_user.event_ids
            &&& new_user.ticket_ids == old_user.ticket_ids
            &&& new_user.created_at == old_user.created_at
            &&& new_user.updated_at == Some(now)
            &&& now >= old_user.created_at ==> new_user.updated_at.unwrap() >= old_user.created_at
            &&& (old_user.updated_at matches Some(earlier) && now >= earlier)
                ==> new_user.updated_at.unwrap() >= old_user.updated_at.unwrap()
            &&& end.users[id] == new_user
            &&& forall|other: u64|
                other != id ==> end.users.contains_key(other) == before.users.contains_key(other)
                    && end.users[other] == before.users[other]
            &&& end.events == before.events
            &&& end.tickets == before.tickets
            &&& end.counter == before.counter
        }),
{
}

/// An update of a ticket that finds every record sets the event, the user
/// and the time of update of the ticket, and neither its identifier nor its
/// time of creation; no other ticket changes. With a clock that does not run
/// backwards, the time of update is not before the earlier one nor before
/// the creation.
pub proof fn law_ticket_update(before: StoreView, key: u64, payload: TicketPayload, now: u64)
    requires
        before.retarget_missing(key, payload) is None,
    ensures
        ({
            let old_ticket = before.tickets[key];
            let new_ticket = revised_ticket(old_ticket, payload, now);
            let end = before.retargeted(key, payload, now);
            &&& new_ticket.id == old_ticket.id
            &&& new_ticket.created_at == old_ticket.created_at
            &&& new_ticket.event_id == payload.event_id
            &&& new_ticket.user_id == payload.user_id
            &&& new_ticket.updated_at == Some(now)
            &&& now >= old_ticket.created_at ==> new_ticket.updated_at.unwrap()
                >= old_ticket.created_at
            &&& (old_ticket.updated_at matches Some(earlier) && now >= earlier)
                ==> new_ticket.updated_at.unwrap() >= old_ticket.updated_at.unwrap()
            &&& end.tickets == before.tickets.insert(key, new_ticket)
            &&& end.counter == before.counter
        }),
{
}

/// After the deletion of an event that existed, no event is found under its
/// identifier, so that a second deletion finds none either; nothing else
/// changes.
pub proof fn law_deleted_event_is_gone(before: StoreView, id: u64)
    ensures
        !before.drop_event(id).events.contains_key(id),
        before.drop_event(id).drop_event(id) == before.drop_event(id),
        before.drop_event(id).users == before.users,
        before.drop_event(id).tickets == before.tickets,
        before.drop_event(id).counter == before.counter,
{
    assert(before.drop_event(id).events.remove(id) =~= before.drop_event(id).events);
}

/// After the deletion of a user that existed, no user is found under its
/// identifier, so that a second deletion finds none either; nothing else
/// changes.
pub proof fn law_deleted_user_is_gone(before: StoreView, id: u64)
    ensures
        !before.drop_user(id).users.contains_key(id),
        before.drop_user(id).drop_user(id) == before.drop_user(id),
        before.drop_user(id).events == before.events,
        before.drop_user(id).tickets == before.tickets,
        before.drop_user(id).counter == before.counter,
{
    assert(before.drop_user(id).users.remove(id) =~= before.drop_user(id).users);
}

/// After the deletion of a ticket whose user and event exist, no ticket is
/// found under its identifier, and a second deletion changes nothing.
pub proof fn law_deleted_ticket_is_gone(before: StoreView, key: u64, now: u64, later: u64)
    requires
        before.withdraw_missing(key) is None,
    ensures
        !before.withdrawn(key, now).tickets.contains_key(key),
        before.withdrawn(key, now).withdrawn(key, later) == before.withdrawn(key, now),
{
}

/// Nothing that was taken out of a list is in it, and everything else that
/// was in it still is.
pub proof fn law_without_id(list: Seq<u64>, id: u64)
    ensures
        !without_id(list, id).contains(id),
        forall|other: u64| other != id && list.contains(other) ==> without_id(list, id).contains(other),
        forall|other: u64| without_id(list, id).contains(other) ==> list.contains(other),
        without_id(list, id).len() <= list.len(),
{
    let differs = differs_from(id);
    let kept = without_id(list, id);
    list.lemma_filter_len(differs);
    if kept.contains(id) {
        let j = choose|j: int| 0 <= j < kept.len() && kept[j] == id;
        list.lemma_filter_pred(differs, j);
    }
    assert forall|other: u64| other != id && list.contains(other) implies kept.contains(
        other,
    ) by {
        let i = choose|i: int| 0 <= i < list.len() && list[i] == other;
        list.lemma_filter_contains(differs, i);
    }
    assert forall|other: u64| kept.contains(other) implies list.contains(other) by {
        list.lemma_filter_contains_rev(differs, other);
    }
}

/// After the creation of a ticket whose event and user exist, the ticket is
/// among the tickets of its event and among those of its user, and the user
/// is among the attendees of the event.
pub proof fn law_created_ticket_is_linked(before: StoreView, payload: TicketPayload, now: u64)
    requires
        before.counter < u64::MAX,
        before.placement(payload) == Placement::Linked,
    ensures
        ({
            let end = before.entered_ticket(payload, now);
            &&& end.events.contains_key(payload.event_id)
            &&& end.users.contains_key(payload.user_id)
            &&& end.events[payload.event_id].ticket_ids.contains(before.next_id())
            &&& end.users[payload.user_id].ticket_ids.contains(before.next_id())
            &&& end.events[payload.event_id].attendee_ids.contains(payload.user_id)
        }),
{
    let id = before.next_id();
    let event = before.events[payload.event_id];
    let user = before.users[payload.user_id];
    if !event.attendee_ids.contains(payload.user_id) {
        let longer = event.attendee_ids.push(payload.user_id);
        assert(longer[longer.len() - 1] == payload.user_id);
    }
    let end = before.entered_ticket(payload, now);
    let listed = end.events[payload.event_id].ticket_ids;
    assert(listed[listed.len() - 1] == id || listed.contains(id));
    let held = end.users[payload.user_id].ticket_ids;
    assert(held[held.len() - 1] == id || held.contains(id));
}

/// After an update that moves a ticket from one user to another, both of
/// whom exist, the ticket is not among the tickets of the old user and is
/// among those of the new one; where the event stays the same, no event
/// changes.
pub proof fn law_ticket_moves_between_users(
    before: StoreView,
    key: u64,
    payload: TicketPayload,
    now: u64,
)
    requires
        before.tickets.contains_key(key),
        before.retarget_missing(key, payload) is None,
        payload.user_id != before.tickets[key].user_id,
    ensures
        ({
            let ticket = before.tickets[key];
            let end = before.retargeted(key, payload, now);
            &&& end.users.contains_key(ticket.user_id)
            &&& end.users.contains_key(payload.user_id)
            &&& !end.users[ticket.user_id].ticket_ids.contains(ticket.id)
            &&& end.users[payload.user_id].ticket_ids.contains(ticket.id)
            &&& payload.event_id == ticket.event_id ==> end.events == before.events
        }),
{
    let ticket = before.tickets[key];
    law_without_id(before.users[ticket.user_id].ticket_ids, ticket.id);
    let end = before.retargeted(key, payload, now);
    let held = end.users[payload.user_id].ticket_ids;
    assert(held[held.len() - 1] == ticket.id || held.contains(ticket.id));
}

/// After the deletion of a ticket whose user and event exist, the ticket is
/// neither among the tickets of that user nor among those of that event.
pub proof fn law_deleted_ticket_is_unlinked(before: StoreView, key: u64, now: u64)
    requires
        before.withdraw_missing(key) is None,
    ensures
        ({
            let ticket = before.tickets[key];
            let end = before.withdrawn(key, now);
            &&& end.users.contains_key(ticket.user_id)
            &&& end.events.contains_key(ticket.event_id)
            &&& !end.users[ticket.user_id].ticket_ids.contains(ticket.id)
            &&& !end.events[ticket.event_id].ticket_ids.contains(ticket.id)
        }),
{
    let ticket = before.tickets[key];
    law_without_id(before.users[ticket.user_id].ticket_ids, ticket.id);
    law_without_id(before.events[ticket.event_id].ticket_ids, ticket.id);
}

} // verus!
