//! The store as a mathematical value, and what each operation makes of it.
use vstd::prelude::*;
use crate::layout::{event_fits, user_fits};
use crate::records::{EventPayloadView, EventView, Ticket, TicketPayload, UserPayloadView, UserView};
use crate::text::RecordKind;

verus! {

/// What a store holds: the last identifier issued and the three tables.
pub struct StoreView {
    pub counter: u64,
    pub events: Map<u64, EventView>,
    pub users: Map<u64, UserView>,
    pub tickets: Map<u64, Ticket>,
}

/// A list with the identifier in it: the list itself where it is there
/// already, else the list with the identifier at its end.
pub open spec fn with_id(list: Seq<u64>, id: u64) -> Seq<u64> {
    if list.contains(id) {
        list
    } else {
        list.push(id)
    }
}

/// The test that an identifier is another one than the given.
pub open spec fn differs_from(id: u64) -> spec_fn(u64) -> bool {
    |other: u64| other != id
}

/// A list without any occurrence of the identifier, the others in their
/// order.
pub open spec fn without_id(list: Seq<u64>, id: u64) -> Seq<u64> {
    list.filter(differs_from(id))
}

/// The event that a creation makes.
pub open spec fn fresh_event(id: u64, payload: EventPayloadView, now: u64) -> EventView {
    EventView {
        id,
        name: payload.name,
        description: payload.description,
        date: payload.date,
        start_time: payload.start_time,
        location: payload.location,
        attendee_ids: Seq::empty(),
        ticket_ids: Seq::empty(),
        created_at: now,
        updated_at: None,
    }
}

/// The event that an update makes of an event.
pub open spec fn revised_event(event: EventView, payload: EventPayloadView, now: u64) -> EventView {
    EventView {
        name: payload.name,
        description: payload.description,
        date: payload.date,
        start_time: payload.start_time,
        location: payload.location,
        updated_at: Some(now),
        ..event
    }
}

/// The user that a creation makes.
pub open spec fn fresh_user(id: u64, payload: UserPayloadView, now: u64) -> UserView {
    UserView {
        id,
        name: payload.name,
        email: payload.email,
        password: payload.password,
        event_ids: Seq::empty(),
        ticket_ids: Seq::empty(),
        created_at: now,
        updated_at: None,
    }
}

/// The user that an update makes of a user.
pub open spec fn revised_user(user: UserView, payload: UserPayloadView, now: u64) -> UserView {
    UserView {
        name: payload.name,
        email: payload.email,
        password: payload.password,
        updated_at: Some(now),
        ..user
    }
}

/// The ticket that a creation makes.
pub open spec fn fresh_ticket(id: u64, payload: TicketPayload, now: u64) -> Ticket {
    Ticket {
        id,
        event_id: payload.event_id,
        user_id: payload.user_id,
        created_at: now,
        updated_at: None,
    }
}

/// The ticket that an update makes of a ticket.
pub open spec fn revised_ticket(ticket: Ticket, payload: TicketPayload, now: u64) -> Ticket {
    Ticket {
        event_id: payload.event_id,
        user_id: payload.user_id,
        updated_at: Some(now),
        ..ticket
    }
}

/// An event with the user among its attendees: unchanged where the user is
/// there already.
pub open spec fn event_with_attendee(event: EventView, user_id: u64, now: u64) -> EventView {
    if event.attendee_ids.contains(user_id) {
        event
    } else {
        EventView { attendee_ids: event.attendee_ids.push(user_id), updated_at: Some(now), ..event }
    }
}

/// An event with the ticket among its tickets: unchanged where the ticket is
/// there already.
pub open spec fn event_with_ticket(event: EventView, ticket_id: u64, now: u64) -> EventView {
    if event.ticket_ids.contains(ticket_id) {
        event
    } else {
        EventView { ticket_ids: event.ticket_ids.push(ticket_id), updated_at: Some(now), ..event }
    }
}

/// An event without the ticket among its tickets.
pub open spec fn event_without_ticket(event: EventView, ticket_id: u64, now: u64) -> EventView {
    EventView {
        ticket_ids: without_id(event.ticket_ids, ticket_id),
        updated_at: Some(now),
        ..event
    }
}

/// A user with the ticket among its tickets: unchanged where the ticket is
/// there already.
pub open spec fn user_with_ticket(user: UserView, ticket_id: u64, now: u64) -> UserView {
    if user.ticket_ids.contains(ticket_id) {
        user
    } else {
        UserView { ticket_ids: user.ticket_ids.push(ticket_id), updated_at: Some(now), ..user }
    }
}

/// A user without the ticket among its tickets.
pub open spec fn user_without_ticket(user: UserView, ticket_id: u64, now: u64) -> UserView {
    UserView { ticket_ids: without_id(user.ticket_ids, ticket_id), updated_at: Some(now), ..user }
}

/// How a ticket creation ended, once the ticket had its identifier.
pub enum Placement {
    /// The ticket is stored and listed with its event and its user.
    Linked,
    /// The ticket is stored; its event does not exist.
    NoEvent,
    /// The ticket is stored and its user is among the event's attendees; its
    /// user does not exist.
    NoUser,
}

impl StoreView {
    /// Whether every event and every user is small enough to be stored.
    pub open spec fn sound(self) -> bool {
        &&& forall|key: u64| #[trigger]
            self.events.contains_key(key) ==> event_fits(self.events[key])
        &&& forall|key: u64| #[trigger] self.users.contains_key(key) ==> user_fits(self.users[key])
    }

    /// The store with another last identifier.
    pub open spec fn counting(self, counter: u64) -> StoreView {
        StoreView { counter, ..self }
    }

    /// The identifier that the next creation gets.
    pub open spec fn next_id(self) -> u64 {
        (self.counter + 1) as u64
    }

    /// The store with the event under the key.
    pub open spec fn put_event(self, key: u64, event: EventView) -> StoreView {
        StoreView { events: self.events.insert(key, event), ..self }
    }

    /// The store with the user under the key.
    pub open spec fn put_user(self, key: u64, user: UserView) -> StoreView {
        StoreView { users: self.users.insert(key, user), ..self }
    }

    /// The store with the ticket under the key.
    pub open spec fn put_ticket(self, key: u64, ticket: Ticket) -> StoreView {
        StoreView { tickets: self.tickets.insert(key, ticket), ..self }
    }

    /// The store with no event under the key.
    pub open spec fn drop_event(self, key: u64) -> StoreView {
        StoreView { events: self.events.remove(key), ..self }
    }

    /// The store with no user under the key.
    pub open spec fn drop_user(self, key: u64) -> StoreView {
        StoreView { users: self.users.remove(key), ..self }
    }

    /// The store with no ticket under the key.
    pub open spec fn drop_ticket(self, key: u64) -> StoreView {
        StoreView { tickets: self.tickets.remove(key), ..self }
    }

    /// The store after the user was added to the event's attendees: unchanged
    /// where the event does not exist.
    pub open spec fn with_attendee(self, event_id: u64, user_id: u64, now: u64) -> StoreView {
        if self.events.contains_key(event_id) {
            self.put_event(event_id, event_with_attendee(self.events[event_id], user_id, now))
        } else {
            self
        }
    }

    /// The store after the ticket was added to the event's tickets: unchanged
    /// where the event does not exist.
    pub open spec fn with_event_ticket(self, event_id: u64, ticket_id: u64, now: u64) -> StoreView {
        if self.events.contains_key(event_id) {
            self.put_event(event_id, event_with_ticket(self.events[event_id], ticket_id, now))
        } else {
            self
        }
    }

    /// The store after the ticket was added to the user's tickets: unchanged
    /// where the user does not exist.
    pub open spec fn with_user_ticket(self, user_id: u64, ticket_id: u64, now: u64) -> StoreView {
        if self.users.contains_key(user_id) {
            self.put_user(user_id, user_with_ticket(self.users[user_id], ticket_id, now))
        } else {
            self
        }
    }

    /// The store after the ticket was taken from the event's tickets:
    /// unchanged where the event does not exist.
    pub open spec fn without_event_ticket(self, event_id: u64, ticket_id: u64, now: u64)
        -> StoreView {
        if self.events.contains_key(event_id) {
            self.put_event(event_id, event_without_ticket(self.events[event_id], ticket_id, now))
        } else {
            self
        }
    }

    /// The store after the ticket was taken from the user's tickets:
    /// unchanged where the user does not exist.
    pub open spec fn without_user_ticket(self, user_id: u64, ticket_id: u64, now: u64)
        -> StoreView {
        if self.users.contains_key(user_id) {
            self.put_user(user_id, user_without_ticket(self.users[user_id], ticket_id, now))
        } else {
            self
        }
    }

    /// How the creation of a ticket under the identifier ends.
    pub open spec fn placement(self, payload: TicketPayload) -> Placement {
        if !self.events.contains_key(payload.event_id) {
            Placement::NoEvent
        } else if !self.users.contains_key(payload.user_id) {
            Placement::NoUser
        } else {
            Placement::Linked
        }
    }

    /// The store after the creation of a ticket under the identifier: the
    /// ticket is stored, then the user joins the event's attendees, then the
    /// ticket joins the user's tickets, then the event's; the first step
    /// whose record is missing is the last one taken.
    pub open spec fn placed(self, id: u64, payload: TicketPayload, now: u64) -> StoreView {
        let stored = self.put_ticket(id, fresh_ticket(id, payload, now));
        match self.placement(payload) {
            Placement::NoEvent => stored,
            Placement::NoUser => stored.with_attendee(payload.event_id, payload.user_id, now),
            Placement::Linked => stored.with_attendee(
                payload.event_id,
                payload.user_id,
                now,
            ).with_user_ticket(payload.user_id, id, now).with_event_ticket(payload.event_id, id, now),
        }
    }

    /// The store after the creation of an event that got its identifier.
    pub open spec fn entered_event(self, payload: EventPayloadView, now: u64) -> StoreView {
        self.counting(self.next_id()).put_event(
            self.next_id(),
            fresh_event(self.next_id(), payload, now),
        )
    }

    /// The store after the creation of a user that got its identifier.
    pub open spec fn entered_user(self, payload: UserPayloadView, now: u64) -> StoreView {
        self.counting(self.next_id()).put_user(
            self.next_id(),
            fresh_user(self.next_id(), payload, now),
        )
    }

    /// The store after the creation of a ticket that got its identifier.
    pub open spec fn entered_ticket(self, payload: TicketPayload, now: u64) -> StoreView {
        self.counting(self.next_id()).placed(self.next_id(), payload, now)
    }

    /// The record whose absence stops the update of the ticket under the key,
    /// if there is one: the ticket itself; else, where the user changes, the
    /// old user, then the new one; else, where the event changes, the old
    /// event, then the new one.
    pub open spec fn retarget_missing(self, key: u64, payload: TicketPayload) -> Option<
        (RecordKind, u64),
    > {
        if !self.tickets.contains_key(key) {
            Some((RecordKind::Ticket, key))
        } else {
            let ticket = self.tickets[key];
            if payload.user_id != ticket.user_id && !self.users.contains_key(ticket.user_id) {
                Some((RecordKind::User, ticket.user_id))
            } else if payload.user_id != ticket.user_id && !self.users.contains_key(
                payload.user_id,
            ) {
                Some((RecordKind::User, payload.user_id))
            } else if payload.event_id != ticket.event_id && !self.events.contains_key(
                ticket.event_id,
            ) {
                Some((RecordKind::Event, ticket.event_id))
            } else if payload.event_id != ticket.event_id && !self.events.contains_key(
                payload.event_id,
            ) {
                Some((RecordKind::Event, payload.event_id))
            } else {
                None
            }
        }
    }

    /// The store after the user's side of a ticket update: where the user
    /// changes, the ticket leaves the old user's tickets and joins the new
    /// user's, as far as both exist.
    pub open spec fn user_moved(self, ticket: Ticket, payload: TicketPayload, now: u64)
        -> StoreView {
        if payload.user_id == ticket.user_id {
            self
        } else {
            self.without_user_ticket(ticket.user_id, ticket.id, now).with_user_ticket(
                payload.user_id,
                ticket.id,
                now,
            )
        }
    }

    /// The store after the event's side of a ticket update: where the event
    /// changes, the ticket leaves the old event's tickets and joins the new
    /// event's, as far as both exist.
    pub open spec fn event_moved(self, ticket: Ticket, payload: TicketPayload, now: u64)
        -> StoreView {
        if payload.event_id == ticket.event_id {
            self
        } else {
            self.without_event_ticket(ticket.event_id, ticket.id, now).with_event_ticket(
                payload.event_id,
                ticket.id,
                now,
            )
        }
    }

    /// The store after the update of the ticket under the key. The steps are
    /// taken in order and stop at the first record that is missing; what was
    /// done before stays.
    pub open spec fn retargeted(self, key: u64, payload: TicketPayload, now: u64) -> StoreView {
        if !self.tickets.contains_key(key) {
            self
        } else {
            let ticket = self.tickets[key];
            match self.retarget_missing(key, payload) {
                None => self.user_moved(ticket, payload, now).event_moved(
                    ticket,
                    payload,
                    now,
                ).put_ticket(key, revised_ticket(ticket, payload, now)),
                Some((RecordKind::Event, _)) => if self.events.contains_key(ticket.event_id) {
                    self.user_moved(ticket, payload, now).without_event_ticket(
                        ticket.event_id,
                        ticket.id,
                        now,
                    )
                } else {
                    self.user_moved(ticket, payload, now)
                },
                Some(_) => self.without_user_ticket(ticket.user_id, ticket.id, now),
            }
        }
    }

    /// The record whose absence stops the deletion of the ticket under the
    /// key, if there is one: the ticket itself, else its user, else its
    /// event.
    pub open spec fn withdraw_missing(self, key: u64) -> Option<(RecordKind, u64)> {
        if !self.tickets.contains_key(key) {
            Some((RecordKind::Ticket, key))
        } else {
            let ticket = self.tickets[key];
            if !self.users.contains_key(ticket.user_id) {
                Some((RecordKind::User, ticket.user_id))
            } else if !self.events.contains_key(ticket.event_id) {
                Some((RecordKind::Event, ticket.event_id))
            } else {
                None
            }
        }
    }

    /// The store after the deletion of the ticket under the key: the ticket
    /// leaves its user's tickets, then its event's, then the table; the first
    /// step whose record is missing is not taken, nor those after it.
    pub open spec fn withdrawn(self, key: u64, now: u64) -> StoreView {
        if !self.tickets.contains_key(key) {
            self
        } else {
            let ticket = self.tickets[key];
            let unlisted = self.without_user_ticket(ticket.user_id, ticket.id, now);
            match self.withdraw_missing(key) {
                None => unlisted.without_event_ticket(ticket.event_id, ticket.id, now).drop_ticket(
                    key,
                ),
                Some(_) => unlisted,
            }
        }
    }
}

} // verus!
