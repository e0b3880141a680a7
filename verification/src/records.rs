//! The three kinds of record, what a caller supplies to make or change one,
//! and the errors that the service reports.
use vstd::prelude::*;
use crate::text::{missing_message, missing_text, RecordKind};

verus! {

/// An event that tickets are issued for.
#[derive(Clone, Debug, PartialEq, Eq)]
pub struct Event {
    pub id: u64,
    pub name: String,
    pub description: String,
    pub date: String,
    pub start_time: String,
    pub location: String,
    pub attendee_ids: Vec<u64>,
    pub ticket_ids: Vec<u64>,
    pub created_at: u64,
    pub updated_at: Option<u64>,
}

/// A user who holds tickets.
#[derive(Clone, Debug, PartialEq, Eq)]
pub struct User {
    pub id: u64,
    pub name: String,
    pub email: String,
    pub password: String,
    pub event_ids: Vec<u64>,
    pub ticket_ids: Vec<u64>,
    pub created_at: u64,
    pub updated_at: Option<u64>,
}

/// A ticket: one user's admission to one event.
#[derive(Clone, Copy, Debug, PartialEq, Eq, Structural)]
pub struct Ticket {
    pub id: u64,
    pub event_id: u64,
    pub user_id: u64,
    pub created_at: u64,
    pub updated_at: Option<u64>,
}

/// The fields of an event that a caller sets.
#[derive(Clone, Debug, PartialEq, Eq)]
pub struct EventPayload {
    pub name: String,
    pub description: String,
    pub date: String,
    pub start_time: String,
    pub location: String,
}

/// The fields of a user that a caller sets.
#[derive(Clone, Debug, PartialEq, Eq)]
pub struct UserPayload {
    pub name: String,
    pub email: String,
    pub password: String,
}

/// The fields of a ticket that a caller sets.
#[derive(Clone, Copy, Debug, PartialEq, Eq, Structural)]
pub struct TicketPayload {
    pub event_id: u64,
    pub user_id: u64,
}

/// Why an operation on one record failed.
#[derive(Clone, Debug, PartialEq, Eq)]
pub enum Error {
    /// No record of the kind has the identifier.
    NotFound { msg: String },
    /// The identifier counter could not be advanced.
    NotCreated { msg: String },
}

/// Why a ticket creation failed, with the ticket as far as it was made.
#[derive(Clone, Debug, PartialEq, Eq)]
pub enum AssociationError {
    Failed { msg: String, ticket: Ticket },
}

/// An event as a mathematical value.
pub struct EventView {
    pub id: u64,
    pub name: Seq<char>,
    pub description: Seq<char>,
    pub date: Seq<char>,
    pub start_time: Seq<char>,
    pub location: Seq<char>,
    pub attendee_ids: Seq<u64>,
    pub ticket_ids: Seq<u64>,
    pub created_at: u64,
    pub updated_at: Option<u64>,
}

/// A user as a mathematical value.
pub struct UserView {
    pub id: u64,
    pub name: Seq<char>,
    pub email: Seq<char>,
    pub password: Seq<char>,
    pub event_ids: Seq<u64>,
    pub ticket_ids: Seq<u64>,
    pub created_at: u64,
    pub updated_at: Option<u64>,
}

/// An event payload as a mathematical value.
pub struct EventPayloadView {
    pub name: Seq<char>,
    pub description: Seq<char>,
    pub date: Seq<char>,
    pub start_time: Seq<char>,
    pub location: Seq<char>,
}

/// A user payload as a mathematical value.
pub struct UserPayloadView {
    pub name: Seq<char>,
    pub email: Seq<char>,
    pub password: Seq<char>,
}

impl View for Event {
    type V = EventView;

    open spec fn view(&self) -> EventView {
        EventView {
            id: self.id,
            name: self.name@,
            description: self.description@,
            date: self.date@,
            start_time: self.start_time@,
            location: self.location@,
            attendee_ids: self.attendee_ids@,
            ticket_ids: self.ticket_ids@,
            created_at: self.created_at,
            updated_at: self.updated_at,
        }
    }
}

impl View for User {
    type V = UserView;

    open spec fn view(&self) -> UserView {
        UserView {
            id: self.id,
            name: self.name@,
            email: self.email@,
            password: self.password@,
            event_ids: self.event_ids@,
            ticket_ids: self.ticket_ids@,
            created_at: self.created_at,
            updated_at: self.updated_at,
        }
    }
}

impl View for EventPayload {
    type V = EventPayloadView;

    open spec fn view(&self) -> EventPayloadView {
        EventPayloadView {
            name: self.name@,
            description: self.description@,
            date: self.date@,
            start_time: self.start_time@,
            location: self.location@,
        }
    }
}

impl View for UserPayload {
    type V = UserPayloadView;

    open spec fn view(&self) -> UserPayloadView {
        UserPayloadView { name: self.name@, email: self.email@, password: self.password@ }
    }
}

impl Default for Ticket {
    /// The ticket that stands in where none was made: every number zero,
    /// never updated.
    fn default() -> (ticket: Ticket)
        ensures
            ticket == (Ticket { id: 0, event_id: 0, user_id: 0, created_at: 0, updated_at: None }),
    {
        Ticket { id: 0, event_id: 0, user_id: 0, created_at: 0, updated_at: None }
    }
}

impl Error {
    /// The message that the error carries.
    pub open spec fn text(self) -> Seq<char> {
        match self {
            Error::NotFound { msg } => msg@,
            Error::NotCreated { msg } => msg@,
        }
    }

    /// Whether the error reports that no record of the kind has the
    /// identifier.
    pub open spec fn is_missing(self, kind: RecordKind, id: u64) -> bool {
        self matches Error::NotFound { msg } && msg@ == missing_text(kind, id)
    }

    /// The error that reports that no record of the kind has the identifier.
    pub fn missing(kind: RecordKind, id: u64) -> (error: Error)
        ensures
            error.is_missing(kind, id),
    {
        Error::NotFound { msg: missing_message(kind, id) }
    }

    /// The message that the error carries.
    pub fn message(&self) -> (msg: &String)
        ensures
            msg@ == self.text(),
    {
        match self {
            Error::NotFound { msg } => msg,
            Error::NotCreated { msg } => msg,
        }
    }
}

} // verus!
