//! The texts that the service answers with: decimal numbers and the
//! messages built around them.
use vstd::prelude::*;
use vstd::string::*;

verus! {

/// The three kinds of record that the store keeps.
#[derive(Clone, Copy, Debug, PartialEq, Eq, Structural)]
pub enum RecordKind {
    Event,
    User,
    Ticket,
}

/// The character that stands for a digit below ten.
pub open spec fn digit(d: nat) -> char {
    if d == 0 {
        '0'
    } else if d == 1 {
        '1'
    } else if d == 2 {
        '2'
    } else if d == 3 {
        '3'
    } else if d == 4 {
        '4'
    } else if d == 5 {
        '5'
    } else if d == 6 {
        '6'
    } else if d == 7 {
        '7'
    } else if d == 8 {
        '8'
    } else {
        '9'
    }
}

/// A number written in decimal, without leading zeros.
pub open spec fn decimal(n: nat) -> Seq<char>
    decreases n,
{
    if n < 10 {
        seq![digit(n)]
    } else {
        decimal(n / 10).push(digit(n % 10))
    }
}

/// The word by which a message names a kind of record.
pub open spec fn kind_name(kind: RecordKind) -> Seq<char> {
    match kind {
        RecordKind::Event => "event"@,
        RecordKind::User => "user"@,
        RecordKind::Ticket => "ticket"@,
    }
}

/// The message that reports that no record of the kind has the identifier.
pub open spec fn missing_text(kind: RecordKind, id: u64) -> Seq<char> {
    kind_name(kind) + " id:"@ + decimal(id as nat) + " does not exist"@
}

/// The message that confirms that the record was deleted.
pub open spec fn deleted_text(kind: RecordKind, id: u64) -> Seq<char> {
    kind_name(kind) + " id: "@ + decimal(id as nat) + " deleted"@
}

/// The message that reports that the identifier counter could not be
/// advanced.
pub open spec fn counter_text() -> Seq<char> {
    "Failed to increment ID counter"@
}

/// The message of a ticket creation that got no identifier.
pub open spec fn no_ticket_id_text() -> Seq<char> {
    "Failed to increment ID counter: "@ + counter_text()
}

/// The message of a ticket creation that could not list the user among the
/// event's attendees.
pub open spec fn attendee_failed_text(event_id: u64) -> Seq<char> {
    "Could not add attendee to event id:"@ + decimal(event_id as nat) + " "@
}

/// The message of a ticket creation that could not list the ticket with the
/// user.
pub open spec fn user_link_failed_text(ticket_id: u64, user_id: u64) -> Seq<char> {
    "Could not add ticket id:"@ + decimal(ticket_id as nat) + " to user id:"@ + decimal(
        user_id as nat,
    ) + " "@
}

/// The message of a ticket creation that could not list the ticket with the
/// event.
pub open spec fn event_link_failed_text(ticket_id: u64, event_id: u64) -> Seq<char> {
    "Could not add ticket id:"@ + decimal(ticket_id as nat) + " to event id:"@ + decimal(
        event_id as nat,
    ) + " "@
}

fn digit_str(d: u64) -> (s: &'static str)
    requires
        d < 10,
    ensures
        s@ == seq![digit(d as nat)],
{
    proof {
        reveal_strlit("0");
        reveal_strlit("1");
        reveal_strlit("2");
        reveal_strlit("3");
        reveal_strlit("4");
        reveal_strlit("5");
        reveal_strlit("6");
        reveal_strlit("7");
        reveal_strlit("8");
        reveal_strlit("9");
    }
    let s = if d == 0 {
        "0"
    } else if d == 1 {
        "1"
    } else if d == 2 {
        "2"
    } else if d == 3 {
        "3"
    } else if d == 4 {
        "4"
    } else if d == 5 {
        "5"
    } else if d == 6 {
        "6"
    } else if d == 7 {
        "7"
    } else if d == 8 {
        "8"
    } else {
        "9"
    };
    assert(s@ =~= seq![digit(d as nat)]);
    s
}

/// Writes a number in decimal.
pub fn decimal_string(n: u64) -> (s: String)
    ensures
        s@ == decimal(n as nat),
    decreases n,
{
    if n < 10 {
        String::from_str(digit_str(n))
    } else {
        let mut s = decimal_string(n / 10);
        s.append(digit_str(n % 10));
        assert(s@ =~= decimal(n as nat));
        s
    }
}

fn kind_str(kind: RecordKind) -> (s: &'static str)
    ensures
        s@ == kind_name(kind),
{
    match kind {
        RecordKind::Event => "event",
        RecordKind::User => "user",
        RecordKind::Ticket => "ticket",
    }
}

/// Builds the message that reports that no record of the kind has the
/// identifier.
pub fn missing_message(kind: RecordKind, id: u64) -> (msg: String)
    ensures
        msg@ == missing_text(kind, id),
{
    let mut msg = String::from_str(kind_str(kind));
    msg.append(" id:");
    let number = decimal_string(id);
    msg.append(number.as_str());
    msg.append(" does not exist");
    msg
}

/// Builds the message that confirms that the record was deleted.
pub fn deleted_message(kind: RecordKind, id: u64) -> (msg: String)
    ensures
        msg@ == deleted_text(kind, id),
{
    let mut msg = String::from_str(kind_str(kind));
    msg.append(" id: ");
    let number = decimal_string(id);
    msg.append(number.as_str());
    msg.append(" deleted");
    msg
}

/// Builds the message that reports that the identifier counter could not be
/// advanced.
pub fn counter_message() -> (msg: String)
    ensures
        msg@ == counter_text(),
{
    String::from_str("Failed to increment ID counter")
}

/// Builds the message of a ticket creation that got no identifier.
pub fn no_ticket_id_message() -> (msg: String)
    ensures
        msg@ == no_ticket_id_text(),
{
    let mut msg = String::from_str("Failed to increment ID counter: ");
    msg.append("Failed to increment ID counter");
    msg
}

/// Builds the message of a ticket creation that could not list the user
/// among the event's attendees.
pub fn attendee_failed_message(event_id: u64) -> (msg: String)
    ensures
        msg@ == attendee_failed_text(event_id),
{
    let mut msg = String::from_str("Could not add attendee to event id:");
    let number = decimal_string(event_id);
    msg.append(number.as_str());
    msg.append(" ");
    msg
}

/// Builds the message of a ticket creation that could not list the ticket
/// with the user.
pub fn user_link_failed_message(ticket_id: u64, user_id: u64) -> (msg: String)
    ensures
        msg@ == user_link_failed_text(ticket_id, user_id),
{
    let mut msg = String::from_str("Could not add ticket id:");
    let ticket = decimal_string(ticket_id);
    msg.append(ticket.as_str());
    msg.append(" to user id:");
    let user = decimal_string(user_id);
    msg.append(user.as_str());
    msg.append(" ");
    msg
}

/// Builds the message of a ticket creation that could not list the ticket
/// with the event.
pub fn event_link_failed_message(ticket_id: u64, event_id: u64) -> (msg: String)
    ensures
        msg@ == event_link_failed_text(ticket_id, event_id),
{
    let mut msg = String::from_str("Could not add ticket id:");
    let ticket = decimal_string(ticket_id);
    msg.append(ticket.as_str());
    msg.append(" to event id:");
    let event = decimal_string(event_id);
    msg.append(event.as_str());
    msg.append(" ");
    msg
}

} // verus!
