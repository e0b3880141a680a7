//! The bytes of each kind of record, how many they are, and how a record is
//! read back from them.
use vstd::prelude::*;
use vstd::utf8::*;
use crate::codec::{
    get_ids, get_stamp, get_text, get_u64, ids_bytes, ids_len, ids_size, lemma_take_ids,
    lemma_take_stamp, lemma_take_text, lemma_take_u64, put_ids, put_stamp, put_text, put_u64,
    stamp_bytes, take_ids, take_stamp, take_text, take_u64, text_bytes, text_len, text_size,
    u64_bytes,
};
use crate::records::{Event, EventView, Ticket, User, UserView};
use crate::storage::RECORD_BOUND;

verus! {

/// The bytes of an event.
pub open spec fn event_bytes(e: EventView) -> Seq<u8> {
    u64_bytes(e.id) + text_bytes(e.name) + text_bytes(e.description) + text_bytes(e.date)
        + text_bytes(e.start_time) + text_bytes(e.location) + ids_bytes(e.attendee_ids)
        + ids_bytes(e.ticket_ids) + u64_bytes(e.created_at) + stamp_bytes(e.updated_at)
}

/// The bytes of a user.
pub open spec fn user_bytes(u: UserView) -> Seq<u8> {
    u64_bytes(u.id) + text_bytes(u.name) + text_bytes(u.email) + text_bytes(u.password)
        + ids_bytes(u.event_ids) + ids_bytes(u.ticket_ids) + u64_bytes(u.created_at) + stamp_bytes(
        u.updated_at,
    )
}

/// The bytes of a ticket.
pub open spec fn ticket_bytes(t: Ticket) -> Seq<u8> {
    u64_bytes(t.id) + u64_bytes(t.event_id) + u64_bytes(t.user_id) + u64_bytes(t.created_at)
        + stamp_bytes(t.updated_at)
}

/// The number of bytes that an event takes.
pub open spec fn event_size(e: EventView) -> nat {
    8 + text_size(e.name) + text_size(e.description) + text_size(e.date) + text_size(e.start_time)
        + text_size(e.location) + ids_size(e.attendee_ids) + ids_size(e.ticket_ids) + 8 + 9
}

/// The number of bytes that a user takes.
pub open spec fn user_size(u: UserView) -> nat {
    8 + text_size(u.name) + text_size(u.email) + text_size(u.password) + ids_size(u.event_ids)
        + ids_size(u.ticket_ids) + 8 + 9
}

/// The number of bytes that a ticket takes.
pub open spec fn ticket_size() -> nat {
    41
}

/// Whether an event is small enough to be stored.
pub open spec fn event_fits(e: EventView) -> bool {
    event_size(e) <= RECORD_BOUND
}

/// Whether a user is small enough to be stored.
pub open spec fn user_fits(u: UserView) -> bool {
    user_size(u) <= RECORD_BOUND
}

/// The event that the bytes hold, if they are those of an event and nothing
/// more.
pub open spec fn event_of_bytes(b: Seq<u8>) -> Option<EventView> {
    match take_u64(b) {
        None => None,
        Some((id, b)) => match take_text(b) {
            None => None,
            Some((name, b)) => match take_text(b) {
                None => None,
                Some((description, b)) => match take_text(b) {
                    None => None,
                    Some((date, b)) => match take_text(b) {
                        None => None,
                        Some((start_time, b)) => match take_text(b) {
                            None => None,
                            Some((location, b)) => match take_ids(b) {
                                None => None,
                                Some((attendee_ids, b)) => match take_ids(b) {
                                    None => None,
                                    Some((ticket_ids, b)) => match take_u64(b) {
                                        None => None,
                                        Some((created_at, b)) => match take_stamp(b) {
                                            None => None,
                                            Some((updated_at, b)) => if b.len() == 0 {
                                                Some(
                                                    EventView {
                                                        id,
                                                        name,
                                                        description,
                                                        date,
                                                        start_time,
                                                        location,
                                                        attendee_ids,
                                                        ticket_ids,
                                                        created_at,
                                                        updated_at,
                                                    },
                                                )
                                            } else {
                                                None
                                            },
                                        },
                                    },
                                },
                            },
                        },
                    },
                },
            },
        },
    }
}

/// The user that the bytes hold, if they are those of a user and nothing
/// more.
pub open spec fn user_of_bytes(b: Seq<u8>) -> Option<UserView> {
    match take_u64(b) {
        None => None,
        Some((id, b)) => match take_text(b) {
            None => None,
            Some((name, b)) => match take_text(b) {
                None => None,
                Some((email, b)) => match take_text(b) {
                    None => None,
                    Some((password, b)) => match take_ids(b) {
                        None => None,
                        Some((event_ids, b)) => match take_ids(b) {
                            None => None,
                            Some((ticket_ids, b)) => match take_u64(b) {
                                None => None,
                                Some((created_at, b)) => match take_stamp(b) {
                                    None => None,
                                    Some((updated_at, b)) => if b.len() == 0 {
                                        Some(
                                            UserView {
                                                id,
                                                name,
                                                email,
                                                password,
                                                event_ids,
                                                ticket_ids,
                                                created_at,
                                                updated_at,
                                            },
                                        )
                                    } else {
                                        None
                                    },
                                },
                            },
                        },
                    },
                },
            },
        },
    }
}

/// The ticket that the bytes hold, if they are those of a ticket and nothing
/// more.
pub open spec fn ticket_of_bytes(b: Seq<u8>) -> Option<Ticket> {
    match take_u64(b) {
        None => None,
        Some((id, b)) => match take_u64(b) {
            None => None,
            Some((event_id, b)) => match take_u64(b) {
                None => None,
                Some((user_id, b)) => match take_u64(b) {
                    None => None,
                    Some((created_at, b)) => match take_stamp(b) {
                        None => None,
                        Some((updated_at, b)) => if b.len() == 0 {
                            Some(Ticket { id, event_id, user_id, created_at, updated_at })
                        } else {
                            None
                        },
                    },
                },
            },
        },
    }
}

/// An event that fits is read back from its bytes as it was, and its bytes
/// are as many as its size says.
pub proof fn lemma_event_round_trip(e: EventView)
    requires
        event_fits(e),
    ensures
        event_bytes(e).len() == event_size(e),
        event_of_bytes(event_bytes(e)) == Some(e),
{
    let end = Seq::<u8>::empty();
    let r9 = stamp_bytes(e.updated_at) + end;
    let r8 = u64_bytes(e.created_at) + r9;
    let r7 = ids_bytes(e.ticket_ids) + r8;
    let r6 = ids_bytes(e.attendee_ids) + r7;
    let r5 = text_bytes(e.location) + r6;
    let r4 = text_bytes(e.start_time) + r5;
    let r3 = text_bytes(e.date) + r4;
    let r2 = text_bytes(e.description) + r3;
    let r1 = text_bytes(e.name) + r2;
    let r0 = u64_bytes(e.id) + r1;
    lemma_take_stamp(e.updated_at, end);
    lemma_take_u64(e.created_at, r9);
    lemma_take_ids(e.ticket_ids, r8);
    lemma_take_ids(e.attendee_ids, r7);
    lemma_take_text(e.location, r6);
    lemma_take_text(e.start_time, r5);
    lemma_take_text(e.date, r4);
    lemma_take_text(e.description, r3);
    lemma_take_text(e.name, r2);
    lemma_take_u64(e.id, r1);
    assert(event_bytes(e) =~= r0);
}

/// A user that fits is read back from its bytes as it was, and its bytes are
/// as many as its size says.
pub proof fn lemma_user_round_trip(u: UserView)
    requires
        user_fits(u),
    ensures
        user_bytes(u).len() == user_size(u),
        user_of_bytes(user_bytes(u)) == Some(u),
{
    let end = Seq::<u8>::empty();
    let r7 = stamp_bytes(u.updated_at) + end;
    let r6 = u64_bytes(u.created_at) + r7;
    let r5 = ids_bytes(u.ticket_ids) + r6;
    let r4 = ids_bytes(u.event_ids) + r5;
    let r3 = text_bytes(u.password) + r4;
    let r2 = text_bytes(u.email) + r3;
    let r1 = text_bytes(u.name) + r2;
    let r0 = u64_bytes(u.id) + r1;
    lemma_take_stamp(u.updated_at, end);
    lemma_take_u64(u.created_at, r7);
    lemma_take_ids(u.ticket_ids, r6);
    lemma_take_ids(u.event_ids, r5);
    lemma_take_text(u.password, r4);
    lemma_take_text(u.email, r3);
    lemma_take_text(u.name, r2);
    lemma_take_u64(u.id, r1);
    assert(user_bytes(u) =~= r0);
}

/// A ticket is read back from its bytes as it was, and its bytes are as many
/// as its size says.
pub proof fn lemma_ticket_round_trip(t: Ticket)
    ensures
        ticket_bytes(t).len() == ticket_size(),
        ticket_of_bytes(ticket_bytes(t)) == Some(t),
{
    let end = Seq::<u8>::empty();
    let r4 = stamp_bytes(t.updated_at) + end;
    let r3 = u64_bytes(t.created_at) + r4;
    let r2 = u64_bytes(t.user_id) + r3;
    let r1 = u64_bytes(t.event_id) + r2;
    let r0 = u64_bytes(t.id) + r1;
    lemma_take_stamp(t.updated_at, end);
    lemma_take_u64(t.created_at, r4);
    lemma_take_u64(t.user_id, r3);
    lemma_take_u64(t.event_id, r2);
    lemma_take_u64(t.id, r1);
    assert(ticket_bytes(t) =~= r0);
}

/// Counts the bytes that an event takes.
pub fn event_len(e: &Event) -> (n: u128)
    ensures
        n == event_size(e@),
{
    let texts = text_len(&e.name) + text_len(&e.description) + text_len(&e.date) + text_len(
        &e.start_time,
    ) + text_len(&e.location);
    let lists = ids_len(&e.attendee_ids) + ids_len(&e.ticket_ids);
    25 + texts + lists
}

/// Counts the bytes that a user takes.
pub fn user_len(u: &User) -> (n: u128)
    ensures
        n == user_size(u@),
{
    let texts = text_len(&u.name) + text_len(&u.email) + text_len(&u.password);
    let lists = ids_len(&u.event_ids) + ids_len(&u.ticket_ids);
    25 + texts + lists
}

/// Lays an event out in bytes.
pub fn encode_event(e: &Event) -> (bytes: Vec<u8>)
    ensures
        bytes@ == event_bytes(e@),
{
    let mut bytes: Vec<u8> = Vec::new();
    put_u64(&mut bytes, e.id);
    put_text(&mut bytes, &e.name);
    put_text(&mut bytes, &e.description);
    put_text(&mut bytes, &e.date);
    put_text(&mut bytes, &e.start_time);
    put_text(&mut bytes, &e.location);
    put_ids(&mut bytes, &e.attendee_ids);
    put_ids(&mut bytes, &e.ticket_ids);
    put_u64(&mut bytes, e.created_at);
    put_stamp(&mut bytes, e.updated_at);
    assert(bytes@ =~= event_bytes(e@));
    bytes
}

/// Lays a user out in bytes.
pub fn encode_user(u: &User) -> (bytes: Vec<u8>)
    ensures
        bytes@ == user_bytes(u@),
{
    let mut bytes: Vec<u8> = Vec::new();
    put_u64(&mut bytes, u.id);
    put_text(&mut bytes, &u.name);
    put_text(&mut bytes, &u.email);
    put_text(&mut bytes, &u.password);
    put_ids(&mut bytes, &u.event_ids);
    put_ids(&mut bytes, &u.ticket_ids);
    put_u64(&mut bytes, u.created_at);
    put_stamp(&mut bytes, u.updated_at);
    assert(bytes@ =~= user_bytes(u@));
    bytes
}

/// Lays a ticket out in bytes.
pub fn encode_ticket(t: &Ticket) -> (bytes: Vec<u8>)
    ensures
        bytes@ == ticket_bytes(*t),
{
    let mut bytes: Vec<u8> = Vec::new();
    put_u64(&mut bytes, t.id);
    put_u64(&mut bytes, t.event_id);
    put_u64(&mut bytes, t.user_id);
    put_u64(&mut bytes, t.created_at);
    put_stamp(&mut bytes, t.updated_at);
    assert(bytes@ =~= ticket_bytes(*t));
    bytes
}

/// Reads an event back from bytes.
pub fn decode_event(bytes: &[u8]) -> (r: Option<Event>)
    ensures
        match event_of_bytes(bytes@) {
            Some(v) => r matches Some(e) && e@ == v,
            None => r is None,
        },
{
    assert(bytes@.skip(0) =~= bytes@);
    let (id, at1) = match get_u64(bytes, 0) {
        Some(read) => read,
        None => { return None; },
    };
    let (name, at2) = match get_text(bytes, at1) {
        Some(read) => read,
        None => { return None; },
    };
    let (description, at3) = match get_text(bytes, at2) {
        Some(read) => read,
        None => { return None; },
    };
    let (date, at4) = match get_text(bytes, at3) {
        Some(read) => read,
        None => { return None; },
    };
    let (start_time, at5) = match get_text(bytes, at4) {
        Some(read) => read,
        None => { return None; },
    };
    let (location, at6) = match get_text(bytes, at5) {
        Some(read) => read,
        None => { return None; },
    };
    let (attendee_ids, at7) = match get_ids(bytes, at6) {
        Some(read) => read,
        None => { return None; },
    };
    let (ticket_ids, at8) = match get_ids(bytes, at7) {
        Some(read) => read,
        None => { return None; },
    };
    let (created_at, at9) = match get_u64(bytes, at8) {
        Some(read) => read,
        None => { return None; },
    };
    let (updated_at, at10) = match get_stamp(bytes, at9) {
        Some(read) => read,
        None => {
            return None;
        },
    };
    if at10 != bytes.len() {
        return None;
    }
    Some(
        Event {
            id,
            name,
            description,
            date,
            start_time,
            location,
            attendee_ids,
            ticket_ids,
            created_at,
            updated_at,
        },
    )
}

/// Reads a user back from bytes.
pub fn decode_user(bytes: &[u8]) -> (r: Option<User>)
    ensures
        match user_of_bytes(bytes@) {
            Some(v) => r matches Some(u) && u@ == v,
            None => r is None,
        },
{
    assert(bytes@.skip(0) =~= bytes@);
    let (id, at1) = match get_u64(bytes, 0) {
        Some(read) => read,
        None => { return None; },
    };
    let (name, at2) = match get_text(bytes, at1) {
        Some(read) => read,
        None => { return None; },
    };
    let (email, at3) = match get_text(bytes, at2) {
        Some(read) => read,
        None => { return None; },
    };
    let (password, at4) = match get_text(bytes, at3) {
        Some(read) => read,
        None => { return None; },
    };
    let (event_ids, at5) = match get_ids(bytes, at4) {
        Some(read) => read,
        None => { return None; },
    };
    let (ticket_ids, at6) = match get_ids(bytes, at5) {
        Some(read) => read,
        None => { return None; },
    };
    let (created_at, at7) = match get_u64(bytes, at6) {
        Some(read) => read,
        None => { return None; },
    };
    let (updated_at, at8) = match get_stamp(bytes, at7) {
        Some(read) => read,
        None => {
            return None;
        },
    };
    if at8 != bytes.len() {
        return None;
    }
    Some(User { id, name, email, password, event_ids, ticket_ids, created_at, updated_at })
}

/// Reads a ticket back from bytes.
pub fn decode_ticket(bytes: &[u8]) -> (r: Option<Ticket>)
    ensures
        r == ticket_of_bytes(bytes@),
{
    assert(bytes@.skip(0) =~= bytes@);
    let (id, at1) = match get_u64(bytes, 0) {
        Some(read) => read,
        None => { return None; },
    };
    let (event_id, at2) = match get_u64(bytes, at1) {
        Some(read) => read,
        None => { return None; },
    };
    let (user_id, at3) = match get_u64(bytes, at2) {
        Some(read) => read,
        None => { return None; },
    };
    let (created_at, at4) = match get_u64(bytes, at3) {
        Some(read) => read,
        None => { return None; },
    };
    let (updated_at, at5) = match get_stamp(bytes, at4) {
        Some(read) => read,
        None => { return None; },
    };
    if at5 != bytes.len() {
        return None;
    }
    Some(Ticket { id, event_id, user_id, created_at, updated_at })
}

} // verus!
