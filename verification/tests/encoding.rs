use e_ticketer_backend::codec::{
    get_ids, get_stamp, get_text, get_u64, ids_len, put_ids, put_stamp, put_text, put_u64,
    text_len,
};
use e_ticketer_backend::layout::{
    decode_event, decode_ticket, decode_user, encode_event, encode_ticket, encode_user, event_len,
    user_len,
};
use e_ticketer_backend::links::{
    add_event_attendee, add_event_ticket, add_user_ticket, attendee_fits, event_ticket_fits,
    has_id, insert_id, remove_event_ticket, remove_id, remove_user_ticket, user_ticket_fits,
};
use e_ticketer_backend::records::{Error, Event, EventPayload, Ticket, TicketPayload, User, UserPayload};
use e_ticketer_backend::service::{
    create_event, create_user, event_payload_fits, event_update_fits, get_event, get_user,
    user_payload_fits, user_update_fits,
};
use e_ticketer_backend::storage::RECORD_BOUND;
use e_ticketer_backend::store::{_get_event, put_event, put_ticket, put_user, remove_event, Store};
use e_ticketer_backend::text::{
    attendee_failed_message, counter_message, decimal_string, deleted_message,
    event_link_failed_message, missing_message, no_ticket_id_message, user_link_failed_message,
    RecordKind,
};
use e_ticketer_backend::tickets::{
    create_ticket, placement_fits, ticket_creation_fits, ticket_update_fits,
};

fn sample_event() -> Event {
    Event {
        id: 258,
        name: "Jazz".to_string(),
        description: "".to_string(),
        date: "2024-05-01".to_string(),
        start_time: "20:00".to_string(),
        location: "Zürich".to_string(),
        attendee_ids: vec![7, 9],
        ticket_ids: vec![11],
        created_at: 1000,
        updated_at: Some(2000),
    }
}

fn sample_user() -> User {
    User {
        id: 3,
        name: "Ada".to_string(),
        email: "ada@x.com".to_string(),
        password: "pw".to_string(),
        event_ids: vec![],
        ticket_ids: vec![4, 5, 6],
        created_at: 12,
        updated_at: None,
    }
}

#[test]
fn decimal_matches_std() {
    for n in [0u64, 1, 9, 10, 11, 99, 100, 101, 1234567890, u64::MAX - 1, u64::MAX] {
        assert_eq!(decimal_string(n), format!("{}", n));
    }
    assert_eq!(decimal_string(18446744073709551615), "18446744073709551615");
    assert_eq!(decimal_string(1000), "1000");
}

#[test]
fn messages_have_their_exact_text() {
    assert_eq!(missing_message(RecordKind::Event, 12), "event id:12 does not exist");
    assert_eq!(missing_message(RecordKind::User, 0), "user id:0 does not exist");
    assert_eq!(missing_message(RecordKind::Ticket, 305), "ticket id:305 does not exist");
    assert_eq!(deleted_message(RecordKind::Event, 12), "event id: 12 deleted");
    assert_eq!(deleted_message(RecordKind::User, 7), "user id: 7 deleted");
    assert_eq!(deleted_message(RecordKind::Ticket, 90), "ticket id: 90 deleted");
    assert_eq!(counter_message(), "Failed to increment ID counter");
    assert_eq!(
        no_ticket_id_message(),
        "Failed to increment ID counter: Failed to increment ID counter"
    );
    assert_eq!(attendee_failed_message(4), "Could not add attendee to event id:4 ");
    assert_eq!(user_link_failed_message(5, 6), "Could not add ticket id:5 to user id:6 ");
    assert_eq!(event_link_failed_message(5, 4), "Could not add ticket id:5 to event id:4 ");
}

#[test]
fn error_gives_its_message() {
    let missing = Error::missing(RecordKind::User, 3);
    assert_eq!(missing, Error::NotFound { msg: "user id:3 does not exist".to_string() });
    assert_eq!(missing.message(), "user id:3 does not exist");
    let stuck = Error::NotCreated { msg: counter_message() };
    assert_eq!(stuck.message(), "Failed to increment ID counter");
}

#[test]
fn default_ticket_is_all_zero() {
    assert_eq!(
        Ticket::default(),
        Ticket { id: 0, event_id: 0, user_id: 0, created_at: 0, updated_at: None }
    );
}

#[test]
fn number_layout_is_little_endian() {
    let mut bytes = vec![0xAA];
    put_u64(&mut bytes, 0x0102030405060708);
    assert_eq!(bytes, vec![0xAA, 8, 7, 6, 5, 4, 3, 2, 1]);
    assert_eq!(get_u64(&bytes, 1), Some((0x0102030405060708, 9)));
    assert_eq!(get_u64(&bytes, 2), None);
    assert_eq!(get_u64(&bytes, 9), None);
}

#[test]
fn text_layout_is_length_then_utf8() {
    let mut bytes = Vec::new();
    put_text(&mut bytes, &"né".to_string());
    assert_eq!(bytes, vec![3, 0, 0, 0, 0, 0, 0, 0, b'n', 0xC3, 0xA9]);
    assert_eq!(text_len(&"né".to_string()), 11);
    assert_eq!(get_text(&bytes, 0), Some(("né".to_string(), 11)));
    bytes.push(b'!');
    assert_eq!(get_text(&bytes, 0), Some(("né".to_string(), 11)));
    let short = vec![3, 0, 0, 0, 0, 0, 0, 0, b'n', 0xC3];
    assert_eq!(get_text(&short, 0), None);
    let broken = vec![2, 0, 0, 0, 0, 0, 0, 0, b'n', 0xC3];
    assert_eq!(get_text(&broken, 0), None);
    let huge = vec![255, 255, 255, 255, 255, 255, 255, 255, b'n'];
    assert_eq!(get_text(&huge, 0), None);
    let empty = vec![0, 0, 0, 0, 0, 0, 0, 0];
    assert_eq!(get_text(&empty, 0), Some((String::new(), 8)));
}

#[test]
fn list_layout_is_length_then_numbers() {
    let mut bytes = Vec::new();
    put_ids(&mut bytes, &vec![1, 256]);
    assert_eq!(
        bytes,
        vec![2, 0, 0, 0, 0, 0, 0, 0, 1, 0, 0, 0, 0, 0, 0, 0, 0, 1, 0, 0, 0, 0, 0, 0]
    );
    assert_eq!(ids_len(&vec![1, 256]), 24);
    assert_eq!(get_ids(&bytes, 0), Some((vec![1, 256], 24)));
    assert_eq!(get_ids(&bytes[..23], 0), None);
    let huge = vec![255, 255, 255, 255, 255, 255, 255, 255];
    assert_eq!(get_ids(&huge, 0), None);
    let mut none = Vec::new();
    put_ids(&mut none, &vec![]);
    assert_eq!(get_ids(&none, 0), Some((vec![], 8)));
}

#[test]
fn stamp_layout_is_flag_then_number() {
    let mut bytes = Vec::new();
    put_stamp(&mut bytes, Some(5));
    assert_eq!(bytes, vec![1, 5, 0, 0, 0, 0, 0, 0, 0]);
    assert_eq!(get_stamp(&bytes, 0), Some((Some(5), 9)));
    let mut none = Vec::new();
    put_stamp(&mut none, None);
    assert_eq!(none, vec![0, 0, 0, 0, 0, 0, 0, 0, 0]);
    assert_eq!(get_stamp(&none, 0), Some((None, 9)));
    assert_eq!(get_stamp(&[2, 0, 0, 0, 0, 0, 0, 0, 0], 0), None);
    assert_eq!(get_stamp(&[1, 0, 0, 0, 0, 0, 0, 0], 0), None);
    assert_eq!(get_stamp(&[0, 9, 9, 9, 9, 9, 9, 9, 9], 0), Some((None, 9)));
}

#[test]
fn event_survives_its_bytes() {
    let event = sample_event();
    let bytes = encode_event(&event);
    assert_eq!(bytes.len() as u128, event_len(&event));
    assert_eq!(event_len(&event), 8 + (8 + 4) + 8 + (8 + 10) + (8 + 5) + (8 + 7) + 24 + 16 + 8 + 9);
    assert_eq!(decode_event(&bytes), Some(event));
    assert_eq!(decode_event(&bytes[..bytes.len() - 1]), None);
    let mut longer = bytes.clone();
    longer.push(0);
    assert_eq!(decode_event(&longer), None);
    assert_eq!(decode_event(&[]), None);
}

#[test]
fn user_survives_its_bytes() {
    let user = sample_user();
    let bytes = encode_user(&user);
    assert_eq!(bytes.len() as u128, user_len(&user));
    assert_eq!(user_len(&user), 8 + 11 + 17 + 10 + 8 + 32 + 8 + 9);
    assert_eq!(decode_user(&bytes), Some(user));
    assert_eq!(decode_user(&bytes[1..]), None);
    assert_eq!(decode_event(&bytes), None);
}

#[test]
fn ticket_survives_its_bytes() {
    let ticket = Ticket { id: 1, event_id: 2, user_id: 3, created_at: 4, updated_at: Some(5) };
    let bytes = encode_ticket(&ticket);
    assert_eq!(bytes.len(), 41);
    assert_eq!(decode_ticket(&bytes), Some(ticket));
    assert_eq!(decode_ticket(&bytes[..40]), None);
    let fresh = Ticket { id: u64::MAX, event_id: 0, user_id: 9, created_at: 4, updated_at: None };
    assert_eq!(decode_ticket(&encode_ticket(&fresh)), Some(fresh));
}

#[test]
fn list_helpers() {
    let mut list = vec![3, 5, 3, 8];
    assert!(has_id(&list, 8));
    assert!(!has_id(&list, 4));
    assert!(!insert_id(&mut list, 5));
    assert_eq!(list, vec![3, 5, 3, 8]);
    assert!(insert_id(&mut list, 4));
    assert_eq!(list, vec![3, 5, 3, 8, 4]);
    assert_eq!(remove_id(&list, 3), vec![5, 8, 4]);
    assert_eq!(remove_id(&list, 9), vec![3, 5, 3, 8, 4]);
    assert_eq!(remove_id(&vec![], 9), Vec::<u64>::new());
}

#[test]
fn store_holds_what_was_put() {
    let mut store = Store::open().unwrap();
    let event = sample_event();
    put_event(&mut store, 1, &event);
    put_event(&mut store, 2, &event);
    let mut other = sample_event();
    other.name = "Blues".to_string();
    put_event(&mut store, 1, &other);
    assert_eq!(_get_event(&store, &1), Some(other));
    assert_eq!(_get_event(&store, &2), Some(event));
    assert_eq!(_get_event(&store, &258), None);
    remove_event(&mut store, 1);
    remove_event(&mut store, 5);
    assert_eq!(_get_event(&store, &1), None);
    assert_eq!(_get_event(&store, &2), Some(sample_event()));
    put_user(&mut store, 2, &sample_user());
    assert_eq!(get_user(&store, 2), Ok(sample_user()));
    assert_eq!(get_event(&store, 2), Ok(sample_event()));
}

#[test]
fn links_are_added_once_and_removed_everywhere() {
    let mut store = Store::open().unwrap();
    let mut user = sample_user();
    user.ticket_ids = vec![4, 5, 4];
    put_user(&mut store, 3, &user);
    put_event(&mut store, 258, &sample_event());

    assert_eq!(add_event_attendee(&mut store, 258, 9, 50), Ok(()));
    assert_eq!(get_event(&store, 258), Ok(sample_event()));
    assert_eq!(add_event_attendee(&mut store, 258, 10, 51), Ok(()));
    let event = get_event(&store, 258).unwrap();
    assert_eq!(event.attendee_ids, vec![7, 9, 10]);
    assert_eq!(event.updated_at, Some(51));
    assert_eq!(add_event_ticket(&mut store, 258, 11, 52), Ok(()));
    assert_eq!(get_event(&store, 258).unwrap().updated_at, Some(51));
    assert_eq!(add_event_ticket(&mut store, 258, 12, 53), Ok(()));
    assert_eq!(get_event(&store, 258).unwrap().ticket_ids, vec![11, 12]);
    assert_eq!(remove_event_ticket(&mut store, 258, 11, 54), Ok(()));
    assert_eq!(get_event(&store, 258).unwrap().ticket_ids, vec![12]);
    assert_eq!(remove_event_ticket(&mut store, 258, 77, 55), Ok(()));
    assert_eq!(get_event(&store, 258).unwrap().ticket_ids, vec![12]);
    assert_eq!(get_event(&store, 258).unwrap().updated_at, Some(55));

    assert_eq!(add_user_ticket(&mut store, 3, 5, 56), Ok(()));
    assert_eq!(get_user(&store, 3).unwrap().updated_at, None);
    assert_eq!(add_user_ticket(&mut store, 3, 6, 57), Ok(()));
    assert_eq!(get_user(&store, 3).unwrap().ticket_ids, vec![4, 5, 4, 6]);
    assert_eq!(remove_user_ticket(&mut store, 3, 4, 58), Ok(()));
    assert_eq!(get_user(&store, 3).unwrap().ticket_ids, vec![5, 6]);
    assert_eq!(get_user(&store, 3).unwrap().updated_at, Some(58));

    let missing_event = Err(Error::NotFound { msg: "event id:1 does not exist".to_string() });
    let missing_user = Err(Error::NotFound { msg: "user id:1 does not exist".to_string() });
    assert_eq!(add_event_attendee(&mut store, 1, 1, 60), missing_event);
    assert_eq!(add_event_ticket(&mut store, 1, 1, 60), missing_event);
    assert_eq!(remove_event_ticket(&mut store, 1, 1, 60), missing_event);
    assert_eq!(add_user_ticket(&mut store, 1, 1, 60), missing_user);
    assert_eq!(remove_user_ticket(&mut store, 1, 1, 60), missing_user);
}

#[test]
fn payloads_that_do_not_fit_are_told_apart() {
    assert_eq!(RECORD_BOUND, 1024);
    let room = 1024 - (8 + 5 * 8 + 2 * 8 + 8 + 9);
    let mut payload = EventPayload {
        name: "x".repeat(room),
        description: String::new(),
        date: String::new(),
        start_time: String::new(),
        location: String::new(),
    };
    assert!(event_payload_fits(&payload));
    let mut store = Store::open().unwrap();
    let event = create_event(&mut store, payload.clone(), 1).unwrap();
    assert_eq!(get_event(&store, event.id), Ok(event));
    assert!(event_update_fits(&store, 1, &payload, 2));
    payload.location.push('y');
    assert!(!event_payload_fits(&payload));
    assert!(!event_update_fits(&store, 1, &payload, 2));
    assert!(event_update_fits(&store, 2, &payload, 2));

    let room = 1024 - (8 + 3 * 8 + 2 * 8 + 8 + 9);
    let mut payload = UserPayload {
        name: String::new(),
        email: "é".repeat(room / 2),
        password: "p".repeat(room % 2),
    };
    assert!(user_payload_fits(&payload));
    let user = create_user(&mut store, payload.clone(), 3).unwrap();
    assert_eq!(get_user(&store, user.id), Ok(user));
    assert!(user_update_fits(&store, 2, &payload, 4));
    payload.name.push('z');
    assert!(!user_payload_fits(&payload));
    assert!(!user_update_fits(&store, 2, &payload, 4));
}

#[test]
fn full_records_take_no_ticket() {
    let mut store = Store::open().unwrap();
    let room = 1024 - (8 + 5 * 8 + 2 * 8 + 8 + 9);
    let mut payload = EventPayload {
        name: "x".repeat(room - 16),
        description: String::new(),
        date: String::new(),
        start_time: String::new(),
        location: String::new(),
    };
    let roomy = create_event(&mut store, payload.clone(), 1).unwrap();
    payload.name.push('x');
    let tight = create_event(&mut store, payload, 2).unwrap();
    let user = create_user(
        &mut store,
        UserPayload { name: "U".to_string(), email: String::new(), password: String::new() },
        3,
    )
    .unwrap();
    let other = create_user(
        &mut store,
        UserPayload { name: "V".to_string(), email: String::new(), password: String::new() },
        4,
    )
    .unwrap();
    assert!(!ticket_creation_fits(
        &store,
        &TicketPayload { event_id: tight.id, user_id: user.id },
        5
    ));
    assert!(ticket_creation_fits(&store, &TicketPayload { event_id: tight.id, user_id: 99 }, 5));
    assert!(ticket_creation_fits(&store, &TicketPayload { event_id: 98, user_id: user.id }, 5));
    let payload = TicketPayload { event_id: roomy.id, user_id: user.id };
    assert!(ticket_creation_fits(&store, &payload, 5));
    let ticket = create_ticket(&mut store, payload, 5).unwrap();
    assert_eq!(encode_event(&get_event(&store, roomy.id).unwrap()).len(), 1024);
    assert!(!ticket_creation_fits(&store, &payload, 6));
    assert!(!ticket_creation_fits(
        &store,
        &TicketPayload { event_id: roomy.id, user_id: other.id },
        6
    ));

    let to_tight = TicketPayload { event_id: tight.id, user_id: user.id };
    assert!(ticket_update_fits(&store, ticket.id, &to_tight, 7));
    put_ticket(&mut store, 50, &Ticket { id: 51, event_id: 0, user_id: 0, created_at: 0, updated_at: None });
    assert!(ticket_update_fits(&store, 50, &TicketPayload { event_id: 0, user_id: user.id }, 7));
    let mut event = get_event(&store, tight.id).unwrap();
    event.ticket_ids = vec![60];
    put_event(&mut store, tight.id, &event);
    assert!(!ticket_update_fits(&store, ticket.id, &to_tight, 7));
    assert!(ticket_update_fits(&store, ticket.id, &payload, 7));
    assert!(ticket_update_fits(&store, 77, &to_tight, 7));
}

#[test]
fn a_link_fits_while_eight_bytes_are_left() {
    let mut store = Store::open().unwrap();
    let mut event = sample_event();
    event.description = "d".repeat(1024 - 8 - encode_event(&event).len());
    assert_eq!(encode_event(&event).len(), 1016);
    put_event(&mut store, 1, &event);
    let mut user = sample_user();
    user.password = "p".repeat(1024 - 7 - encode_user(&user).len() + 2);
    assert_eq!(encode_user(&user).len(), 1017);
    put_user(&mut store, 2, &user);

    assert!(attendee_fits(&store, 1, 30, 5));
    assert!(event_ticket_fits(&store, 1, 30, 5));
    assert!(attendee_fits(&store, 9, 30, 5));
    assert!(event_ticket_fits(&store, 9, 30, 5));
    assert!(!user_ticket_fits(&store, 2, 30, 5));
    assert!(user_ticket_fits(&store, 2, 4, 5));
    assert!(user_ticket_fits(&store, 9, 30, 5));
    assert!(!placement_fits(&store, 30, &TicketPayload { event_id: 1, user_id: 2 }, 5));
    assert!(placement_fits(&store, 30, &TicketPayload { event_id: 1, user_id: 3 }, 5));
    assert!(!placement_fits(&store, 11, &TicketPayload { event_id: 1, user_id: 2 }, 5));
    assert!(placement_fits(&store, 4, &TicketPayload { event_id: 1, user_id: 2 }, 5) == false);
    assert!(placement_fits(&store, 30, &TicketPayload { event_id: 1, user_id: 7 }, 5));
    assert!(placement_fits(&store, 30, &TicketPayload { event_id: 3, user_id: 2 }, 5));

    assert_eq!(add_event_attendee(&mut store, 1, 30, 5), Ok(()));
    assert_eq!(encode_event(&get_event(&store, 1).unwrap()).len(), 1024);
    assert!(!attendee_fits(&store, 1, 31, 6));
    assert!(attendee_fits(&store, 1, 30, 6));
    assert!(!event_ticket_fits(&store, 1, 31, 6));
    assert!(event_ticket_fits(&store, 1, 11, 6));
}
