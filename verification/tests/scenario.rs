use ic_stable_structures::cell::ValueError;
use e_ticketer_backend::listings::{get_event_attendees, get_event_tickets, get_user_tickets};
use e_ticketer_backend::records::{
    AssociationError, Error, Event, EventPayload, Ticket, TicketPayload, User, UserPayload,
};
use e_ticketer_backend::service::{
    create_event, create_user, delete_event, delete_user, event_payload_fits, event_update_fits,
    get_event, get_user, update_event, update_user, user_payload_fits, user_update_fits,
};
use e_ticketer_backend::store::{
    _get_event, _get_ticket, _get_user, allocation_outcome, get_all_events, increment_id_counter,
    last_id, Store,
};
use e_ticketer_backend::tickets::{
    create_ticket, delete_ticket, get_ticket, place_ticket, ticket_creation_fits,
    ticket_update_fits, update_ticket,
};

fn event_payload(name: &str, date: &str) -> EventPayload {
    EventPayload {
        name: name.to_string(),
        description: "a gathering".to_string(),
        date: date.to_string(),
        start_time: "19:30".to_string(),
        location: "Main Hall".to_string(),
    }
}

fn user_payload(name: &str, email: &str) -> UserPayload {
    UserPayload { name: name.to_string(), email: email.to_string(), password: "secret".to_string() }
}

fn not_found(msg: &str) -> Error {
    Error::NotFound { msg: msg.to_string() }
}

#[test]
fn a_new_store_is_empty() {
    let store = Store::open().unwrap();
    assert_eq!(last_id(&store), 0);
    assert!(get_all_events(&store).is_empty());
    assert_eq!(_get_event(&store, &1), None);
    assert_eq!(_get_user(&store, &1), None);
    assert_eq!(_get_ticket(&store, &1), None);
}

#[test]
fn two_stores_share_nothing() {
    let mut first = Store::open().unwrap();
    let second = Store::open().unwrap();
    create_event(&mut first, event_payload("Only here", "2024-05-01"), 5).unwrap();
    assert_eq!(get_all_events(&first).len(), 1);
    assert!(get_all_events(&second).is_empty());
    assert_eq!(last_id(&second), 0);
}

#[test]
fn ticket_scenario_with_dangling_event() {
    let mut store = Store::open().unwrap();
    let event = create_event(&mut store, event_payload("Concert", "2024-05-01"), 100).unwrap();
    let user = create_user(&mut store, user_payload("Alice", "alice@x.com"), 101).unwrap();
    assert_eq!(event.id, 1);
    assert_eq!(event.date, "2024-05-01");
    assert_eq!(user.id, 2);
    assert_eq!(user.email, "alice@x.com");

    let payload = TicketPayload { event_id: event.id, user_id: user.id };
    assert!(ticket_creation_fits(&store, &payload, 102));
    let ticket = create_ticket(&mut store, payload, 102).unwrap();
    assert_eq!(
        ticket,
        Ticket { id: 3, event_id: 1, user_id: 2, created_at: 102, updated_at: None }
    );

    let attendees = get_event_attendees(&store, event.id).unwrap();
    assert_eq!(attendees.len(), 1);
    assert_eq!(attendees[0].id, user.id);
    assert_eq!(attendees[0].ticket_ids, vec![3]);
    assert_eq!(attendees[0].updated_at, Some(102));
    assert_eq!(get_user_tickets(&store, user.id), Ok(vec![ticket]));
    assert_eq!(get_event_tickets(&store, event.id), Ok(vec![ticket]));

    assert_eq!(delete_event(&mut store, event.id), Ok("event id: 1 deleted".to_string()));
    assert_eq!(get_user_tickets(&store, user.id), Ok(vec![ticket]));
    assert_eq!(
        get_event_tickets(&store, event.id),
        Err(not_found("event id:1 does not exist"))
    );
    assert_eq!(
        get_event_attendees(&store, event.id),
        Err(not_found("event id:1 does not exist"))
    );
    assert_eq!(
        delete_ticket(&mut store, ticket.id, 103),
        Err(not_found("event id:1 does not exist"))
    );
    assert_eq!(get_ticket(&store, ticket.id), Ok(ticket));
    assert_eq!(get_user(&store, user.id).unwrap().ticket_ids, Vec::<u64>::new());
}

#[test]
fn created_event_is_read_back() {
    let mut store = Store::open().unwrap();
    let payload = event_payload("Fête de la musique", "2024-06-21");
    assert!(event_payload_fits(&payload));
    let created = create_event(&mut store, payload, 77).unwrap();
    assert_eq!(
        created,
        Event {
            id: 1,
            name: "Fête de la musique".to_string(),
            description: "a gathering".to_string(),
            date: "2024-06-21".to_string(),
            start_time: "19:30".to_string(),
            location: "Main Hall".to_string(),
            attendee_ids: vec![],
            ticket_ids: vec![],
            created_at: 77,
            updated_at: None,
        }
    );
    assert_eq!(get_event(&store, created.id), Ok(created.clone()));
    assert_eq!(_get_event(&store, &created.id), Some(created));
}

#[test]
fn created_user_is_read_back() {
    let mut store = Store::open().unwrap();
    let payload = user_payload("Bob", "bob@x.com");
    assert!(user_payload_fits(&payload));
    let created = create_user(&mut store, payload, 9).unwrap();
    assert_eq!(
        created,
        User {
            id: 1,
            name: "Bob".to_string(),
            email: "bob@x.com".to_string(),
            password: "secret".to_string(),
            event_ids: vec![],
            ticket_ids: vec![],
            created_at: 9,
            updated_at: None,
        }
    );
    assert_eq!(get_user(&store, 1), Ok(created.clone()));
    assert_eq!(_get_user(&store, &1), Some(created));
}

#[test]
fn created_ticket_is_read_back() {
    let mut store = Store::open().unwrap();
    let event = create_event(&mut store, event_payload("E", "d"), 1).unwrap();
    let user = create_user(&mut store, user_payload("U", "u@x"), 2).unwrap();
    let ticket =
        create_ticket(&mut store, TicketPayload { event_id: event.id, user_id: user.id }, 3)
            .unwrap();
    assert_eq!(get_ticket(&store, ticket.id), Ok(ticket));
    assert_eq!(_get_ticket(&store, &ticket.id), Some(ticket));
}

#[test]
fn missing_records_are_named() {
    let store = Store::open().unwrap();
    assert_eq!(get_event(&store, 7), Err(not_found("event id:7 does not exist")));
    assert_eq!(get_user(&store, 18446744073709551615), Err(not_found(
        "user id:18446744073709551615 does not exist"
    )));
    assert_eq!(get_ticket(&store, 0), Err(not_found("ticket id:0 does not exist")));
    assert_eq!(get_event_attendees(&store, 4), Err(not_found("event id:4 does not exist")));
    assert_eq!(get_event_tickets(&store, 5), Err(not_found("event id:5 does not exist")));
    assert_eq!(get_user_tickets(&store, 6), Err(not_found("user id:6 does not exist")));
}

#[test]
fn ids_increase_across_kinds_and_deletes() {
    let mut store = Store::open().unwrap();
    let a = create_event(&mut store, event_payload("A", "d"), 1).unwrap();
    let b = create_user(&mut store, user_payload("B", "b@x"), 2).unwrap();
    let c = create_ticket(&mut store, TicketPayload { event_id: a.id, user_id: b.id }, 3).unwrap();
    assert_eq!((a.id, b.id, c.id), (1, 2, 3));
    delete_ticket(&mut store, c.id, 4).unwrap();
    delete_user(&mut store, b.id).unwrap();
    delete_event(&mut store, a.id).unwrap();
    let d = create_event(&mut store, event_payload("D", "d"), 5).unwrap();
    assert_eq!(d.id, 4);
    assert_eq!(increment_id_counter(&mut store), Ok(5));
    assert_eq!(last_id(&store), 5);
    let e = create_user(&mut store, user_payload("E", "e@x"), 6).unwrap();
    assert_eq!(e.id, 6);
}

#[test]
fn allocation_fails_where_the_counter_does_not_commit() {
    assert_eq!(allocation_outcome(8, Ok(7)), Ok(8));
    assert_eq!(
        allocation_outcome(8, Err(ValueError::ValueTooLarge { value_size: 8 })),
        Err(Error::NotCreated { msg: "Failed to increment ID counter".to_string() })
    );
}

#[test]
fn update_event_overwrites_payload_fields_only() {
    let mut store = Store::open().unwrap();
    let event = create_event(&mut store, event_payload("Old", "2024-01-01"), 10).unwrap();
    let user = create_user(&mut store, user_payload("U", "u@x"), 11).unwrap();
    create_ticket(&mut store, TicketPayload { event_id: event.id, user_id: user.id }, 12).unwrap();
    let change = EventPayload {
        name: "New".to_string(),
        description: "changed".to_string(),
        date: "2025-02-02".to_string(),
        start_time: "08:00".to_string(),
        location: "Annex".to_string(),
    };
    assert!(event_update_fits(&store, event.id, &change, 20));
    let updated = update_event(&mut store, event.id, change, 20).unwrap();
    assert_eq!(
        updated,
        Event {
            id: 1,
            name: "New".to_string(),
            description: "changed".to_string(),
            date: "2025-02-02".to_string(),
            start_time: "08:00".to_string(),
            location: "Annex".to_string(),
            attendee_ids: vec![2],
            ticket_ids: vec![3],
            created_at: 10,
            updated_at: Some(20),
        }
    );
    assert_eq!(get_event(&store, 1), Ok(updated));
    assert_eq!(
        update_event(&mut store, 9, event_payload("x", "y"), 21),
        Err(not_found("event id:9 does not exist"))
    );
}

#[test]
fn update_user_overwrites_payload_fields_only() {
    let mut store = Store::open().unwrap();
    let event = create_event(&mut store, event_payload("E", "d"), 10).unwrap();
    let user = create_user(&mut store, user_payload("U", "u@x"), 11).unwrap();
    create_ticket(&mut store, TicketPayload { event_id: event.id, user_id: user.id }, 12).unwrap();
    let change = UserPayload {
        name: "V".to_string(),
        email: "v@y".to_string(),
        password: "other".to_string(),
    };
    assert!(user_update_fits(&store, user.id, &change, 30));
    let updated = update_user(&mut store, user.id, change, 30).unwrap();
    assert_eq!(
        updated,
        User {
            id: 2,
            name: "V".to_string(),
            email: "v@y".to_string(),
            password: "other".to_string(),
            event_ids: vec![],
            ticket_ids: vec![3],
            created_at: 11,
            updated_at: Some(30),
        }
    );
    assert_eq!(get_user(&store, 2), Ok(updated));
    assert_eq!(
        update_user(&mut store, 5, user_payload("x", "y"), 31),
        Err(not_found("user id:5 does not exist"))
    );
}

#[test]
fn delete_twice_reports_not_found() {
    let mut store = Store::open().unwrap();
    let event = create_event(&mut store, event_payload("E", "d"), 1).unwrap();
    let user = create_user(&mut store, user_payload("U", "u@x"), 2).unwrap();
    let ticket =
        create_ticket(&mut store, TicketPayload { event_id: event.id, user_id: user.id }, 3)
            .unwrap();
    assert_eq!(delete_ticket(&mut store, ticket.id, 4), Ok("ticket id: 3 deleted".to_string()));
    assert_eq!(get_ticket(&store, 3), Err(not_found("ticket id:3 does not exist")));
    assert_eq!(delete_ticket(&mut store, 3, 5), Err(not_found("ticket id:3 does not exist")));
    assert_eq!(delete_user(&mut store, user.id), Ok("user id: 2 deleted".to_string()));
    assert_eq!(get_user(&store, 2), Err(not_found("user id:2 does not exist")));
    assert_eq!(delete_user(&mut store, 2), Err(not_found("user id:2 does not exist")));
    assert_eq!(delete_event(&mut store, event.id), Ok("event id: 1 deleted".to_string()));
    assert_eq!(get_event(&store, 1), Err(not_found("event id:1 does not exist")));
    assert_eq!(delete_event(&mut store, 1), Err(not_found("event id:1 does not exist")));
}

#[test]
fn ticket_creation_links_event_and_user() {
    let mut store = Store::open().unwrap();
    let event = create_event(&mut store, event_payload("E", "d"), 1).unwrap();
    let user = create_user(&mut store, user_payload("U", "u@x"), 2).unwrap();
    let payload = TicketPayload { event_id: event.id, user_id: user.id };
    let first = create_ticket(&mut store, payload, 3).unwrap();
    let second = create_ticket(&mut store, payload, 4).unwrap();
    let event = get_event(&store, event.id).unwrap();
    let user = get_user(&store, user.id).unwrap();
    assert_eq!(event.attendee_ids, vec![2]);
    assert_eq!(event.ticket_ids, vec![first.id, second.id]);
    assert_eq!(event.updated_at, Some(4));
    assert_eq!(user.ticket_ids, vec![first.id, second.id]);
    assert_eq!(user.event_ids, Vec::<u64>::new());
    assert_eq!(user.updated_at, Some(4));
}

#[test]
fn ticket_for_missing_event_is_kept_and_reported() {
    let mut store = Store::open().unwrap();
    let user = create_user(&mut store, user_payload("U", "u@x"), 1).unwrap();
    let result = create_ticket(&mut store, TicketPayload { event_id: 40, user_id: user.id }, 2);
    let ticket = Ticket { id: 2, event_id: 40, user_id: 1, created_at: 2, updated_at: None };
    assert_eq!(
        result,
        Err(AssociationError::Failed {
            msg: "Could not add attendee to event id:40 ".to_string(),
            ticket,
        })
    );
    assert_eq!(get_ticket(&store, 2), Ok(ticket));
    assert_eq!(get_user(&store, 1).unwrap().ticket_ids, Vec::<u64>::new());
}

#[test]
fn ticket_for_missing_user_is_kept_and_reported() {
    let mut store = Store::open().unwrap();
    let event = create_event(&mut store, event_payload("E", "d"), 1).unwrap();
    let result = create_ticket(&mut store, TicketPayload { event_id: event.id, user_id: 50 }, 2);
    let ticket = Ticket { id: 2, event_id: 1, user_id: 50, created_at: 2, updated_at: None };
    assert_eq!(
        result,
        Err(AssociationError::Failed {
            msg: "Could not add ticket id:2 to user id:50 ".to_string(),
            ticket,
        })
    );
    assert_eq!(get_ticket(&store, 2), Ok(ticket));
    let event = get_event(&store, 1).unwrap();
    assert_eq!(event.attendee_ids, vec![50]);
    assert_eq!(event.ticket_ids, Vec::<u64>::new());
    assert_eq!(get_event_attendees(&store, 1), Err(not_found("user id:50 does not exist")));
}

#[test]
fn ticket_moves_to_another_user() {
    let mut store = Store::open().unwrap();
    let event = create_event(&mut store, event_payload("E", "d"), 1).unwrap();
    let first = create_user(&mut store, user_payload("U1", "1@x"), 2).unwrap();
    let second = create_user(&mut store, user_payload("U2", "2@x"), 3).unwrap();
    let ticket =
        create_ticket(&mut store, TicketPayload { event_id: event.id, user_id: first.id }, 4)
            .unwrap();
    let before = get_event(&store, event.id).unwrap();
    let change = TicketPayload { event_id: event.id, user_id: second.id };
    assert!(ticket_update_fits(&store, ticket.id, &change, 9));
    let moved = update_ticket(&mut store, ticket.id, change, 9).unwrap();
    assert_eq!(
        moved,
        Ticket { id: 4, event_id: 1, user_id: 3, created_at: 4, updated_at: Some(9) }
    );
    assert_eq!(get_ticket(&store, 4), Ok(moved));
    assert_eq!(get_user(&store, first.id).unwrap().ticket_ids, Vec::<u64>::new());
    assert_eq!(get_user(&store, first.id).unwrap().updated_at, Some(9));
    assert_eq!(get_user(&store, second.id).unwrap().ticket_ids, vec![4]);
    assert_eq!(get_event(&store, event.id), Ok(before));
}

#[test]
fn ticket_moves_to_another_event() {
    let mut store = Store::open().unwrap();
    let first = create_event(&mut store, event_payload("E1", "d"), 1).unwrap();
    let second = create_event(&mut store, event_payload("E2", "d"), 2).unwrap();
    let user = create_user(&mut store, user_payload("U", "u@x"), 3).unwrap();
    let ticket =
        create_ticket(&mut store, TicketPayload { event_id: first.id, user_id: user.id }, 4)
            .unwrap();
    let moved = update_ticket(
        &mut store,
        ticket.id,
        TicketPayload { event_id: second.id, user_id: user.id },
        8,
    )
    .unwrap();
    assert_eq!(moved.event_id, second.id);
    assert_eq!(get_event(&store, first.id).unwrap().ticket_ids, Vec::<u64>::new());
    assert_eq!(get_event(&store, first.id).unwrap().attendee_ids, vec![3]);
    assert_eq!(get_event(&store, second.id).unwrap().ticket_ids, vec![4]);
    assert_eq!(get_event(&store, second.id).unwrap().attendee_ids, Vec::<u64>::new());
    assert_eq!(get_user(&store, user.id).unwrap().ticket_ids, vec![4]);
}

#[test]
fn ticket_update_stops_at_the_first_missing_record() {
    let mut store = Store::open().unwrap();
    let event = create_event(&mut store, event_payload("E", "d"), 1).unwrap();
    let user = create_user(&mut store, user_payload("U", "u@x"), 2).unwrap();
    let ticket =
        create_ticket(&mut store, TicketPayload { event_id: event.id, user_id: user.id }, 3)
            .unwrap();
    assert_eq!(
        update_ticket(&mut store, 99, TicketPayload { event_id: 1, user_id: 2 }, 4),
        Err(not_found("ticket id:99 does not exist"))
    );
    assert_eq!(
        update_ticket(&mut store, ticket.id, TicketPayload { event_id: 1, user_id: 70 }, 5),
        Err(not_found("user id:70 does not exist"))
    );
    assert_eq!(get_user(&store, 2).unwrap().ticket_ids, Vec::<u64>::new());
    assert_eq!(get_ticket(&store, ticket.id), Ok(ticket));
    assert_eq!(
        update_ticket(&mut store, ticket.id, TicketPayload { event_id: 80, user_id: 2 }, 6),
        Err(not_found("event id:80 does not exist"))
    );
    assert_eq!(get_event(&store, 1).unwrap().ticket_ids, Vec::<u64>::new());
    assert_eq!(get_ticket(&store, ticket.id), Ok(ticket));
}

#[test]
fn deleted_ticket_leaves_both_lists() {
    let mut store = Store::open().unwrap();
    let event = create_event(&mut store, event_payload("E", "d"), 1).unwrap();
    let user = create_user(&mut store, user_payload("U", "u@x"), 2).unwrap();
    let payload = TicketPayload { event_id: event.id, user_id: user.id };
    let gone = create_ticket(&mut store, payload, 3).unwrap();
    let kept = create_ticket(&mut store, payload, 4).unwrap();
    delete_ticket(&mut store, gone.id, 5).unwrap();
    let event = get_event(&store, event.id).unwrap();
    let user = get_user(&store, user.id).unwrap();
    assert_eq!(event.ticket_ids, vec![kept.id]);
    assert_eq!(event.attendee_ids, vec![2]);
    assert_eq!(event.updated_at, Some(5));
    assert_eq!(user.ticket_ids, vec![kept.id]);
    assert_eq!(user.updated_at, Some(5));
    assert_eq!(get_event_tickets(&store, 1), Ok(vec![kept]));
}

#[test]
fn deleting_a_ticket_of_a_deleted_user_fails_and_keeps_it() {
    let mut store = Store::open().unwrap();
    let event = create_event(&mut store, event_payload("E", "d"), 1).unwrap();
    let user = create_user(&mut store, user_payload("U", "u@x"), 2).unwrap();
    let ticket =
        create_ticket(&mut store, TicketPayload { event_id: event.id, user_id: user.id }, 3)
            .unwrap();
    delete_user(&mut store, user.id).unwrap();
    assert_eq!(
        delete_ticket(&mut store, ticket.id, 4),
        Err(not_found("user id:2 does not exist"))
    );
    assert_eq!(get_ticket(&store, ticket.id), Ok(ticket));
    assert_eq!(get_event(&store, 1).unwrap().ticket_ids, vec![3]);
    assert_eq!(get_event_attendees(&store, 1), Err(not_found("user id:2 does not exist")));
}

#[test]
fn events_are_listed_by_ascending_id() {
    let mut store = Store::open().unwrap();
    let mut expected = Vec::new();
    for i in 0..40u64 {
        if i % 3 == 1 {
            create_user(&mut store, user_payload("U", "u@x"), i).unwrap();
        } else {
            expected.push(create_event(&mut store, event_payload("E", "d"), i).unwrap());
        }
    }
    delete_event(&mut store, expected[5].id).unwrap();
    expected.remove(5);
    assert_eq!(get_all_events(&store), expected);
}

#[test]
fn placing_a_ticket_twice_adds_it_once() {
    let mut store = Store::open().unwrap();
    let event = create_event(&mut store, event_payload("E", "d"), 1).unwrap();
    let user = create_user(&mut store, user_payload("U", "u@x"), 2).unwrap();
    let payload = TicketPayload { event_id: event.id, user_id: user.id };
    let first = place_ticket(&mut store, 10, payload, 3).unwrap();
    let again = place_ticket(&mut store, 10, payload, 4).unwrap();
    assert_eq!(first.created_at, 3);
    assert_eq!(again.created_at, 4);
    let event = get_event(&store, 1).unwrap();
    assert_eq!(event.ticket_ids, vec![10]);
    assert_eq!(event.attendee_ids, vec![2]);
    assert_eq!(event.updated_at, Some(3));
    assert_eq!(get_user(&store, 2).unwrap().ticket_ids, vec![10]);
    assert_eq!(get_ticket(&store, 10), Ok(again));
}
