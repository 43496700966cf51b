use reservation::{
    check_confirm_id, one_row, RangeEnd, prepare_query, prepare_reserve, reserved, str_to_option, string_to_option,
    validate_id, Error, ProducerAction, ProducerEvent, QueryItem, QueryProducer, Reservation,
    ReservationQuery, ReservationStatus, Timestamp,
};

fn kyros() -> Reservation {
    Reservation::new_pending(
        "kyros",
        "ocean-view-room-417",
        Timestamp::new(1672005600, 0),
        Timestamp::new(1672254000, 0),
        "I'll arrive at 3pm. Please help to upgrade to executive room if possible.",
    )
}

fn alice() -> Reservation {
    Reservation::new_pending(
        "alice",
        "ixia-test-1",
        Timestamp::new(1674684000, 0),
        Timestamp::new(1677351600, 0),
        "I need to book this for xyz project for a month.",
    )
}

#[test]
fn reserve_success_keeps_every_field() {
    let r = kyros();
    let row = prepare_reserve(&r).unwrap();
    assert_eq!(row.user_id, "kyros");
    assert_eq!(row.resource_id, "ocean-view-room-417");
    assert_eq!(row.status, ReservationStatus::Pending);
    assert_eq!(row.timespan.start, Timestamp::new(1672005600, 0));
    assert_eq!(row.timespan.end, Timestamp::new(1672254000, 0));
    let done = reserved(r.clone(), 1);
    assert!(done.id > 0);
    assert_eq!(Reservation { id: 0, ..done.clone() }, r);
}

#[test]
fn reserve_stores_blocked_and_defaults_the_rest_to_pending() {
    let mut r = kyros();
    r.set_status(ReservationStatus::Blocked);
    assert_eq!(prepare_reserve(&r).unwrap().status, ReservationStatus::Blocked);
    r.set_status(ReservationStatus::Unknown);
    assert_eq!(prepare_reserve(&r).unwrap().status, ReservationStatus::Pending);
    assert_eq!(reserved(r.clone(), 3).status, ReservationStatus::Pending as i32);
    r.status = 42;
    assert_eq!(prepare_reserve(&r).unwrap().status, ReservationStatus::Pending);
}

#[test]
fn reserve_rejects_invalid_input_in_order() {
    let mut r = kyros();
    r.user_id = String::new();
    r.resource_id = String::new();
    assert_eq!(prepare_reserve(&r), Err(Error::InvalidUserId(String::new())));
    r.user_id = "kyros".to_string();
    assert_eq!(prepare_reserve(&r), Err(Error::InvalidResourceId(String::new())));
    r.resource_id = "room".to_string();
    r.end = r.start;
    assert_eq!(prepare_reserve(&r), Err(Error::InvalidTime));
    r.end = None;
    assert_eq!(prepare_reserve(&r), Err(Error::InvalidTime));
}

#[test]
fn reserve_then_get_round_trips() {
    let r = alice();
    let row = prepare_reserve(&r).unwrap();
    let returned = reserved(r, 7);
    let stored = Reservation {
        id: 7,
        user_id: row.user_id.clone(),
        status: row.status as i32,
        resource_id: row.resource_id.clone(),
        start: Some(row.timespan.start),
        end: Some(row.timespan.end),
        note: row.note.clone(),
    };
    assert_eq!(one_row(Some(stored)), Ok(returned));
}

#[test]
fn confirm_pending_then_not_found() {
    let mut r = reserved(alice(), 1);
    assert_eq!(check_confirm_id(r.id), Ok(()));
    r.set_status(ReservationStatus::Confirmed);
    let first = one_row(Some(r.clone())).unwrap();
    assert_eq!(first.status, ReservationStatus::Confirmed as i32);
    assert_eq!(one_row(None), Err(Error::NotFound));
    assert_eq!(check_confirm_id(0), Err(Error::InvalidReservationId(0)));
}

#[test]
fn update_note_returns_the_new_note() {
    let mut r = reserved(alice(), 1);
    r.note = "hello world".to_string();
    assert_eq!(one_row(Some(r)).unwrap().note, "hello world");
}

#[test]
fn ids_must_be_positive() {
    assert_eq!(validate_id(1), Ok(()));
    assert_eq!(validate_id(0), Err(Error::InvalidReservationId(0)));
    assert_eq!(validate_id(-3), Err(Error::InvalidReservationId(-3)));
}

#[test]
fn query_by_user_prepares_routine_arguments() {
    let q = ReservationQuery {
        user_id: "alice".to_string(),
        resource_id: String::new(),
        status: ReservationStatus::Pending as i32,
        start: Some(Timestamp::new(1635804000, 0)),
        end: Some(Timestamp::new(1704049200, 0)),
        page: 0,
        page_size: 0,
        desc: false,
    };
    let p = prepare_query(&q).unwrap();
    assert_eq!(p.user_id, Some("alice".to_string()));
    assert_eq!(p.resource_id, None);
    assert_eq!(p.status, ReservationStatus::Pending);
    assert_eq!(p.start, Timestamp::new(1635804000, 0));
    assert_eq!(p.end, Timestamp::new(1704049200, 0));
    let confirmed = ReservationQuery { status: ReservationStatus::Confirmed as i32, ..q.clone() };
    assert_eq!(prepare_query(&confirmed).unwrap().status, ReservationStatus::Confirmed);
    let unknown = ReservationQuery { status: 0, ..q.clone() };
    assert_eq!(prepare_query(&unknown).unwrap().status, ReservationStatus::Pending);
    let reversed = ReservationQuery { start: q.end, end: q.start, ..q };
    assert_eq!(prepare_query(&reversed), Err(Error::InvalidTime));
}

#[test]
fn empty_strings_mean_no_condition() {
    assert_eq!(str_to_option(""), None);
    assert_eq!(str_to_option("a"), Some("a"));
    assert_eq!(string_to_option(""), None);
    assert_eq!(string_to_option("b"), Some("b".to_string()));
}

#[test]
fn producer_stops_sending_once_consumer_is_gone() {
    let mut p = QueryProducer::new();
    assert_eq!(p.step(ProducerEvent::Fetched(QueryItem::Notice)), ProducerAction::Log);
    assert_eq!(p.step(ProducerEvent::Fetched(QueryItem::Row)), ProducerAction::Send);
    assert_eq!(p.step(ProducerEvent::Delivered), ProducerAction::Fetch);
    assert_eq!(p.step(ProducerEvent::Fetched(QueryItem::Row)), ProducerAction::Send);
    assert_eq!(p.step(ProducerEvent::Rejected), ProducerAction::Close);
    assert_eq!(p.step(ProducerEvent::Fetched(QueryItem::Row)), ProducerAction::Close);
    assert_eq!(p.step(ProducerEvent::Delivered), ProducerAction::Close);
}

#[test]
fn producer_stops_after_forwarding_a_failure() {
    let mut p = QueryProducer::new();
    assert_eq!(p.step(ProducerEvent::Fetched(QueryItem::Failure)), ProducerAction::Send);
    assert_eq!(p.step(ProducerEvent::Delivered), ProducerAction::Close);
    assert_eq!(p.step(ProducerEvent::Fetched(QueryItem::Row)), ProducerAction::Close);
    let mut q = QueryProducer::new();
    assert_eq!(q.step(ProducerEvent::Exhausted), ProducerAction::Close);
    assert!(q.closed);
}

#[test]
fn status_names_and_values() {
    assert_eq!(ReservationStatus::from_i32(2), Some(ReservationStatus::Confirmed));
    assert_eq!(ReservationStatus::from_i32(4), None);
    assert_eq!(ReservationStatus::Blocked.to_i32(), 3);
    assert_eq!(ReservationStatus::Confirmed.as_str(), "confirmed");
    assert_eq!(ReservationStatus::from_name("blocked"), Some(ReservationStatus::Blocked));
    assert_eq!(ReservationStatus::from_name("gone"), None);
}

#[test]
fn stored_rows_decode_status_and_range() {
    let r = Reservation::from_stored(
        5,
        "alice".to_string(),
        "room".to_string(),
        "confirmed",
        RangeEnd::Included(Timestamp::new(10, 0)),
        RangeEnd::Excluded(Timestamp::new(20, 0)),
        "n".to_string(),
    )
    .unwrap();
    assert_eq!(r.id, 5);
    assert_eq!(r.status, ReservationStatus::Confirmed as i32);
    assert_eq!(r.start, Some(Timestamp::new(10, 0)));
    assert_eq!(r.end, Some(Timestamp::new(20, 0)));
    let unbounded = Reservation::from_stored(
        5,
        "alice".to_string(),
        "room".to_string(),
        "pending",
        RangeEnd::Unbounded,
        RangeEnd::Included(Timestamp::new(20, 0)),
        String::new(),
    );
    assert_eq!(unbounded, None);
    let unknown_name = Reservation::from_stored(
        5,
        "alice".to_string(),
        "room".to_string(),
        "archived",
        RangeEnd::Included(Timestamp::new(10, 0)),
        RangeEnd::Included(Timestamp::new(20, 0)),
        String::new(),
    );
    assert_eq!(unknown_name, None);
}
