use reservation::{
    split_conflict, ConflictText, DbFailure, Error, ReservationConflict, ReservationConflictInfo,
    ReservationWindow, RpcCode, Timestamp, WindowText,
};

const DETAIL: &str = "Key (resource_id, timespan)=(ocean-view-room-417, [\"2022-12-26 22:00:00+00\",\"2022-12-30 19:00:00+00\"]) conflicts with existing key (resource_id, timespan)=(ocean-view-room-417, [\"2022-12-25 22:00:00+00\",\"2022-12-28 19:00:00+00\"]).";

fn expected_conflict() -> ReservationConflictInfo {
    ReservationConflictInfo::Parsed(ReservationConflict {
        new: ReservationWindow {
            rid: "ocean-view-room-417".to_string(),
            start: Timestamp::new(1672092000, 0),
            end: Timestamp::new(1672426800, 0),
        },
        old: ReservationWindow {
            rid: "ocean-view-room-417".to_string(),
            start: Timestamp::new(1672005600, 0),
            end: Timestamp::new(1672254000, 0),
        },
    })
}

#[test]
fn conflict_detail_splits_into_windows() {
    let t = split_conflict(DETAIL).unwrap();
    assert_eq!(t.new.rid, "ocean-view-room-417");
    assert_eq!(t.new.start, "2022-12-26 22:00:00+00");
    assert_eq!(t.new.end, "2022-12-30 19:00:00+00");
    assert_eq!(t.old.rid, "ocean-view-room-417");
    assert_eq!(t.old.start, "2022-12-25 22:00:00+00");
    assert_eq!(t.old.end, "2022-12-28 19:00:00+00");
}

#[test]
fn conflict_detail_parses_to_both_windows() {
    assert_eq!(ReservationConflictInfo::from_detail(DETAIL), expected_conflict());
}

#[test]
fn reserve_conflict_is_reported_with_both_windows() {
    let failure = DbFailure::Database {
        code: "23P01".to_string(),
        message: "conflicting key value violates exclusion constraint \"reservations_conflict\"".to_string(),
        detail: Some(DETAIL.to_string()),
    };
    let err = Error::from_db(failure);
    assert_eq!(err, Error::ConflictReservation(expected_conflict()));
    assert_eq!(err.rpc_code(), RpcCode::FailedPrecondition);
}

#[test]
fn unreadable_detail_is_kept_raw() {
    let raw = "Key (resource_id, timespan)=(room, [-infinity,infinity]) conflicts";
    assert_eq!(
        ReservationConflictInfo::from_detail(raw),
        ReservationConflictInfo::Unparsed(raw.to_string())
    );
    let bad_time = "(a, b)=(room, [\"yesterday\",\"2022-12-28 19:00:00+00\"]) x (a, b)=(room, [\"2022-12-25 22:00:00+00\",\"2022-12-28 19:00:00+00\"])";
    assert!(split_conflict(bad_time).is_some());
    assert_eq!(
        ReservationConflictInfo::from_detail(bad_time),
        ReservationConflictInfo::Unparsed(bad_time.to_string())
    );
}

#[test]
fn conflict_from_text_needs_all_four_instants() {
    let w = |rid: &str| WindowText { rid: rid.to_string(), start: "s".to_string(), end: "e".to_string() };
    let text = ConflictText { new: w("a"), old: w("b") };
    let t = |s: i64| Some(Timestamp::new(s, 0));
    let c = ReservationConflict::from_text(&text, t(1), t(2), t(3), t(4)).unwrap();
    assert_eq!(c.new, ReservationWindow { rid: "a".to_string(), start: Timestamp::new(1, 0), end: Timestamp::new(2, 0) });
    assert_eq!(c.old, ReservationWindow { rid: "b".to_string(), start: Timestamp::new(3, 0), end: Timestamp::new(4, 0) });
    assert_eq!(ReservationConflict::from_text(&text, t(1), None, t(3), t(4)), None);
}

#[test]
fn other_storage_failures_are_classified() {
    assert_eq!(Error::from_db(DbFailure::RowNotFound), Error::NotFound);
    let e = Error::from_db(DbFailure::Database {
        code: "23505".to_string(),
        message: "duplicate key".to_string(),
        detail: None,
    });
    assert_eq!(e, Error::DbError("duplicate key".to_string()));
    assert_eq!(e.rpc_code(), RpcCode::Internal);
    assert_eq!(Error::from_db(DbFailure::Other("closed".to_string())), Error::DbError("closed".to_string()));
    assert_eq!(Error::NotFound.rpc_code(), RpcCode::NotFound);
    assert_eq!(Error::InvalidCursor(-1).rpc_code(), RpcCode::InvalidArgument);
    assert_eq!(Error::InvalidTime.rpc_code(), RpcCode::InvalidArgument);
}
