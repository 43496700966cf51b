use vstd::prelude::*;
use crate::error::Error;
use crate::status::{ReservationStatus, status_named, status_value};
use crate::time::{Timestamp, Timespan, range_ok, validate_range, get_timespan};

verus! {

/// A booking of a resource for a closed window, as the protocol carries it.
#[derive(Debug, Clone, PartialEq, Eq)]
pub struct Reservation {
    /// Assigned by the store; zero while unassigned.
    pub id: i64,
    pub user_id: String,
    pub status: i32,
    pub resource_id: String,
    pub start: Option<Timestamp>,
    pub end: Option<Timestamp>,
    pub note: String,
}

/// One end of a range as the store returns it.
#[derive(Debug, Clone, Copy, PartialEq, Eq, Structural)]
pub enum RangeEnd {
    Included(Timestamp),
    Excluded(Timestamp),
    Unbounded,
}

/// The instant at an end of a range, if it has one.
pub open spec fn end_value(b: RangeEnd) -> Option<Timestamp> {
    match b {
        RangeEnd::Included(t) => Some(t),
        RangeEnd::Excluded(t) => Some(t),
        RangeEnd::Unbounded => None,
    }
}

impl RangeEnd {
    pub fn value(&self) -> (r: Option<Timestamp>)
        ensures
            r == end_value(*self),
    {
        match self {
            RangeEnd::Included(t) => Some(*t),
            RangeEnd::Excluded(t) => Some(*t),
            RangeEnd::Unbounded => None,
        }
    }
}

/// The first validation failure of a reservation, if any: the user, then the
/// resource, then the window.
pub open spec fn reservation_error(r: Reservation) -> Option<Error> {
    if r.user_id@.len() == 0 {
        Some(Error::InvalidUserId(r.user_id))
    } else if r.resource_id@.len() == 0 {
        Some(Error::InvalidResourceId(r.resource_id))
    } else if !range_ok(r.start, r.end) {
        Some(Error::InvalidTime)
    } else {
        None
    }
}

/// Whether `r` is the outcome that `expected` describes: `Ok` exactly when
/// nothing is expected, else that error.
pub open spec fn outcome_is(r: Result<(), Error>, expected: Option<Error>) -> bool {
    match r {
        Ok(_) => expected is None,
        Err(e) => expected == Some(e),
    }
}

impl Reservation {
    /// A new, unassigned reservation in the `Pending` state.
    pub fn new_pending(uid: &str, rid: &str, start: Timestamp, end: Timestamp, note: &str) -> (r: Reservation)
        ensures
            r.id == 0,
            r.user_id@ == uid@,
            r.resource_id@ == rid@,
            r.status == status_value(ReservationStatus::Pending),
            r.start == Some(start),
            r.end == Some(end),
            r.note@ == note@,
    {
        Reservation {
            id: 0,
            user_id: String::from_str(uid),
            status: ReservationStatus::Pending.to_i32(),
            resource_id: String::from_str(rid),
            start: Some(start),
            end: Some(end),
            note: String::from_str(note),
        }
    }

    /// A reservation read back from a stored row: its status is decoded from
    /// the store's name for it, its window from the row's range. None when the
    /// name is unknown or the range is unbounded at either end.
    pub fn from_stored(
        id: i64,
        user_id: String,
        resource_id: String,
        status: &str,
        start: RangeEnd,
        end: RangeEnd,
        note: String,
    ) -> (r: Option<Reservation>)
        ensures
            r is Some <==> (status_named(status@) is Some && end_value(start) is Some && end_value(end) is Some),
            r matches Some(x) ==> x == (Reservation {
                id,
                user_id,
                status: status_value(status_named(status@)->0),
                resource_id,
                start: end_value(start),
                end: end_value(end),
                note,
            }),
    {
        let s = match ReservationStatus::from_name(status) {
            Some(s) => s,
            None => return None,
        };
        let (a, b) = match (start.value(), end.value()) {
            (Some(a), Some(b)) => (a, b),
            _ => return None,
        };
        Some(Reservation { id, user_id, status: s.to_i32(), resource_id, start: Some(a), end: Some(b), note })
    }

    pub fn set_status(&mut self, status: ReservationStatus)
        ensures
            *final(self) == (Reservation { status: status_value(status), ..*old(self) }),
    {
        self.status = status.to_i32();
    }

    /// The reservation's window; both ends must be present.
    pub fn get_timespan(&self) -> (r: Timespan)
        requires
            self.start is Some,
            self.end is Some,
        ensures
            r.start == self.start->0,
            r.end == self.end->0,
    {
        get_timespan(self.start.as_ref(), self.end.as_ref())
    }

    /// Checks the user, the resource and the window, in that order.
    pub fn validate(&self) -> (r: Result<(), Error>)
        ensures
            outcome_is(r, reservation_error(*self)),
    {
        if self.user_id.as_str().is_empty() {
            return Err(Error::InvalidUserId(self.user_id.clone()));
        }
        if self.resource_id.as_str().is_empty() {
            return Err(Error::InvalidResourceId(self.resource_id.clone()));
        }
        validate_range(self.start.as_ref(), self.end.as_ref())
    }
}

/// A query for every reservation whose window overlaps `[start, end]`; an
/// empty user or resource means no condition on it.
#[derive(Debug, Clone, PartialEq, Eq)]
pub struct ReservationQuery {
    pub user_id: String,
    pub resource_id: String,
    pub status: i32,
    pub start: Option<Timestamp>,
    pub end: Option<Timestamp>,
    pub page: i32,
    pub page_size: i64,
    pub desc: bool,
}

impl ReservationQuery {
    /// The query's window; both ends must be present.
    pub fn get_timespan(&self) -> (r: Timespan)
        requires
            self.start is Some,
            self.end is Some,
        ensures
            r.start == self.start->0,
            r.end == self.end->0,
    {
        get_timespan(self.start.as_ref(), self.end.as_ref())
    }

    /// Checks that the window is present and not empty.
    pub fn validate(&self) -> (r: Result<(), Error>)
        ensures
            outcome_is(r, if range_ok(self.start, self.end) { None } else { Some(Error::InvalidTime) }),
    {
        validate_range(self.start.as_ref(), self.end.as_ref())
    }
}

} // verus!
