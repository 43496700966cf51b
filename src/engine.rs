use vstd::prelude::*;
use std::collections::VecDeque;
use crate::error::Error;
use crate::filter::{FilterPager, ReservationFilter, filter_error, filter_sql, normalized, pager_split};
use crate::reservation::{Reservation, ReservationQuery, reservation_error};
use crate::status::{ReservationStatus, status_of, status_value, stored_status};
use crate::time::{Timespan, Timestamp, before, range_ok};

verus! {

/// What `reserve` writes into the store.
#[derive(Debug, Clone, PartialEq, Eq)]
pub struct NewReservation {
    pub user_id: String,
    pub resource_id: String,
    pub timespan: Timespan,
    pub note: String,
    pub status: ReservationStatus,
}

/// `n` is what reserving `r` writes: its fields, its window, and the status it
/// is stored under.
pub open spec fn insert_of(r: Reservation, n: NewReservation) -> bool {
    &&& n.user_id == r.user_id
    &&& n.resource_id == r.resource_id
    &&& n.note == r.note
    &&& Some(n.timespan.start) == r.start
    &&& Some(n.timespan.end) == r.end
    &&& n.status == stored_status(r.status)
}

/// The row the store holds after writing `n` under `id`.
pub open spec fn row_of(n: NewReservation, id: i64) -> Reservation {
    Reservation {
        id,
        user_id: n.user_id,
        status: status_value(n.status),
        resource_id: n.resource_id,
        start: Some(n.timespan.start),
        end: Some(n.timespan.end),
        note: n.note,
    }
}

/// What `reserve` returns once the store assigned `id`.
pub open spec fn reserved_spec(r: Reservation, id: i64) -> Reservation {
    Reservation { id, status: status_value(stored_status(r.status)), ..r }
}

/// The outcome of a statement that must return one row.
pub open spec fn one_row_spec(row: Option<Reservation>) -> Result<Reservation, Error> {
    match row {
        Some(r) => Ok(r),
        None => Err(Error::NotFound),
    }
}

/// What the confirming statement does to the row it is aimed at: a pending
/// row becomes confirmed and is returned; any other row stays and none is
/// returned. The first part is the row afterwards, the second the returned one.
pub open spec fn confirm_update(row: Option<Reservation>) -> (Option<Reservation>, Option<Reservation>) {
    match row {
        Some(r) => if r.status == status_value(ReservationStatus::Pending) {
            let c = Reservation { status: status_value(ReservationStatus::Confirmed), ..r };
            (Some(c), Some(c))
        } else {
            (row, None)
        },
        None => (None, None),
    }
}

/// Checks a reservation and yields what the store is to write for it.
pub fn prepare_reserve(rsvp: &Reservation) -> (r: Result<NewReservation, Error>)
    ensures
        match r {
            Ok(n) => reservation_error(*rsvp) is None && insert_of(*rsvp, n) && before(
                n.timespan.start,
                n.timespan.end,
            ),
            Err(e) => reservation_error(*rsvp) == Some(e),
        },
{
    match rsvp.validate() {
        Ok(()) => {},
        Err(e) => return Err(e),
    }
    let timespan = rsvp.get_timespan();
    Ok(NewReservation {
        user_id: rsvp.user_id.clone(),
        resource_id: rsvp.resource_id.clone(),
        timespan,
        note: rsvp.note.clone(),
        status: ReservationStatus::for_insert(rsvp.status),
    })
}

/// The reservation `reserve` returns: the input, with the id the store
/// assigned and the status it was stored under.
pub fn reserved(rsvp: Reservation, id: i64) -> (r: Reservation)
    ensures
        r == reserved_spec(rsvp, id),
{
    let status = ReservationStatus::for_insert(rsvp.status).to_i32();
    Reservation { id, status, ..rsvp }
}

/// Checks the id of a confirmation: only the unassigned id is refused.
pub fn check_confirm_id(id: i64) -> (r: Result<(), Error>)
    ensures
        r is Err <==> id == 0,
        r is Err ==> r == Err::<(), Error>(Error::InvalidReservationId(id)),
{
    if id == 0 {
        Err(Error::InvalidReservationId(id))
    } else {
        Ok(())
    }
}

/// Checks that an id can name a stored reservation.
pub fn validate_id(id: i64) -> (r: Result<(), Error>)
    ensures
        r is Err <==> id <= 0,
        r is Err ==> r == Err::<(), Error>(Error::InvalidReservationId(id)),
{
    if id <= 0 {
        Err(Error::InvalidReservationId(id))
    } else {
        Ok(())
    }
}

/// The outcome of a statement that must return one row (`get`, `update_note`,
/// `delete`, `change_status`): the row, or `NotFound`.
pub fn one_row(row: Option<Reservation>) -> (r: Result<Reservation, Error>)
    ensures
        r == one_row_spec(row),
{
    match row {
        Some(x) => Ok(x),
        None => Err(Error::NotFound),
    }
}

/// An empty string means no condition.
pub fn str_to_option(s: &str) -> (r: Option<&str>)
    ensures
        s@.len() == 0 ==> r is None,
        s@.len() != 0 ==> r == Some(s),
{
    if s.is_empty() {
        None
    } else {
        Some(s)
    }
}

/// An empty string means no condition; the value is copied.
pub fn string_to_option(s: &str) -> (r: Option<String>)
    ensures
        s@.len() == 0 ==> r is None,
        s@.len() != 0 ==> (r matches Some(v) && v@ == s@),
{
    if s.is_empty() {
        None
    } else {
        Some(s.to_owned())
    }
}

pub open spec fn opt_text(s: Seq<char>, o: Option<String>) -> bool {
    if s.len() == 0 {
        o is None
    } else {
        o matches Some(v) && v@ == s
    }
}

/// The status a query selects: the protocol default, and anything that does
/// not decode, select `Pending`.
pub open spec fn query_status(v: i32) -> ReservationStatus {
    match status_of(v) {
        Some(ReservationStatus::Unknown) | None => ReservationStatus::Pending,
        Some(s) => s,
    }
}

/// The arguments of the store's query routine.
#[derive(Debug, Clone, PartialEq, Eq)]
pub struct QueryParams {
    pub user_id: Option<String>,
    pub resource_id: Option<String>,
    pub start: Timestamp,
    pub end: Timestamp,
    pub status: ReservationStatus,
    pub desc: bool,
}

/// Checks a query and yields the arguments of the store's query routine.
pub fn prepare_query(q: &ReservationQuery) -> (r: Result<QueryParams, Error>)
    ensures
        r is Ok <==> range_ok(q.start, q.end),
        r is Err ==> r == Err::<QueryParams, Error>(Error::InvalidTime),
        r matches Ok(p) ==> {
            &&& opt_text(q.user_id@, p.user_id)
            &&& opt_text(q.resource_id@, p.resource_id)
            &&& Some(p.start) == q.start
            &&& Some(p.end) == q.end
            &&& p.status == query_status(q.status)
            &&& p.desc == q.desc
        },
{
    match q.validate() {
        Ok(()) => {},
        Err(e) => return Err(e),
    }
    let span = q.get_timespan();
    let status = match ReservationStatus::from_i32(q.status) {
        Some(ReservationStatus::Unknown) | None => ReservationStatus::Pending,
        Some(s) => s,
    };
    Ok(QueryParams {
        user_id: string_to_option(q.user_id.as_str()),
        resource_id: string_to_option(q.resource_id.as_str()),
        start: span.start,
        end: span.end,
        status,
        desc: q.desc,
    })
}

/// Normalises and checks a filter, and yields the statement for its rows.
pub fn prepare_filter(filter: &mut ReservationFilter) -> (r: Result<String, Error>)
    ensures
        *final(filter) == normalized(*old(filter)),
        match r {
            Ok(sql) => filter_error(*final(filter)) is None && sql@ == filter_sql(*final(filter)),
            Err(e) => filter_error(normalized(*old(filter))) == Some(e),
        },
{
    match filter.normalize() {
        Ok(()) => {},
        Err(e) => return Err(e),
    }
    Ok(filter.to_sql())
}

/// Splits the rows the filter's statement returned into the pager and the page.
pub fn filter_page(filter: &ReservationFilter, rows: Vec<Reservation>) -> (r: (FilterPager, Vec<Reservation>))
    ensures
        ({
            let (prev, next, page) = pager_split(*filter, rows@);
            &&& r.0.prev == prev
            &&& r.0.next == next
            &&& r.0.total is None
            &&& r.1@ == page
        }),
{
    broadcast use vstd::std_specs::vecdeque::group_vec_dequeue_axioms;

    let ghost all = rows@;
    let mut rows = rows;
    let mut queue: VecDeque<Reservation> = VecDeque::new();
    let mut taken: Vec<Reservation> = Vec::new();
    while rows.len() > 0
        invariant
            all == rows@ + queue@,
        decreases rows@.len(),
    {
        let x = rows.pop().unwrap();
        queue.push_front(x);
        assert(all =~= rows@ + queue@);
    }
    assert(queue@ =~= all);
    let pager = match filter.get_pager(&mut queue) {
        Ok(p) => p,
        Err(_) => FilterPager { prev: None, next: None, total: None },
    };
    let ghost page = queue@;
    while queue.len() > 0
        invariant
            page == taken@ + queue@,
        decreases queue@.len(),
    {
        let x = queue.pop_front().unwrap();
        taken.push(x);
        assert(page =~= taken@ + queue@);
    }
    assert(taken@ =~= page);
    (pager, taken)
}

/// What the store's cursor handed the query producer.
#[derive(Debug, Clone, Copy, PartialEq, Eq, Structural)]
pub enum QueryItem {
    /// An informational message of the store; it is logged, not forwarded.
    Notice,
    /// A reservation.
    Row,
    /// A row that could not be read.
    Failure,
}

/// What happened since the producer's last action.
#[derive(Debug, Clone, Copy, PartialEq, Eq, Structural)]
pub enum ProducerEvent {
    Fetched(QueryItem),
    /// The cursor has no more rows.
    Exhausted,
    /// The consumer took the item sent.
    Delivered,
    /// The consumer is gone: the item sent could not be handed over.
    Rejected,
}

/// What the producer does next.
#[derive(Debug, Clone, Copy, PartialEq, Eq, Structural)]
pub enum ProducerAction {
    /// Take the next item from the cursor.
    Fetch,
    /// Log the notice, then take the next item.
    Log,
    /// Send the item (a row, or the failure) to the consumer.
    Send,
    /// Drop the sender and the cursor, and stop.
    Close,
}

/// The decisions of the task that feeds a query's rows to its consumer.
#[derive(Debug, Clone, Copy, PartialEq, Eq, Structural)]
pub struct QueryProducer {
    /// A failure is being sent; the task stops after it.
    pub closing: bool,
    /// The task has stopped.
    pub closed: bool,
}

pub open spec fn producer_step(p: QueryProducer, e: ProducerEvent) -> (QueryProducer, ProducerAction) {
    let stop = QueryProducer { closing: false, closed: true };
    if p.closed {
        (p, ProducerAction::Close)
    } else {
        match e {
            ProducerEvent::Fetched(QueryItem::Notice) => (p, ProducerAction::Log),
            ProducerEvent::Fetched(QueryItem::Row) => (p, ProducerAction::Send),
            ProducerEvent::Fetched(QueryItem::Failure) => (
                QueryProducer { closing: true, closed: false },
                ProducerAction::Send,
            ),
            ProducerEvent::Exhausted => (stop, ProducerAction::Close),
            ProducerEvent::Delivered => if p.closing {
                (stop, ProducerAction::Close)
            } else {
                (p, ProducerAction::Fetch)
            },
            ProducerEvent::Rejected => (stop, ProducerAction::Close),
        }
    }
}

/// The actions a producer takes on a sequence of events.
pub open spec fn producer_run(p: QueryProducer, events: Seq<ProducerEvent>) -> Seq<ProducerAction>
    decreases events.len(),
{
    if events.len() == 0 {
        Seq::empty()
    } else {
        let (q, a) = producer_step(p, events[0]);
        seq![a] + producer_run(q, events.drop_first())
    }
}

impl QueryProducer {
    pub fn new() -> (r: QueryProducer)
        ensures
            !r.closing,
            !r.closed,
    {
        QueryProducer { closing: false, closed: false }
    }

    /// Decides the next action on an event.
    pub fn step(&mut self, e: ProducerEvent) -> (r: ProducerAction)
        ensures
            (*final(self), r) == producer_step(*old(self), e),
    {
        if self.closed {
            return ProducerAction::Close;
        }
        match e {
            ProducerEvent::Fetched(QueryItem::Notice) => ProducerAction::Log,
            ProducerEvent::Fetched(QueryItem::Row) => ProducerAction::Send,
            ProducerEvent::Fetched(QueryItem::Failure) => {
                self.closing = true;
                ProducerAction::Send
            },
            ProducerEvent::Exhausted | ProducerEvent::Rejected => {
                self.closing = false;
                self.closed = true;
                ProducerAction::Close
            },
            ProducerEvent::Delivered => if self.closing {
                self.closing = false;
                self.closed = true;
                ProducerAction::Close
            } else {
                ProducerAction::Fetch
            },
        }
    }
}

} // verus!
