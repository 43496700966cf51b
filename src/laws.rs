use vstd::prelude::*;
use crate::engine::{
    ProducerAction, ProducerEvent, QueryProducer, confirm_update, insert_of, one_row_spec, producer_run,
    producer_step, reserved_spec, row_of,
};
use crate::error::Error;
use crate::filter::{ReservationFilter, filter_error, filter_limit, pager_split};
use crate::reservation::{Reservation, reservation_error};
use crate::status::{ReservationStatus, status_value};
use crate::time::before;

verus! {

/// A reservation with an empty user, an empty resource, or a window whose
/// start is not before its end is refused with the matching error (and so
/// nothing is written for it).
pub proof fn lemma_validation_complete(r: Reservation)
    ensures
        r.user_id@.len() == 0 ==> reservation_error(r) == Some(Error::InvalidUserId(r.user_id)),
        r.user_id@.len() != 0 && r.resource_id@.len() == 0 ==> reservation_error(r) == Some(
            Error::InvalidResourceId(r.resource_id),
        ),
        r.user_id@.len() != 0 && r.resource_id@.len() != 0 && (r.start is None || r.end is None
            || !before(r.start->0, r.end->0)) ==> reservation_error(r) == Some(Error::InvalidTime),
{
}

/// Confirming a pending reservation twice succeeds once, with the reservation
/// confirmed, and then reports `NotFound`.
pub proof fn lemma_confirm_once(row: Reservation)
    requires
        row.status == status_value(ReservationStatus::Pending),
    ensures
        ({
            let (after, first) = confirm_update(Some(row));
            let (_, second) = confirm_update(after);
            &&& one_row_spec(first) matches Ok(c)
            &&& c.id == row.id
            &&& c.status == status_value(ReservationStatus::Confirmed)
            &&& one_row_spec(second) == Err::<Reservation, Error>(Error::NotFound)
        }),
{
}

/// The reservation that `reserve` returns is what a `get` of its id reads
/// back from the row that `reserve` wrote.
pub proof fn lemma_round_trip(r: Reservation, n: crate::engine::NewReservation, id: i64)
    requires
        insert_of(r, n),
    ensures
        one_row_spec(Some(row_of(n, id))) == Ok::<Reservation, Error>(reserved_spec(r, id)),
{
}

/// A page never holds more than the page size, whatever the statement returned
/// within its limit.
pub proof fn lemma_page_bound(f: ReservationFilter, rows: Seq<Reservation>)
    requires
        filter_error(f) is None,
        rows.len() <= filter_limit(f),
    ensures
        pager_split(f, rows).2.len() <= f.page_size,
{
}

/// The first page of an ascending dataset (the statement returns its first
/// rows, up to the limit) is the dataset's first `page_size` rows, with no
/// previous page and, when more rows are left, the next one's id as the next
/// cursor. A dataset that fits one page is thus returned whole.
pub proof fn lemma_first_page(f: ReservationFilter, data: Seq<Reservation>)
    requires
        filter_error(f) is None,
        f.cursor is None,
    ensures
        ({
            let fetched = if data.len() <= filter_limit(f) { data } else { data.take(filter_limit(f)) };
            let (prev, next, page) = pager_split(f, fetched);
            &&& prev is None
            &&& page == if data.len() <= f.page_size { data } else { data.take(f.page_size as int) }
            &&& next == if data.len() > f.page_size { Some(data[f.page_size as int].id) } else { None }
        }),
{
    let fetched = if data.len() <= filter_limit(f) { data } else { data.take(filter_limit(f)) };
    if data.len() > f.page_size {
        assert(fetched.drop_last() =~= data.take(f.page_size as int));
    }
}

/// A page read from a cursor, when the statement returns the dataset's rows
/// from the cursor's row `k` on (up to the limit): the cursor's row is
/// reported as the previous boundary, the page is the `page_size` rows after
/// it, and the row after those, if any, is the next cursor.
pub proof fn lemma_page_from_cursor(f: ReservationFilter, data: Seq<Reservation>, k: int)
    requires
        filter_error(f) is None,
        f.cursor is Some,
        0 <= k < data.len(),
    ensures
        ({
            let stop = if k + filter_limit(f) <= data.len() { k + filter_limit(f) } else { data.len() as int };
            let (prev, next, page) = pager_split(f, data.subrange(k, stop));
            let last = if k + 1 + f.page_size <= data.len() { k + 1 + f.page_size } else { data.len() as int };
            &&& prev == Some(data[k].id)
            &&& page == data.subrange(k + 1, last)
            &&& next == if data.len() > k + 1 + f.page_size { Some(data[k + 1 + f.page_size].id) } else { None }
        }),
{
    let stop = if k + filter_limit(f) <= data.len() { k + filter_limit(f) } else { data.len() as int };
    let fetched = data.subrange(k, stop);
    let rest = fetched.drop_first();
    assert(rest =~= data.subrange(k + 1, stop));
    if data.len() > k + 1 + f.page_size {
        assert(rest.drop_last() =~= data.subrange(k + 1, k + 1 + f.page_size));
    }
}

proof fn lemma_closed_stays(p: QueryProducer, events: Seq<ProducerEvent>)
    requires
        p.closed,
    ensures
        forall|j: int| 0 <= j < events.len() ==> #[trigger] producer_run(p, events)[j] == ProducerAction::Close,
        producer_run(p, events).len() == events.len(),
    decreases events.len(),
{
    if events.len() > 0 {
        lemma_closed_stays(p, events.drop_first());
        let run = producer_run(p, events);
        let rest = producer_run(p, events.drop_first());
        assert forall|j: int| 0 <= j < events.len() implies #[trigger] run[j] == ProducerAction::Close by {
            if j > 0 {
                assert(run[j] == rest[j - 1]);
            }
        }
    }
}

proof fn lemma_run_len(p: QueryProducer, events: Seq<ProducerEvent>)
    ensures
        producer_run(p, events).len() == events.len(),
    decreases events.len(),
{
    if events.len() > 0 {
        let (q, _) = producer_step(p, events[0]);
        lemma_run_len(q, events.drop_first());
    }
}

/// Once a send finds the consumer gone, the producer sends nothing more: every
/// later action is to close.
pub proof fn lemma_no_send_after_rejection(p: QueryProducer, events: Seq<ProducerEvent>, k: int)
    requires
        0 <= k < events.len(),
        events[k] == ProducerEvent::Rejected,
    ensures
        forall|j: int| k < j < events.len() ==> #[trigger] producer_run(p, events)[j] == ProducerAction::Close,
    decreases events.len(),
{
    let (q, _) = producer_step(p, events[0]);
    let rest = events.drop_first();
    let run = producer_run(p, events);
    lemma_run_len(q, rest);
    if k == 0 {
        assert(q.closed);
        lemma_closed_stays(q, rest);
    } else {
        lemma_no_send_after_rejection(q, rest, k - 1);
    }
    assert forall|j: int| k < j < events.len() implies #[trigger] run[j] == ProducerAction::Close by {
        assert(run[j] == producer_run(q, rest)[j - 1]);
    }
}

} // verus!
