use vstd::prelude::*;
use std::collections::VecDeque;
use crate::error::Error;
use crate::reservation::{Reservation, outcome_is};
use crate::status::{ReservationStatus, status_of, status_name};
use crate::text::{int_decimal, int_text, push_sql_literal, sql_literal};

verus! {

/// Cursor pagination over reservations, ordered by id.
#[derive(Debug, Clone, PartialEq, Eq)]
pub struct ReservationFilter {
    pub user_id: String,
    pub resource_id: String,
    pub status: i32,
    /// The id to start from; none means from the first (or, descending, the last) id.
    pub cursor: Option<i64>,
    pub desc: bool,
    pub page_size: i64,
}

/// The ids to continue from in each direction; none means no more pages.
#[derive(Debug, Clone, Copy, PartialEq, Eq, Structural)]
pub struct FilterPager {
    pub prev: Option<i64>,
    pub next: Option<i64>,
    pub total: Option<i64>,
}

/// Collects the parts of a filter; unset parts keep their defaults.
#[derive(Debug, Clone, PartialEq, Eq)]
pub struct ReservationFilterBuilder {
    pub user_id: String,
    pub resource_id: String,
    pub status: i32,
    pub cursor: Option<i64>,
    pub desc: bool,
    pub page_size: i64,
}

pub const MIN_PAGE_SIZE: i64 = 10;
pub const MAX_PAGE_SIZE: i64 = 100;
pub const DEFAULT_PAGE_SIZE: i64 = 10;

/// The first validation failure of a filter, if any: page size, cursor, status.
pub open spec fn filter_error(f: ReservationFilter) -> Option<Error> {
    if f.page_size < MIN_PAGE_SIZE || f.page_size > MAX_PAGE_SIZE {
        Some(Error::InvalidPageSize(f.page_size))
    } else if f.cursor matches Some(c) && c < 0 {
        Some(Error::InvalidCursor(f.cursor->0))
    } else if status_of(f.status) is None {
        Some(Error::InvalidStatus(f.status))
    } else {
        None
    }
}

/// The filter with the protocol default status replaced by `Pending`.
pub open spec fn normalized(f: ReservationFilter) -> ReservationFilter {
    if f.status == 0 {
        ReservationFilter { status: 1, ..f }
    } else {
        f
    }
}

/// The id the statement starts from.
pub open spec fn cursor_of(f: ReservationFilter) -> i64 {
    match f.cursor {
        Some(c) => c,
        None => if f.desc { i64::MAX } else { 0 },
    }
}

/// How many rows the statement asks for: a page, one more to tell whether a
/// next page exists, and, from a cursor, one more for the boundary row.
pub open spec fn filter_limit(f: ReservationFilter) -> int {
    f.page_size + 1 + if f.cursor is Some { 1int } else { 0int }
}

pub open spec fn cursor_cond(f: ReservationFilter) -> Seq<char> {
    (if f.desc { "id <= "@ } else { "id >= "@ }) + int_decimal(cursor_of(f) as int)
}

pub open spec fn owner_cond(f: ReservationFilter) -> Seq<char> {
    let no_user = f.user_id@.len() == 0;
    let no_resource = f.resource_id@.len() == 0;
    if no_user && no_resource {
        "TRUE"@
    } else if no_user {
        "resource_id = "@ + sql_literal(f.resource_id@)
    } else if no_resource {
        "user_id = "@ + sql_literal(f.user_id@)
    } else {
        "user_id = "@ + sql_literal(f.user_id@) + " AND resource_id = "@ + sql_literal(f.resource_id@)
    }
}

/// The statement that selects a filter's rows.
pub open spec fn filter_sql(f: ReservationFilter) -> Seq<char> {
    "SELECT * FROM rsvp.reservations WHERE status = '"@ + status_name(status_of(f.status)->0)
        + "'::rsvp.reservation_status AND "@ + cursor_cond(f) + " AND "@ + owner_cond(f)
        + " ORDER BY id "@ + (if f.desc { "DESC"@ } else { "ASC"@ }) + " LIMIT "@
        + int_decimal(filter_limit(f))
}

/// How a filter splits the rows its statement returned: the boundary row
/// before the page (only from a cursor), the row after it (only when more
/// than a page is left), and the page itself.
pub open spec fn pager_split(f: ReservationFilter, rows: Seq<Reservation>) -> (Option<i64>, Option<i64>, Seq<Reservation>) {
    let has_prev = f.cursor is Some && rows.len() > 0;
    let rest = if has_prev { rows.drop_first() } else { rows };
    let has_next = rest.len() > 0 && rest.len() > f.page_size;
    let page = if has_next { rest.drop_last() } else { rest };
    (
        if has_prev { Some(rows[0].id) } else { None },
        if has_next { Some(rest.last().id) } else { None },
        page,
    )
}

impl ReservationFilter {
    /// Checks page size, cursor and status, in that order.
    pub fn validate(&self) -> (r: Result<(), Error>)
        ensures
            outcome_is(r, filter_error(*self)),
    {
        if self.page_size < MIN_PAGE_SIZE || self.page_size > MAX_PAGE_SIZE {
            return Err(Error::InvalidPageSize(self.page_size));
        }
        if let Some(cursor) = self.cursor {
            if cursor < 0 {
                return Err(Error::InvalidCursor(cursor));
            }
        }
        if ReservationStatus::from_i32(self.status).is_none() {
            return Err(Error::InvalidStatus(self.status));
        }
        Ok(())
    }

    /// Replaces the protocol default status by `Pending`.
    pub fn do_normalize(&mut self)
        ensures
            *final(self) == normalized(*old(self)),
    {
        if self.status == 0 {
            self.status = 1;
        }
    }

    /// Normalises, then validates the result.
    pub fn normalize(&mut self) -> (r: Result<(), Error>)
        ensures
            *final(self) == normalized(*old(self)),
            outcome_is(r, filter_error(normalized(*old(self)))),
    {
        self.do_normalize();
        self.validate()
    }

    /// Splits the rows that the filter's statement returned into the pager
    /// and, left in `rsvps`, the page.
    pub fn get_pager(&self, rsvps: &mut VecDeque<Reservation>) -> (r: Result<FilterPager, Error>)
        ensures
            r matches Ok(p) && ({
                let (prev, next, page) = pager_split(*self, old(rsvps)@);
                &&& p.prev == prev
                &&& p.next == next
                &&& p.total is None
                &&& final(rsvps)@ == page
            }),
    {
        broadcast use vstd::std_specs::vecdeque::group_vec_dequeue_axioms;

        let ghost rows = rsvps@;
        let has_prev = self.cursor.is_some();
        let start = if has_prev { rsvps.pop_front() } else { None };
        assert(has_prev && rows.len() > 0 ==> rsvps@ =~= rows.drop_first());
        let ghost rest = rsvps@;
        let has_next = rsvps.len() as i128 > self.page_size as i128;
        let end = if has_next { rsvps.pop_back() } else { None };
        assert(has_next && rest.len() > 0 ==> rsvps@ =~= rest.drop_last());
        let prev = match start {
            Some(r) => Some(r.id),
            None => None,
        };
        let next = match end {
            Some(r) => Some(r.id),
            None => None,
        };
        Ok(FilterPager { prev, next, total: None })
    }

    /// The id the statement starts from.
    pub fn get_cursor(&self) -> (r: i64)
        ensures
            r == cursor_of(*self),
    {
        match self.cursor {
            Some(c) => c,
            None => if self.desc { i64::MAX } else { 0 },
        }
    }

    /// The status the filter selects; it must decode.
    pub fn get_status(&self) -> (r: ReservationStatus)
        requires
            status_of(self.status) is Some,
        ensures
            status_of(self.status) == Some(r),
    {
        ReservationStatus::from_i32(self.status).unwrap()
    }

    /// The statement that selects the filter's rows; the status must decode.
    pub fn to_sql(&self) -> (r: String)
        requires
            status_of(self.status) is Some,
        ensures
            r@ == filter_sql(*self),
    {
        let middle: i128 = if self.cursor.is_none() { 0 } else { 1 };
        let limit: i128 = self.page_size as i128 + 1 + middle;
        let status = self.get_status();

        let mut cond = String::from_str(if self.desc { "id <= " } else { "id >= " });
        let cursor = int_text(self.get_cursor() as i128);
        cond.append(cursor.as_str());
        assert(cond@ =~= cursor_cond(*self));

        let no_user = self.user_id.as_str().is_empty();
        let no_resource = self.resource_id.as_str().is_empty();
        let mut owner = String::new();
        if no_user && no_resource {
            owner.append("TRUE");
        } else if no_user {
            owner.append("resource_id = ");
            push_sql_literal(&mut owner, self.resource_id.as_str());
        } else if no_resource {
            owner.append("user_id = ");
            push_sql_literal(&mut owner, self.user_id.as_str());
        } else {
            owner.append("user_id = ");
            push_sql_literal(&mut owner, self.user_id.as_str());
            owner.append(" AND resource_id = ");
            push_sql_literal(&mut owner, self.resource_id.as_str());
        }
        assert(owner@ =~= owner_cond(*self));

        let mut sql = String::from_str("SELECT * FROM rsvp.reservations WHERE status = '");
        sql.append(status.as_str());
        sql.append("'::rsvp.reservation_status AND ");
        sql.append(cond.as_str());
        sql.append(" AND ");
        sql.append(owner.as_str());
        sql.append(" ORDER BY id ");
        sql.append(if self.desc { "DESC" } else { "ASC" });
        sql.append(" LIMIT ");
        let limit_text = int_text(limit);
        sql.append(limit_text.as_str());
        assert(sql@ =~= filter_sql(*self));
        sql
    }
}

/// The filter a builder holds, before normalisation.
pub open spec fn built(b: ReservationFilterBuilder) -> ReservationFilter {
    ReservationFilter {
        user_id: b.user_id,
        resource_id: b.resource_id,
        status: b.status,
        cursor: b.cursor,
        desc: b.desc,
        page_size: b.page_size,
    }
}

impl Default for ReservationFilterBuilder {
    fn default() -> (r: ReservationFilterBuilder)
        ensures
            r.user_id@.len() == 0,
            r.resource_id@.len() == 0,
            r.status == 0,
            r.cursor is None,
            !r.desc,
            r.page_size == DEFAULT_PAGE_SIZE,
    {
        ReservationFilterBuilder {
            user_id: String::new(),
            resource_id: String::new(),
            status: 0,
            cursor: None,
            desc: false,
            page_size: DEFAULT_PAGE_SIZE,
        }
    }
}

impl ReservationFilterBuilder {
    pub fn user_id(self, user_id: &str) -> (r: ReservationFilterBuilder)
        ensures
            r.user_id@ == user_id@,
            r == (ReservationFilterBuilder { user_id: r.user_id, ..self }),
    {
        ReservationFilterBuilder { user_id: String::from_str(user_id), ..self }
    }

    pub fn resource_id(self, resource_id: &str) -> (r: ReservationFilterBuilder)
        ensures
            r.resource_id@ == resource_id@,
            r == (ReservationFilterBuilder { resource_id: r.resource_id, ..self }),
    {
        ReservationFilterBuilder { resource_id: String::from_str(resource_id), ..self }
    }

    pub fn status(self, status: i32) -> (r: ReservationFilterBuilder)
        ensures
            r == (ReservationFilterBuilder { status, ..self }),
    {
        ReservationFilterBuilder { status, ..self }
    }

    pub fn cursor(self, cursor: i64) -> (r: ReservationFilterBuilder)
        ensures
            r == (ReservationFilterBuilder { cursor: Some(cursor), ..self }),
    {
        ReservationFilterBuilder { cursor: Some(cursor), ..self }
    }

    pub fn desc(self, desc: bool) -> (r: ReservationFilterBuilder)
        ensures
            r == (ReservationFilterBuilder { desc, ..self }),
    {
        ReservationFilterBuilder { desc, ..self }
    }

    pub fn page_size(self, page_size: i64) -> (r: ReservationFilterBuilder)
        ensures
            r == (ReservationFilterBuilder { page_size, ..self }),
    {
        ReservationFilterBuilder { page_size, ..self }
    }

    /// The filter, normalised and validated.
    pub fn build(&self) -> (r: Result<ReservationFilter, Error>)
        ensures
            match r {
                Ok(f) => f == normalized(built(*self)) && filter_error(f) is None,
                Err(e) => filter_error(normalized(built(*self))) == Some(e),
            },
    {
        let mut filter = ReservationFilter {
            user_id: self.user_id.clone(),
            resource_id: self.resource_id.clone(),
            status: self.status,
            cursor: self.cursor,
            desc: self.desc,
            page_size: self.page_size,
        };
        match filter.normalize() {
            Ok(()) => Ok(filter),
            Err(e) => Err(e),
        }
    }
}

} // verus!
