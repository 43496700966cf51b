use vstd::prelude::*;

verus! {

/// An instant, as seconds and nanoseconds since the Unix epoch (UTC).
#[derive(Debug, Clone, Copy, PartialEq, Eq, Structural)]
pub struct Timestamp {
    pub seconds: i64,
    pub nanos: i32,
}

/// `a` lies strictly before `b`.
pub open spec fn before(a: Timestamp, b: Timestamp) -> bool {
    a.seconds < b.seconds || (a.seconds == b.seconds && a.nanos < b.nanos)
}

/// Both ends are present and the start lies strictly before the end.
pub open spec fn range_ok(start: Option<Timestamp>, end: Option<Timestamp>) -> bool {
    &&& start is Some
    &&& end is Some
    &&& before(start->0, end->0)
}

pub open spec fn opt_ref(t: Option<&Timestamp>) -> Option<Timestamp> {
    match t {
        Some(v) => Some(*v),
        None => None,
    }
}

impl Timestamp {
    pub fn new(seconds: i64, nanos: i32) -> (r: Timestamp)
        ensures
            r.seconds == seconds,
            r.nanos == nanos,
    {
        Timestamp { seconds, nanos }
    }

    pub fn is_before(&self, other: &Timestamp) -> (r: bool)
        ensures
            r == before(*self, *other),
    {
        self.seconds < other.seconds || (self.seconds == other.seconds && self.nanos < other.nanos)
    }
}

/// A closed interval `[start, end]` of instants.
#[derive(Debug, Clone, Copy, PartialEq, Eq, Structural)]
pub struct Timespan {
    pub start: Timestamp,
    pub end: Timestamp,
}

/// Checks that both ends of a window are present and that it is not empty.
pub fn validate_range(start: Option<&Timestamp>, end: Option<&Timestamp>) -> (r: Result<(), crate::error::Error>)
    ensures
        r is Ok <==> range_ok(opt_ref(start), opt_ref(end)),
        r is Err ==> r == Err::<(), crate::error::Error>(crate::error::Error::InvalidTime),
{
    match (start, end) {
        (Some(s), Some(e)) => {
            if s.is_before(e) {
                Ok(())
            } else {
                Err(crate::error::Error::InvalidTime)
            }
        },
        _ => Err(crate::error::Error::InvalidTime),
    }
}

/// The closed timespan `[start, end]`; both ends must be present.
pub fn get_timespan(start: Option<&Timestamp>, end: Option<&Timestamp>) -> (r: Timespan)
    requires
        start is Some,
        end is Some,
    ensures
        r.start == opt_ref(start)->0,
        r.end == opt_ref(end)->0,
{
    Timespan { start: *start.unwrap(), end: *end.unwrap() }
}

} // verus!
