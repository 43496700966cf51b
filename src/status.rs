use vstd::prelude::*;

verus! {

/// Lifecycle state of a reservation; `Unknown` is the protocol default.
#[derive(Debug, Clone, Copy, PartialEq, Eq, Structural)]
pub enum ReservationStatus {
    Unknown,
    Pending,
    Confirmed,
    Blocked,
}

/// The wire value of each status.
pub open spec fn status_value(s: ReservationStatus) -> i32 {
    match s {
        ReservationStatus::Unknown => 0,
        ReservationStatus::Pending => 1,
        ReservationStatus::Confirmed => 2,
        ReservationStatus::Blocked => 3,
    }
}

/// The status that a wire value decodes to, if any.
pub open spec fn status_of(v: i32) -> Option<ReservationStatus> {
    if v == 0 {
        Some(ReservationStatus::Unknown)
    } else if v == 1 {
        Some(ReservationStatus::Pending)
    } else if v == 2 {
        Some(ReservationStatus::Confirmed)
    } else if v == 3 {
        Some(ReservationStatus::Blocked)
    } else {
        None
    }
}

/// The name the store's status type uses for each status.
pub open spec fn status_name(s: ReservationStatus) -> Seq<char> {
    match s {
        ReservationStatus::Unknown => "unknown"@,
        ReservationStatus::Pending => "pending"@,
        ReservationStatus::Confirmed => "confirmed"@,
        ReservationStatus::Blocked => "blocked"@,
    }
}

/// The status that the store names `name`, if any.
pub open spec fn status_named(name: Seq<char>) -> Option<ReservationStatus> {
    if name == "unknown"@ {
        Some(ReservationStatus::Unknown)
    } else if name == "pending"@ {
        Some(ReservationStatus::Pending)
    } else if name == "confirmed"@ {
        Some(ReservationStatus::Confirmed)
    } else if name == "blocked"@ {
        Some(ReservationStatus::Blocked)
    } else {
        None
    }
}

/// The status that a reservation carries into the store: only `Pending` and
/// `Blocked` are kept, anything else becomes `Pending`.
pub open spec fn stored_status(v: i32) -> ReservationStatus {
    if v == 3 {
        ReservationStatus::Blocked
    } else {
        ReservationStatus::Pending
    }
}

impl ReservationStatus {
    pub fn from_i32(v: i32) -> (r: Option<ReservationStatus>)
        ensures
            r == status_of(v),
    {
        if v == 0 {
            Some(ReservationStatus::Unknown)
        } else if v == 1 {
            Some(ReservationStatus::Pending)
        } else if v == 2 {
            Some(ReservationStatus::Confirmed)
        } else if v == 3 {
            Some(ReservationStatus::Blocked)
        } else {
            None
        }
    }

    pub fn to_i32(&self) -> (r: i32)
        ensures
            r == status_value(*self),
            status_of(r) == Some(*self),
    {
        match self {
            ReservationStatus::Unknown => 0,
            ReservationStatus::Pending => 1,
            ReservationStatus::Confirmed => 2,
            ReservationStatus::Blocked => 3,
        }
    }

    /// The name of the status in the store.
    pub fn as_str(&self) -> (r: &'static str)
        ensures
            r@ == status_name(*self),
    {
        match self {
            ReservationStatus::Unknown => "unknown",
            ReservationStatus::Pending => "pending",
            ReservationStatus::Confirmed => "confirmed",
            ReservationStatus::Blocked => "blocked",
        }
    }

    /// Decodes a status name of the store.
    pub fn from_name(name: &str) -> (r: Option<ReservationStatus>)
        ensures
            r == status_named(name@),
            r matches Some(s) ==> status_name(s) == name@,
    {
        let n = name.to_owned();
        if n == "unknown".to_owned() {
            Some(ReservationStatus::Unknown)
        } else if n == "pending".to_owned() {
            Some(ReservationStatus::Pending)
        } else if n == "confirmed".to_owned() {
            Some(ReservationStatus::Confirmed)
        } else if n == "blocked".to_owned() {
            Some(ReservationStatus::Blocked)
        } else {
            None
        }
    }

    /// The status stored for a reservation that asks for wire value `v`.
    pub fn for_insert(v: i32) -> (r: ReservationStatus)
        ensures
            r == stored_status(v),
    {
        if v == 3 {
            ReservationStatus::Blocked
        } else {
            ReservationStatus::Pending
        }
    }
}

} // verus!
