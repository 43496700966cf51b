use vstd::prelude::*;
use crate::time::Timestamp;
use crate::conflict::describes;

verus! {

/// One side of a conflict: a resource and the window asked for or held.
#[derive(Debug, Clone, PartialEq, Eq)]
pub struct ReservationWindow {
    pub rid: String,
    pub start: Timestamp,
    pub end: Timestamp,
}

/// The incoming window and the existing one that it overlaps.
#[derive(Debug, Clone, PartialEq, Eq)]
pub struct ReservationConflict {
    pub new: ReservationWindow,
    pub old: ReservationWindow,
}

/// What is known of a conflict: the parsed windows, or the store's raw text.
#[derive(Debug, Clone, PartialEq, Eq)]
pub enum ReservationConflictInfo {
    Parsed(ReservationConflict),
    Unparsed(String),
}

/// Failures of the reservation engine.
#[derive(Debug, Clone, PartialEq, Eq)]
pub enum Error {
    DbError(String),
    ConfigReadError,
    ConfigParseError,
    InvalidTime,
    ConflictReservation(ReservationConflictInfo),
    InvalidUserId(String),
    InvalidResourceId(String),
    InvalidReservationId(i64),
    InvalidPageSize(i64),
    InvalidCursor(i64),
    InvalidStatus(i32),
    NotFound,
    Unknown,
}

/// The store's code for a violated exclusion constraint.
pub const EXCLUSION_VIOLATION: &'static str = "23P01";

/// How a storage round trip failed, as the driver reports it.
#[derive(Debug, Clone, PartialEq, Eq)]
pub enum DbFailure {
    /// A statement that must return a row returned none.
    RowNotFound,
    /// The store refused the statement.
    Database { code: String, message: String, detail: Option<String> },
    /// Any other failure of the driver or the connection.
    Other(String),
}

/// The status that the RPC surface reports for an error.
#[derive(Debug, Clone, Copy, PartialEq, Eq, Structural)]
pub enum RpcCode {
    InvalidArgument,
    FailedPrecondition,
    NotFound,
    Internal,
    Unimplemented,
    Unknown,
}

/// The error that a storage failure is reported as.
pub open spec fn db_error_is(f: DbFailure, e: Error) -> bool {
    match f {
        DbFailure::RowNotFound => e == Error::NotFound,
        DbFailure::Database { code, message, detail } => if code@ == EXCLUSION_VIOLATION@ {
            e matches Error::ConflictReservation(info) && describes(
                info,
                match detail {
                    Some(d) => d@,
                    None => message@,
                },
            )
        } else {
            e == Error::DbError(message)
        },
        DbFailure::Other(m) => e == Error::DbError(m),
    }
}

pub open spec fn rpc_code_of(e: Error) -> RpcCode {
    match e {
        Error::InvalidTime | Error::InvalidUserId(_) | Error::InvalidResourceId(_)
        | Error::InvalidReservationId(_) | Error::InvalidPageSize(_) | Error::InvalidCursor(_)
        | Error::InvalidStatus(_) => RpcCode::InvalidArgument,
        Error::ConflictReservation(_) => RpcCode::FailedPrecondition,
        Error::NotFound => RpcCode::NotFound,
        Error::DbError(_) | Error::ConfigReadError | Error::ConfigParseError => RpcCode::Internal,
        Error::Unknown => RpcCode::Unknown,
    }
}

impl Error {
    /// Classifies a storage failure: an exclusion violation becomes a
    /// conflict read from the store's diagnostic, a missing row `NotFound`,
    /// anything else `DbError`.
    pub fn from_db(f: DbFailure) -> (r: Error)
        ensures
            db_error_is(f, r),
    {
        match f {
            DbFailure::RowNotFound => Error::NotFound,
            DbFailure::Database { code, message, detail } => {
                let exclusion = String::from_str(EXCLUSION_VIOLATION);
                if code == exclusion {
                    let info = match &detail {
                        Some(d) => ReservationConflictInfo::from_detail(d.as_str()),
                        None => ReservationConflictInfo::from_detail(message.as_str()),
                    };
                    Error::ConflictReservation(info)
                } else {
                    Error::DbError(message)
                }
            },
            DbFailure::Other(m) => Error::DbError(m),
        }
    }

    /// The status that the RPC surface reports for this error.
    pub fn rpc_code(&self) -> (r: RpcCode)
        ensures
            r == rpc_code_of(*self),
    {
        match self {
            Error::InvalidTime | Error::InvalidUserId(_) | Error::InvalidResourceId(_)
            | Error::InvalidReservationId(_) | Error::InvalidPageSize(_) | Error::InvalidCursor(_)
            | Error::InvalidStatus(_) => RpcCode::InvalidArgument,
            Error::ConflictReservation(_) => RpcCode::FailedPrecondition,
            Error::NotFound => RpcCode::NotFound,
            Error::DbError(_) | Error::ConfigReadError | Error::ConfigParseError => RpcCode::Internal,
            Error::Unknown => RpcCode::Unknown,
        }
    }
}

/// Failures of the time-window checks of the reservation layer.
#[derive(Debug, Clone, Copy, PartialEq, Eq, Structural)]
pub enum ReservationError {
    InvalidTime,
    Unknown,
}

} // verus!
