//! A time-window reservation engine: validation and normalisation of
//! reservations, queries and filters, the SQL text and paging rules of cursor
//! pagination, the classification of storage failures (conflict diagnostics
//! included) into typed errors, and the decisions of the streaming producer.
//! The storage round trips themselves are made by the caller.

pub mod time;
pub mod status;
pub mod error;
pub mod text;
pub mod reservation;
pub mod filter;
pub mod conflict;
pub mod config;
pub mod engine;
pub mod laws;

pub use time::{Timestamp, Timespan, validate_range, get_timespan};
pub use status::ReservationStatus;
pub use error::{DbFailure, Error, ReservationConflict, ReservationConflictInfo, ReservationError, ReservationWindow, RpcCode};
pub use reservation::{RangeEnd, Reservation, ReservationQuery};
pub use filter::{FilterPager, ReservationFilter, ReservationFilterBuilder};
pub use conflict::{ConflictText, WindowText, split_conflict};
pub use config::{Config, DbConfig, ServerConfig, TestDb, default_pool_size};
pub use engine::{
    NewReservation, ProducerAction, ProducerEvent, QueryItem, QueryParams, QueryProducer, check_confirm_id,
    filter_page, one_row, prepare_filter, prepare_query, prepare_reserve, reserved, str_to_option,
    string_to_option, validate_id,
};
