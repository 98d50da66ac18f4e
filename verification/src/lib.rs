//! Flight inventory and seat reservations over stable storage.
//!
//! Agents publish flights with a fixed number of seats; bookers reserve single
//! numbered seats before a cutoff. The engine keeps the count of free seats,
//! the list of occupied seats and the booking records consistent with each
//! other under every operation.
//!
//! - [`types`]: flights, bookings, payloads and errors, each with its plain value.
//! - [`text`], [`messages`]: blank strings, decimal numbers, the texts of errors.
//! - [`helpers`]: who the caller is, and whether a payload is acceptable.
//! - [`seats`]: taking a seat and giving it back.
//! - [`codec`], [`records`]: records as bytes.
//! - [`stable`]: the stable structures, as far as this crate relies on them.
//! - [`store`]: records by identifier, and the identifier counters.
//! - [`model`]: the operations as changes of the store's plain value.
//! - [`engine`]: the operations.
//! - [`laws`]: what holds of every store that the operations have made.
//!
//! Who calls and what time it is are arguments: the engine reads neither.

pub mod stable;
pub mod types;
pub mod text;
pub mod messages;
pub mod helpers;
pub mod codec;
pub mod records;
pub mod seats;
pub mod store;
pub mod model;
pub mod engine;
pub mod laws;

pub use engine::{
    add_flight, book_flight, check_flight_availability, delete_booking, delete_flight,
    get_booking, get_flight, update_booking, update_flight,
};
pub use helpers::{
    is_caller_agent_principal, is_caller_booker_principal, validate_booking_payload,
    validate_flight_payload,
};
pub use store::{Store, _get_booking, _get_flight, do_insert_booking, do_insert_flight};
pub use text::is_invalid_string;
pub use types::{Booking, BookingPayload, Error, Flight, FlightBookingPayload};
