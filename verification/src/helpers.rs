//! The checks that an operation makes before it changes anything: who the
//! caller is, and whether a payload is acceptable.

use crate::messages::{
    airline_message, airline_text, cutoff_message, cutoff_text, departure_message,
    departure_text, destination_message, destination_text, no_seats_message, no_seats_text,
    not_agent_message, not_agent_text, not_booker_message, not_booker_text, passenger_message,
    passenger_text, seat_range_message, seat_range_text, seat_taken_message, seat_taken_text,
    zero_seats_message, zero_seats_text,
};
use crate::text::{is_blank, is_invalid_string};
use crate::types::{
    message_texts, Booking, BookingPayload, BookingPayloadView, Error, ErrorView, Flight,
    FlightBookingPayload, FlightBookingPayloadView, FlightView,
};
use vstd::prelude::*;

verus! {

/// The least time, in nanoseconds, between the publication of a flight and its
/// departure: two hours and five minutes.
pub const MIN_LEAD_TIME: u64 = 7_500_000_000_000;

/// The time before departure, in nanoseconds, from which a flight takes no more
/// bookings: two hours.
pub const BOOKING_CUTOFF: u64 = 7_200_000_000_000;

/// A departure at `departure_time` is too close to `now` for a flight to be
/// published.
pub open spec fn departs_too_soon(departure_time: u64, now: u64) -> bool {
    departure_time < now + MIN_LEAD_TIME
}

/// At `now` a flight that departs at `departure_time` takes no more bookings.
pub open spec fn booking_closed(departure_time: u64, now: u64) -> bool {
    now >= departure_time - BOOKING_CUTOFF
}

/// The message alone if the rule is broken, nothing otherwise.
pub open spec fn error_if(broken: bool, message: Seq<char>) -> Seq<Seq<char>> {
    if broken {
        seq![message]
    } else {
        Seq::empty()
    }
}

/// Every rule that a flight payload breaks at `now`, in the order in which
/// they are checked.
pub open spec fn flight_payload_errors(payload: FlightBookingPayloadView, now: u64) -> Seq<
    Seq<char>,
> {
    error_if(is_blank(payload.airline), airline_message(payload.airline)) + error_if(
        is_blank(payload.destination),
        destination_message(payload.destination),
    ) + error_if(payload.available_seats == 0, zero_seats_message()) + error_if(
        departs_too_soon(payload.departure_time, now),
        departure_message(now),
    )
}

/// A flight payload breaks no rule at `now`.
pub open spec fn flight_payload_valid(payload: FlightBookingPayloadView, now: u64) -> bool {
    &&& !is_blank(payload.airline)
    &&& !is_blank(payload.destination)
    &&& payload.available_seats != 0
    &&& !departs_too_soon(payload.departure_time, now)
}

/// Every rule that a booking payload breaks on `flight` at `now`. A full
/// flight and a closed booking window are each reported alone; the other rules
/// are reported together, in the order in which they are checked.
pub open spec fn booking_payload_errors(
    payload: BookingPayloadView,
    flight: FlightView,
    now: u64,
) -> Seq<Seq<char>> {
    if flight.available_seats == 0 {
        seq![no_seats_message()]
    } else if booking_closed(flight.departure_time, now) {
        seq![cutoff_message()]
    } else {
        error_if(is_blank(payload.passenger_name), passenger_message(payload.passenger_name)) + error_if(
            payload.seat_number >= flight.total_seats,
            seat_range_message(payload.seat_number, flight.total_seats),
        ) + error_if(
            flight.seats_booked.contains(payload.seat_number),
            seat_taken_message(payload.seat_number),
        )
    }
}

/// A booking payload breaks no rule on `flight` at `now`.
pub open spec fn booking_payload_valid(
    payload: BookingPayloadView,
    flight: FlightView,
    now: u64,
) -> bool {
    &&& flight.available_seats != 0
    &&& !booking_closed(flight.departure_time, now)
    &&& !is_blank(payload.passenger_name)
    &&& payload.seat_number < flight.total_seats
    &&& !flight.seats_booked.contains(payload.seat_number)
}

/// The two ways of saying that a flight payload is acceptable agree.
pub proof fn lemma_flight_payload_valid(payload: FlightBookingPayloadView, now: u64)
    ensures
        flight_payload_valid(payload, now) <==> flight_payload_errors(payload, now).len() == 0,
{
}

/// The two ways of saying that a booking payload is acceptable agree.
pub proof fn lemma_booking_payload_valid(payload: BookingPayloadView, flight: FlightView, now: u64)
    ensures
        booking_payload_valid(payload, flight, now) <==> booking_payload_errors(
            payload,
            flight,
            now,
        ).len() == 0,
{
}

/// Adds a message to a list of messages.
fn report(errors: &mut Vec<String>, message: String)
    ensures
        message_texts(final(errors)@) == message_texts(old(errors)@).push(message@),
{
    errors.push(message);
}

/// Whether `seat` is among `seats`.
pub fn seat_is_booked(seats: &Vec<u32>, seat: u32) -> (booked: bool)
    ensures
        booked == seats@.contains(seat),
{
    let mut i: usize = 0;
    while i < seats.len()
        invariant
            i <= seats.len(),
            forall|j: int| 0 <= j < i ==> seats@[j] != seat,
        decreases seats.len() - i,
    {
        if seats[i] == seat {
            return true;
        }
        i += 1;
    }
    false
}

/// Accepts the caller who published the flight, and nobody else.
pub fn is_caller_agent_principal(flight: &Flight, caller: &String) -> (outcome: Result<(), Error>)
    ensures
        outcome is Ok <==> flight@.agent_principal == caller@,
        outcome matches Err(error) ==> error@ == (ErrorView::NotAgent { msg: not_agent_message() }),
{
    if flight.agent_principal != *caller {
        Err(Error::NotAgent { msg: not_agent_text() })
    } else {
        Ok(())
    }
}

/// Accepts the caller who made the booking, and nobody else.
pub fn is_caller_booker_principal(booking: &Booking, caller: &String) -> (outcome: Result<
    (),
    Error,
>)
    ensures
        outcome is Ok <==> booking@.booker_principal == caller@,
        outcome matches Err(error) ==> error@ == (ErrorView::NotBooker {
            msg: not_booker_message(),
        }),
{
    if booking.booker_principal != *caller {
        Err(Error::NotBooker { msg: not_booker_text() })
    } else {
        Ok(())
    }
}

/// Checks a flight payload at `now` against every rule, and reports all the
/// rules that it breaks together.
pub fn validate_flight_payload(payload: &FlightBookingPayload, now: u64) -> (outcome: Result<
    (),
    Error,
>)
    ensures
        outcome is Ok <==> flight_payload_valid(payload@, now),
        outcome matches Err(error) ==> error@ == (ErrorView::InvalidPayload {
            errors: flight_payload_errors(payload@, now),
        }),
{
    let mut errors: Vec<String> = Vec::new();
    if is_invalid_string(&payload.airline) {
        report(&mut errors, airline_text(&payload.airline));
    }
    if is_invalid_string(&payload.destination) {
        report(&mut errors, destination_text(&payload.destination));
    }
    if payload.available_seats == 0 {
        report(&mut errors, zero_seats_text());
    }
    if payload.departure_time < MIN_LEAD_TIME || payload.departure_time - MIN_LEAD_TIME < now {
        report(&mut errors, departure_text(now));
    }
    assert(message_texts(errors@) =~= flight_payload_errors(payload@, now));
    if errors.is_empty() {
        Ok(())
    } else {
        Err(Error::InvalidPayload { errors })
    }
}

/// Checks a booking payload against `flight` at `now`. A full flight is
/// reported first and alone, then a closed booking window, alone too; the
/// other rules are all checked, and those broken are reported together.
pub fn validate_booking_payload(payload: &BookingPayload, flight: &Flight, now: u64) -> (outcome:
    Result<(), Error>)
    ensures
        outcome is Ok <==> booking_payload_valid(payload@, flight@, now),
        outcome matches Err(error) ==> error@ == (ErrorView::InvalidPayload {
            errors: booking_payload_errors(payload@, flight@, now),
        }),
{
    let mut errors: Vec<String> = Vec::new();
    assert(message_texts(errors@) =~= Seq::empty());
    if flight.available_seats == 0 {
        report(&mut errors, no_seats_text());
        return Err(Error::InvalidPayload { errors });
    }
    if flight.departure_time <= BOOKING_CUTOFF || now >= flight.departure_time - BOOKING_CUTOFF {
        report(&mut errors, cutoff_text());
        return Err(Error::InvalidPayload { errors });
    }
    if is_invalid_string(&payload.passenger_name) {
        report(&mut errors, passenger_text(&payload.passenger_name));
    }
    if payload.seat_number >= flight.total_seats {
        report(&mut errors, seat_range_text(payload.seat_number, flight.total_seats));
    }
    if seat_is_booked(&flight.seats_booked, payload.seat_number) {
        report(&mut errors, seat_taken_text(payload.seat_number));
    }
    assert(message_texts(errors@) =~= booking_payload_errors(payload@, flight@, now));
    if errors.is_empty() {
        Ok(())
    } else {
        Err(Error::InvalidPayload { errors })
    }
}

} // verus!
