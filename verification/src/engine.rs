//! The reservation engine: the operations on flights and bookings. Each one
//! checks who asks and what is asked, and then changes the store so that the
//! seat counters, the lists of occupied seats and the bookings still agree.

use crate::helpers::{
    booking_closed, booking_payload_errors, booking_payload_valid, flight_payload_errors,
    flight_payload_valid, is_caller_agent_principal, is_caller_booker_principal,
    validate_booking_payload, validate_flight_payload,
};
use crate::messages::{
    booking_not_found_message, booking_not_found_text, cutoff_message, flight_booked_message,
    flight_booked_text, flight_mismatch_message, flight_mismatch_text,
    flight_not_found_message, flight_not_found_text, no_seats_message, not_agent_message,
    not_booker_message,
};
use crate::model::{
    lemma_book_consistent, lemma_booked_seat_is_listed, lemma_cancel_consistent,
    lemma_publish_consistent, lemma_replace_flight_consistent, lemma_reserve_consistent,
    lemma_withdraw_consistent,
};
use crate::records::utf8_len;
use crate::seats::{lemma_release_seat, lemma_take_seat, lemma_without_seat, seats_without};
use crate::stable::MAX_RECORD_BYTES;
use crate::store::{
    _get_booking, _get_flight, do_insert_booking, do_insert_flight, Store, Inventory,
};
use crate::types::{
    Booking, BookingPayload, BookingPayloadView, BookingView, Error, ErrorView, Flight,
    FlightBookingPayload, FlightBookingPayloadView, FlightView,
};
use vstd::prelude::*;

verus! {

/// The flight that `agent` publishes under `id` with `payload`: every seat is
/// free.
pub open spec fn published_flight(
    id: u64,
    payload: FlightBookingPayloadView,
    agent: Seq<char>,
) -> FlightView {
    FlightView {
        id,
        airline: payload.airline,
        agent_principal: agent,
        destination: payload.destination,
        departure_time: payload.departure_time,
        available_seats: payload.available_seats,
        total_seats: payload.available_seats,
        seats_booked: Seq::empty(),
    }
}

/// The flight `flight` once `payload` has replaced what an agent may change.
pub open spec fn revised_flight(flight: FlightView, payload: FlightBookingPayloadView) -> FlightView {
    FlightView {
        airline: payload.airline,
        destination: payload.destination,
        departure_time: payload.departure_time,
        available_seats: payload.available_seats,
        total_seats: payload.available_seats,
        ..flight
    }
}

/// The booking that `booker` makes under `id` with `payload` at `now`.
pub open spec fn made_booking(
    id: u64,
    payload: BookingPayloadView,
    booker: Seq<char>,
    now: u64,
) -> BookingView {
    BookingView {
        id,
        flight_id: payload.flight_id,
        booker_principal: booker,
        passenger_name: payload.passenger_name,
        seat_number: payload.seat_number,
        booking_time: now,
    }
}

/// The booking `booking` once `payload` has replaced what a booker may change.
pub open spec fn revised_booking(booking: BookingView, payload: BookingPayloadView) -> BookingView {
    BookingView {
        passenger_name: payload.passenger_name,
        seat_number: payload.seat_number,
        ..booking
    }
}

/// A flight that `agent` publishes with `payload` fits a record, even when
/// every seat is booked.
pub open spec fn flight_payload_fits(payload: FlightBookingPayloadView, agent: Seq<char>) -> bool {
    56 + utf8_len(payload.airline) + utf8_len(agent) + utf8_len(payload.destination) + 4
        * payload.available_seats <= MAX_RECORD_BYTES
}

/// A booking that `booker` makes with `payload` fits a record.
pub open spec fn booking_payload_fits(payload: BookingPayloadView, booker: Seq<char>) -> bool {
    44 + utf8_len(booker) + utf8_len(payload.passenger_name) <= MAX_RECORD_BYTES
}

/// The error for a flight that does not exist.
pub open spec fn flight_not_found(flight_id: u64) -> ErrorView {
    ErrorView::NotFound { msg: flight_not_found_message(flight_id) }
}

/// The error for a booking that does not exist.
pub open spec fn booking_not_found(booking_id: u64) -> ErrorView {
    ErrorView::NotFound { msg: booking_not_found_message(booking_id) }
}

/// The error for a caller who did not publish the flight.
pub open spec fn not_agent() -> ErrorView {
    ErrorView::NotAgent { msg: not_agent_message() }
}

/// The error for a caller who did not make the booking.
pub open spec fn not_booker() -> ErrorView {
    ErrorView::NotBooker { msg: not_booker_message() }
}

/// The error for a payload that breaks the given rules.
pub open spec fn invalid_payload(errors: Seq<Seq<char>>) -> ErrorView {
    ErrorView::InvalidPayload { errors }
}

/// The error for a change to a flight that has bookings.
pub open spec fn flight_booked() -> ErrorView {
    ErrorView::Error { msg: flight_booked_message() }
}

/// The error for a booking payload that names another flight than the
/// booking's own.
pub open spec fn flight_mismatch(flight_id: u64) -> ErrorView {
    ErrorView::Error { msg: flight_mismatch_message(flight_id) }
}

/// The operation failed with the given error.
pub open spec fn refused<T>(outcome: Result<T, Error>, error: ErrorView) -> bool {
    outcome matches Err(found) && found@ == error
}

/// Whether a flight payload of `agent` fits a record.
pub fn flight_payload_storable(payload: &FlightBookingPayload, agent: &String) -> (fits: bool)
    ensures
        fits == flight_payload_fits(payload@, agent@),
{
    let airline = payload.airline.as_str().as_bytes().len() as u128;
    let agent_len = agent.as_str().as_bytes().len() as u128;
    let destination = payload.destination.as_str().as_bytes().len() as u128;
    let seats = payload.available_seats as u128;
    56 + airline + agent_len + destination + 4 * seats <= MAX_RECORD_BYTES as u128
}

/// Whether a booking payload of `booker` fits a record.
pub fn booking_payload_storable(payload: &BookingPayload, booker: &String) -> (fits: bool)
    ensures
        fits == booking_payload_fits(payload@, booker@),
{
    let booker_len = booker.as_str().as_bytes().len() as u128;
    let name = payload.passenger_name.as_str().as_bytes().len() as u128;
    44 + booker_len + name <= MAX_RECORD_BYTES as u128
}

/// The flight with the given identifier.
pub fn get_flight(store: &Store, flight_id: u64) -> (outcome: Result<Flight, Error>)
    requires
        store.readable(),
    ensures
        match outcome {
            Ok(flight) => store@.flights.contains_key(flight_id) && flight@
                == store@.flights[flight_id],
            Err(error) => !store@.flights.contains_key(flight_id) && error@ == flight_not_found(
                flight_id,
            ),
        },
{
    match _get_flight(store, &flight_id) {
        Some(flight) => Ok(flight),
        None => Err(Error::NotFound { msg: flight_not_found_text(flight_id) }),
    }
}

/// The booking with the given identifier.
pub fn get_booking(store: &Store, booking_id: u64) -> (outcome: Result<Booking, Error>)
    requires
        store.readable(),
    ensures
        match outcome {
            Ok(booking) => store@.bookings.contains_key(booking_id) && booking@
                == store@.bookings[booking_id],
            Err(error) => !store@.bookings.contains_key(booking_id) && error@
                == booking_not_found(booking_id),
        },
{
    match _get_booking(store, &booking_id) {
        Some(booking) => Ok(booking),
        None => Err(Error::NotFound { msg: booking_not_found_text(booking_id) }),
    }
}

/// The number of free seats of the flight with the given identifier.
pub fn check_flight_availability(store: &Store, flight_id: u64) -> (outcome: Result<u32, Error>)
    requires
        store.readable(),
    ensures
        match outcome {
            Ok(seats) => store@.flights.contains_key(flight_id) && seats
                == store@.flights[flight_id].available_seats,
            Err(error) => !store@.flights.contains_key(flight_id) && error@ == flight_not_found(
                flight_id,
            ),
        },
{
    match _get_flight(store, &flight_id) {
        Some(flight) => Ok(flight.available_seats),
        None => Err(Error::NotFound { msg: flight_not_found_text(flight_id) }),
    }
}

/// Publishes a flight for `caller`. A payload that breaks a rule is refused
/// with all the rules that it breaks, and no identifier is used up; otherwise
/// the flight gets the next identifier, every seat free.
pub fn add_flight(
    store: &mut Store,
    flight_payload: FlightBookingPayload,
    caller: &String,
    now: u64,
) -> (outcome: Result<Flight, Error>)
    requires
        old(store).wf(),
        old(store)@.next_flight_id < u64::MAX,
        flight_payload_fits(flight_payload@, caller@),
    ensures
        final(store).wf(),
        match outcome {
            Ok(flight) => {
                &&& flight_payload_valid(flight_payload@, now)
                &&& flight@ == published_flight(
                    old(store)@.next_flight_id,
                    flight_payload@,
                    caller@,
                )
                &&& final(store)@ == old(store)@.publish(flight@)
            },
            Err(error) => {
                &&& !flight_payload_valid(flight_payload@, now)
                &&& error@ == invalid_payload(flight_payload_errors(flight_payload@, now))
                &&& final(store)@ == old(store)@
            },
        },
{
    match validate_flight_payload(&flight_payload, now) {
        Err(error) => { return Err(error); },
        Ok(()) => {},
    }
    let flight_id = store.issue_flight_id();
    let flight = Flight {
        id: flight_id,
        agent_principal: caller.clone(),
        airline: flight_payload.airline,
        destination: flight_payload.destination,
        departure_time: flight_payload.departure_time,
        available_seats: flight_payload.available_seats,
        total_seats: flight_payload.available_seats,
        seats_booked: Vec::new(),
    };
    proof {
        lemma_publish_consistent(old(store)@, flight@);
    }
    do_insert_flight(store, &flight);
    Ok(flight)
}

/// Why `caller` may not change the flight `flight_id` to `payload` at `now`,
/// if anything forbids it: the flight does not exist, or it is another
/// agent's, or it has bookings, or the payload breaks a rule.
pub open spec fn update_flight_refusal(
    store: Inventory,
    flight_id: u64,
    payload: FlightBookingPayloadView,
    caller: Seq<char>,
    now: u64,
) -> Option<ErrorView> {
    if !store.flights.contains_key(flight_id) {
        Some(flight_not_found(flight_id))
    } else if store.flights[flight_id].agent_principal != caller {
        Some(not_agent())
    } else if store.flights[flight_id].seats_booked.len() != 0 {
        Some(flight_booked())
    } else if !flight_payload_valid(payload, now) {
        Some(invalid_payload(flight_payload_errors(payload, now)))
    } else {
        None
    }
}

/// Changes a flight for `caller`, who must be its agent. A flight with
/// bookings is frozen. Otherwise the payload is checked as for a new flight
/// and replaces airline, destination, departure and number of seats.
pub fn update_flight(
    store: &mut Store,
    flight_id: u64,
    new_data: FlightBookingPayload,
    caller: &String,
    now: u64,
) -> (outcome: Result<Flight, Error>)
    requires
        old(store).wf(),
        flight_payload_fits(new_data@, caller@),
    ensures
        final(store).wf(),
        match outcome {
            Ok(flight) => {
                &&& update_flight_refusal(old(store)@, flight_id, new_data@, caller@, now) is None
                &&& flight@ == revised_flight(old(store)@.flights[flight_id], new_data@)
                &&& final(store)@ == old(store)@.replace_flight(flight@)
            },
            Err(error) => {
                &&& update_flight_refusal(old(store)@, flight_id, new_data@, caller@, now)
                    == Some(error@)
                &&& final(store)@ == old(store)@
            },
        },
        old(store)@.flights.contains_key(flight_id) && old(store)@.flights[flight_id].agent_principal
            != caller@ ==> refused(outcome, not_agent()),
        forall|booking_id: u64|
            old(store)@.flights.contains_key(flight_id)
                && old(store)@.flights[flight_id].agent_principal == caller@
                && #[trigger] old(store)@.bookings.contains_key(booking_id)
                && old(store)@.bookings[booking_id].flight_id == flight_id ==> refused(
                outcome,
                flight_booked(),
            ),
{
    let mut flight = match _get_flight(store, &flight_id) {
        Some(found) => found,
        None => {
            return Err(Error::NotFound { msg: flight_not_found_text(flight_id) });
        },
    };
    match is_caller_agent_principal(&flight, caller) {
        Err(error) => { return Err(error); },
        Ok(()) => {},
    }
    proof {
        assert forall|booking_id: u64|
            #[trigger] store@.bookings.contains_key(booking_id)
                && store@.bookings[booking_id].flight_id
                == flight_id implies flight@.seats_booked.len() != 0 by {
            lemma_booked_seat_is_listed(store@, booking_id);
        }
    }
    if !flight.seats_booked.is_empty() {
        return Err(Error::Error { msg: flight_booked_text() });
    }
    match validate_flight_payload(&new_data, now) {
        Err(error) => { return Err(error); },
        Ok(()) => {},
    }
    flight.airline = new_data.airline;
    flight.destination = new_data.destination;
    flight.departure_time = new_data.departure_time;
    flight.available_seats = new_data.available_seats;
    flight.total_seats = new_data.available_seats;
    proof {
        lemma_replace_flight_consistent(old(store)@, flight@);
    }
    do_insert_flight(store, &flight);
    Ok(flight)
}

/// Why `caller` may not withdraw the flight `flight_id`, if anything forbids
/// it: the flight does not exist, or it is another agent's.
pub open spec fn delete_flight_refusal(store: Inventory, flight_id: u64, caller: Seq<char>) -> Option<
    ErrorView,
> {
    if !store.flights.contains_key(flight_id) {
        Some(flight_not_found(flight_id))
    } else if store.flights[flight_id].agent_principal != caller {
        Some(not_agent())
    } else {
        None
    }
}

/// Withdraws a flight for `caller`, who must be its agent. A flight may be
/// withdrawn while it has bookings: they stay on record, name a flight that no
/// longer exists, and can still be cancelled. No later flight gets the
/// identifier of a withdrawn one.
pub fn delete_flight(store: &mut Store, flight_id: u64, caller: &String) -> (outcome: Result<
    (),
    Error,
>)
    requires
        old(store).wf(),
    ensures
        final(store).wf(),
        match outcome {
            Ok(()) => {
                &&& delete_flight_refusal(old(store)@, flight_id, caller@) is None
                &&& final(store)@ == old(store)@.withdraw(flight_id)
            },
            Err(error) => {
                &&& delete_flight_refusal(old(store)@, flight_id, caller@) == Some(error@)
                &&& final(store)@ == old(store)@
            },
        },
        old(store)@.flights.contains_key(flight_id) && old(store)@.flights[flight_id].agent_principal
            != caller@ ==> refused(outcome, not_agent()),
{
    let flight = match _get_flight(store, &flight_id) {
        Some(found) => found,
        None => {
            return Err(Error::NotFound { msg: flight_not_found_text(flight_id) });
        },
    };
    match is_caller_agent_principal(&flight, caller) {
        Err(error) => { return Err(error); },
        Ok(()) => {},
    }
    proof {
        lemma_withdraw_consistent(old(store)@, flight_id);
    }
    store.remove_flight(flight_id);
    Ok(())
}

/// Why the booking `payload` is refused at `now`, if anything forbids it: the
/// flight does not exist, or the payload breaks a rule on it.
pub open spec fn book_flight_refusal(store: Inventory, payload: BookingPayloadView, now: u64) -> Option<
    ErrorView,
> {
    if !store.flights.contains_key(payload.flight_id) {
        Some(flight_not_found(payload.flight_id))
    } else if !booking_payload_valid(payload, store.flights[payload.flight_id], now) {
        Some(invalid_payload(booking_payload_errors(payload, store.flights[payload.flight_id], now)))
    } else {
        None
    }
}

/// The store after `booker` has asked for the booking `payload` at `now`: with
/// the booking, if nothing forbids it, and as before otherwise.
pub open spec fn after_book_flight(
    store: Inventory,
    payload: BookingPayloadView,
    booker: Seq<char>,
    now: u64,
) -> Inventory {
    if book_flight_refusal(store, payload, now) is None {
        store.book(made_booking(store.next_booking_id, payload, booker, now))
    } else {
        store
    }
}

/// Books a seat for `caller`. The flight must exist, have a free seat and
/// depart later than the cutoff; the seat must exist and be free; the
/// passenger must have a name. Then the flight lists the seat, one seat fewer
/// is free, and the booking gets the next identifier. The flight is written
/// before the booking.
pub fn book_flight(
    store: &mut Store,
    booking_payload: BookingPayload,
    caller: &String,
    now: u64,
) -> (outcome: Result<Booking, Error>)
    requires
        old(store).wf(),
        old(store)@.next_booking_id < u64::MAX,
        booking_payload_fits(booking_payload@, caller@),
    ensures
        final(store).wf(),
        match outcome {
            Ok(booking) => {
                &&& book_flight_refusal(old(store)@, booking_payload@, now) is None
                &&& booking@ == made_booking(
                    old(store)@.next_booking_id,
                    booking_payload@,
                    caller@,
                    now,
                )
                &&& final(store)@ == old(store)@.book(booking@)
            },
            Err(error) => {
                &&& book_flight_refusal(old(store)@, booking_payload@, now) == Some(error@)
                &&& final(store)@ == old(store)@
            },
        },
        final(store)@ == after_book_flight(old(store)@, booking_payload@, caller@, now),
        outcome is Ok <==> old(store)@.flights.contains_key(booking_payload.flight_id)
            && booking_payload_valid(
            booking_payload@,
            old(store)@.flights[booking_payload.flight_id],
            now,
        ),
        old(store)@.flights.contains_key(booking_payload.flight_id) && booking_closed(
            old(store)@.flights[booking_payload.flight_id].departure_time,
            now,
        ) ==> outcome is Err,
        old(store)@.flights.contains_key(booking_payload.flight_id)
            && old(store)@.flights[booking_payload.flight_id].available_seats == 0 ==> refused(
            outcome,
            invalid_payload(seq![no_seats_message()]),
        ),
        old(store)@.flights.contains_key(booking_payload.flight_id)
            && old(store)@.flights[booking_payload.flight_id].available_seats != 0
            && booking_closed(old(store)@.flights[booking_payload.flight_id].departure_time, now)
            ==> refused(outcome, invalid_payload(seq![cutoff_message()])),
        outcome is Ok ==> final(store)@.flights[booking_payload.flight_id].available_seats
            == old(store)@.flights[booking_payload.flight_id].available_seats - 1,
{
    let mut flight = match _get_flight(store, &booking_payload.flight_id) {
        Some(found) => found,
        None => {
            return Err(Error::NotFound { msg: flight_not_found_text(booking_payload.flight_id) });
        },
    };
    match validate_booking_payload(&booking_payload, &flight, now) {
        Err(error) => { return Err(error); },
        Ok(()) => {},
    }
    let ghost before = flight@;
    proof {
        lemma_take_seat(before, booking_payload.seat_number);
    }
    flight.available_seats = flight.available_seats - 1;
    flight.seats_booked.push(booking_payload.seat_number);
    do_insert_flight(store, &flight);
    let booking_id = store.issue_booking_id();
    let booking = Booking {
        id: booking_id,
        booker_principal: caller.clone(),
        passenger_name: booking_payload.passenger_name,
        flight_id: booking_payload.flight_id,
        seat_number: booking_payload.seat_number,
        booking_time: now,
    };
    proof {
        lemma_book_consistent(old(store)@, booking@);
    }
    do_insert_booking(store, &booking);
    Ok(booking)
}

/// Why `caller` may not change the booking `booking_id` to `payload` at `now`,
/// if anything forbids it: the booking does not exist, or it is another
/// booker's, or the payload names another flight, or the flight does not
/// exist, or the payload breaks a rule on the flight as it is once the
/// booking's own seat is given back.
pub open spec fn update_booking_refusal(
    store: Inventory,
    booking_id: u64,
    payload: BookingPayloadView,
    caller: Seq<char>,
    now: u64,
) -> Option<ErrorView> {
    if !store.bookings.contains_key(booking_id) {
        Some(booking_not_found(booking_id))
    } else if store.bookings[booking_id].booker_principal != caller {
        Some(not_booker())
    } else if store.bookings[booking_id].flight_id != payload.flight_id {
        Some(flight_mismatch(store.bookings[booking_id].flight_id))
    } else if !store.flights.contains_key(payload.flight_id) {
        Some(flight_not_found(payload.flight_id))
    } else {
        let freed = store.flights[payload.flight_id].release_seat(
            store.bookings[booking_id].seat_number,
        );
        if !booking_payload_valid(payload, freed, now) {
            Some(invalid_payload(booking_payload_errors(payload, freed, now)))
        } else {
            None
        }
    }
}

/// Changes a booking for `caller`, who must be its booker: the passenger's
/// name, the seat, or both. The booking stays on its flight. The new seat is
/// checked against the flight as it is once the booking's own seat is given
/// back, so the booking may keep its seat, and may not take a seat that
/// another booking holds. The flight is written before the booking.
pub fn update_booking(
    store: &mut Store,
    booking_id: u64,
    new_data: BookingPayload,
    caller: &String,
    now: u64,
) -> (outcome: Result<Booking, Error>)
    requires
        old(store).wf(),
        booking_payload_fits(new_data@, caller@),
    ensures
        final(store).wf(),
        match outcome {
            Ok(booking) => {
                &&& update_booking_refusal(old(store)@, booking_id, new_data@, caller@, now) is None
                &&& booking@ == revised_booking(old(store)@.bookings[booking_id], new_data@)
                &&& final(store)@ == old(store)@.cancel(booking_id).reserve(booking@)
            },
            Err(error) => {
                &&& update_booking_refusal(old(store)@, booking_id, new_data@, caller@, now)
                    == Some(error@)
                &&& final(store)@ == old(store)@
            },
        },
        old(store)@.bookings.contains_key(booking_id)
            && old(store)@.bookings[booking_id].booker_principal != caller@ ==> refused(
            outcome,
            not_booker(),
        ),
{
    let mut booking = match _get_booking(store, &booking_id) {
        Some(found) => found,
        None => {
            return Err(Error::NotFound { msg: booking_not_found_text(booking_id) });
        },
    };
    match is_caller_booker_principal(&booking, caller) {
        Err(error) => { return Err(error); },
        Ok(()) => {},
    }
    if booking.flight_id != new_data.flight_id {
        return Err(Error::Error { msg: flight_mismatch_text(booking.flight_id) });
    }
    let flight = match _get_flight(store, &new_data.flight_id) {
        Some(found) => found,
        None => {
            return Err(Error::NotFound { msg: flight_not_found_text(new_data.flight_id) });
        },
    };
    let ghost listed = flight@;
    proof {
        lemma_booked_seat_is_listed(old(store)@, booking_id);
        lemma_release_seat(listed, booking.seat_number);
    }
    let mut freed = Flight {
        id: flight.id,
        airline: flight.airline,
        agent_principal: flight.agent_principal,
        destination: flight.destination,
        departure_time: flight.departure_time,
        available_seats: flight.available_seats + 1,
        total_seats: flight.total_seats,
        seats_booked: seats_without(&flight.seats_booked, booking.seat_number),
    };
    match validate_booking_payload(&new_data, &freed, now) {
        Err(error) => { return Err(error); },
        Ok(()) => {},
    }
    let ghost released = freed@;
    proof {
        lemma_take_seat(released, new_data.seat_number);
    }
    freed.available_seats = freed.available_seats - 1;
    freed.seats_booked.push(new_data.seat_number);
    do_insert_flight(store, &freed);
    booking.passenger_name = new_data.passenger_name;
    booking.seat_number = new_data.seat_number;
    proof {
        let cancelled = old(store)@.cancel(booking_id);
        lemma_cancel_consistent(old(store)@, booking_id);
        lemma_reserve_consistent(cancelled, booking@);
    }
    do_insert_booking(store, &booking);
    proof {
        let expected = old(store)@.cancel(booking_id).reserve(booking@);
        assert(store@.flights =~= expected.flights);
        assert(store@.bookings =~= expected.bookings);
    }
    Ok(booking)
}

/// Why `caller` may not cancel the booking `booking_id`, if anything forbids
/// it: the booking does not exist, or it is another booker's.
pub open spec fn delete_booking_refusal(store: Inventory, booking_id: u64, caller: Seq<char>) -> Option<
    ErrorView,
> {
    if !store.bookings.contains_key(booking_id) {
        Some(booking_not_found(booking_id))
    } else if store.bookings[booking_id].booker_principal != caller {
        Some(not_booker())
    } else {
        None
    }
}

/// Cancels a booking for `caller`, who must be its booker. The flight, if it
/// still exists, gets the seat back before the booking is dropped; a booking
/// whose flight is gone is dropped all the same.
pub fn delete_booking(store: &mut Store, booking_id: u64, caller: &String) -> (outcome: Result<
    (),
    Error,
>)
    requires
        old(store).wf(),
    ensures
        final(store).wf(),
        match outcome {
            Ok(()) => {
                &&& delete_booking_refusal(old(store)@, booking_id, caller@) is None
                &&& final(store)@ == old(store)@.cancel(booking_id)
            },
            Err(error) => {
                &&& delete_booking_refusal(old(store)@, booking_id, caller@) == Some(error@)
                &&& final(store)@ == old(store)@
            },
        },
        old(store)@.bookings.contains_key(booking_id)
            && old(store)@.bookings[booking_id].booker_principal != caller@ ==> refused(
            outcome,
            not_booker(),
        ),
        outcome is Ok && old(store)@.flights.contains_key(old(store)@.bookings[booking_id].flight_id)
            ==> final(store)@.flights[old(store)@.bookings[booking_id].flight_id].available_seats
            == old(store)@.flights[old(store)@.bookings[booking_id].flight_id].available_seats + 1,
{
    let booking = match _get_booking(store, &booking_id) {
        Some(found) => found,
        None => {
            return Err(Error::NotFound { msg: booking_not_found_text(booking_id) });
        },
    };
    match is_caller_booker_principal(&booking, caller) {
        Err(error) => { return Err(error); },
        Ok(()) => {},
    }
    proof {
        lemma_cancel_consistent(old(store)@, booking_id);
    }
    match _get_flight(store, &booking.flight_id) {
        Some(flight) => {
            proof {
                lemma_booked_seat_is_listed(old(store)@, booking_id);
                lemma_release_seat(flight@, booking.seat_number);
                lemma_without_seat(flight@.seats_booked, booking.seat_number);
            }
            let updated_flight = Flight {
                id: flight.id,
                airline: flight.airline,
                agent_principal: flight.agent_principal,
                destination: flight.destination,
                departure_time: flight.departure_time,
                available_seats: flight.available_seats + 1,
                total_seats: flight.total_seats,
                seats_booked: seats_without(&flight.seats_booked, booking.seat_number),
            };
            do_insert_flight(store, &updated_flight);
        },
        None => {},
    }
    store.remove_booking(booking_id);
    Ok(())
}

} // verus!
