//! What holds of every store that the operations have made.

use crate::engine::{
    after_book_flight, book_flight_refusal, booking_payload_fits, invalid_payload, made_booking,
    update_booking_refusal,
};
use crate::helpers::{booking_closed, booking_payload_errors};
use crate::messages::seat_taken_message;
use crate::model::{lemma_book_consistent, lemma_booked_seat_is_listed};
use crate::seats::{lemma_release_seat, lemma_without_seat};
use crate::store::{Store, Inventory};
use crate::text::is_blank;
use crate::types::{BookingPayloadView, BookingView, ErrorView, FlightView};
use vstd::prelude::*;

verus! {

/// In a consistent store the free seats and the occupied seats of a flight
/// add up to all its seats, and the occupied seats are exactly the seats that
/// the flight's bookings hold.
pub proof fn lemma_seats_add_up(store: Inventory, flight_id: u64)
    requires
        store.consistent(),
        store.flights.contains_key(flight_id),
    ensures
        store.flights[flight_id].available_seats + store.flights[flight_id].occupied().len()
            == store.flights[flight_id].total_seats,
        0 <= store.flights[flight_id].available_seats <= store.flights[flight_id].total_seats,
        store.flights[flight_id].occupied() == store.held_seats(flight_id),
{
    let flight = store.flights[flight_id];
    flight.seats_booked.unique_seq_to_set();
    assert forall|seat: u32|
        flight.occupied().contains(seat) <==> store.held_seats(flight_id).contains(seat) by {
        assert(flight.seats_booked.contains(seat) <==> store.seat_held(flight_id, seat));
    }
    assert(flight.occupied() =~= store.held_seats(flight_id));
}

/// In a consistent store two bookings on one flight hold different seats.
pub proof fn lemma_no_double_booking(store: Inventory, first: u64, second: u64)
    requires
        store.consistent(),
        store.bookings.contains_key(first),
        store.bookings.contains_key(second),
        first != second,
        store.bookings[first].flight_id == store.bookings[second].flight_id,
    ensures
        store.bookings[first].seat_number != store.bookings[second].seat_number,
{
}

/// A store that the operations have left is consistent, so both laws above
/// hold of it.
pub proof fn lemma_store_at_rest(store: Store, flight_id: u64, first: u64, second: u64)
    requires
        store.wf(),
    ensures
        store@.flights.contains_key(flight_id) ==> store@.flights[flight_id].available_seats
            + store@.flights[flight_id].occupied().len() == store@.flights[flight_id].total_seats
            && store@.flights[flight_id].occupied() == store@.held_seats(flight_id),
        store@.bookings.contains_key(first) && store@.bookings.contains_key(second) && first
            != second && store@.bookings[first].flight_id == store@.bookings[second].flight_id
            ==> store@.bookings[first].seat_number != store@.bookings[second].seat_number,
{
    if store@.flights.contains_key(flight_id) {
        lemma_seats_add_up(store@, flight_id);
    }
}

/// Filing the same flight twice is filing it once, and so for a booking.
pub proof fn lemma_filing_is_idempotent(store: Inventory, flight: FlightView, booking: BookingView)
    ensures
        store.replace_flight(flight).replace_flight(flight) == store.replace_flight(flight),
        store.flights.insert(flight.id, flight).insert(flight.id, flight) == store.flights.insert(
            flight.id,
            flight,
        ),
        store.bookings.insert(booking.id, booking).insert(booking.id, booking)
            == store.bookings.insert(booking.id, booking),
{
    assert(store.flights.insert(flight.id, flight).insert(flight.id, flight)
        =~= store.flights.insert(flight.id, flight));
    assert(store.bookings.insert(booking.id, booking).insert(booking.id, booking)
        =~= store.bookings.insert(booking.id, booking));
}

/// A request to book: the payload, who asks, and when.
pub struct BookingRequest {
    pub payload: BookingPayloadView,
    pub booker: Seq<char>,
    pub now: u64,
}

/// The store after a sequence of requests to book, each answered as
/// `book_flight` answers it.
pub open spec fn after_bookings(store: Inventory, requests: Seq<BookingRequest>) -> Inventory
    decreases requests.len(),
{
    if requests.len() == 0 {
        store
    } else {
        let request = requests.last();
        after_book_flight(
            after_bookings(store, requests.drop_last()),
            request.payload,
            request.booker,
            request.now,
        )
    }
}

/// Whatever bookings are asked for, in whatever order, the store stays
/// consistent, and so no two bookings ever hold the same seat of a flight.
/// The counter must have room for the requests, and each booking must fit a
/// record.
pub proof fn lemma_bookings_never_collide(
    store: Inventory,
    requests: Seq<BookingRequest>,
    first: u64,
    second: u64,
)
    requires
        store.consistent(),
        store.next_booking_id + requests.len() <= u64::MAX,
        forall|i: int|
            0 <= i < requests.len() ==> booking_payload_fits(
                (#[trigger] requests[i]).payload,
                requests[i].booker,
            ),
    ensures
        after_bookings(store, requests).consistent(),
        after_bookings(store, requests).next_booking_id <= store.next_booking_id + requests.len(),
        ({
            let after = after_bookings(store, requests);
            after.bookings.contains_key(first) && after.bookings.contains_key(second) && first
                != second && after.bookings[first].flight_id == after.bookings[second].flight_id
                ==> after.bookings[first].seat_number != after.bookings[second].seat_number
        }),
    decreases requests.len(),
{
    if requests.len() > 0 {
        let earlier = requests.drop_last();
        let request = requests.last();
        lemma_bookings_never_collide(store, earlier, first, second);
        let before = after_bookings(store, earlier);
        if book_flight_refusal(before, request.payload, request.now) is None {
            lemma_book_consistent(
                before,
                made_booking(before.next_booking_id, request.payload, request.booker, request.now),
            );
        }
    }
}

/// A booker may keep the seat: a change that names the booking's own flight
/// and seat and a passenger, while the flight still takes bookings, is not
/// refused.
pub proof fn lemma_own_seat_can_be_kept(
    store: Inventory,
    booking_id: u64,
    payload: BookingPayloadView,
    caller: Seq<char>,
    now: u64,
)
    requires
        store.consistent(),
        store.bookings.contains_key(booking_id),
        store.bookings[booking_id].booker_principal == caller,
        store.flights.contains_key(payload.flight_id),
        payload.flight_id == store.bookings[booking_id].flight_id,
        payload.seat_number == store.bookings[booking_id].seat_number,
        !is_blank(payload.passenger_name),
        !booking_closed(store.flights[payload.flight_id].departure_time, now),
    ensures
        update_booking_refusal(store, booking_id, payload, caller, now) is None,
{
    let flight = store.flights[payload.flight_id];
    lemma_booked_seat_is_listed(store, booking_id);
    lemma_release_seat(flight, payload.seat_number);
    let i = choose|i: int|
        0 <= i < flight.seats_booked.len() && flight.seats_booked[i] == payload.seat_number;
    assert(flight.seats_booked[i] < flight.total_seats);
}

/// A booker may not take a seat that another booking holds: such a change is
/// refused while the flight still takes bookings, and the refusal says that
/// the seat is already booked.
pub proof fn lemma_taken_seat_cannot_be_taken(
    store: Inventory,
    booking_id: u64,
    other_id: u64,
    payload: BookingPayloadView,
    caller: Seq<char>,
    now: u64,
)
    requires
        store.consistent(),
        store.bookings.contains_key(booking_id),
        store.bookings[booking_id].booker_principal == caller,
        store.flights.contains_key(payload.flight_id),
        payload.flight_id == store.bookings[booking_id].flight_id,
        other_id != booking_id,
        store.holds(other_id, payload.flight_id, payload.seat_number),
        !booking_closed(store.flights[payload.flight_id].departure_time, now),
    ensures
        update_booking_refusal(store, booking_id, payload, caller, now) matches Some(
            ErrorView::InvalidPayload { errors },
        ) && errors.contains(seat_taken_message(payload.seat_number)),
{
    let flight = store.flights[payload.flight_id];
    let own_seat = store.bookings[booking_id].seat_number;
    let freed = flight.release_seat(own_seat);
    lemma_booked_seat_is_listed(store, booking_id);
    lemma_booked_seat_is_listed(store, other_id);
    lemma_release_seat(flight, own_seat);
    lemma_without_seat(flight.seats_booked, own_seat);
    assert(store.bookings[other_id].seat_number != own_seat);
    assert(freed.seats_booked.contains(payload.seat_number));
    let errors = booking_payload_errors(payload, freed, now);
    assert(errors[errors.len() - 1] == seat_taken_message(payload.seat_number));
    assert(update_booking_refusal(store, booking_id, payload, caller, now) == Some(
        invalid_payload(errors),
    ));
}

/// A seat that was given back can be booked again: once a booking is
/// cancelled, a request for its seat on its flight that names a passenger is
/// not refused while the flight still takes bookings.
pub proof fn lemma_cancelled_seat_can_be_booked(
    store: Inventory,
    booking_id: u64,
    payload: BookingPayloadView,
    now: u64,
)
    requires
        store.consistent(),
        store.bookings.contains_key(booking_id),
        store.flights.contains_key(payload.flight_id),
        payload.flight_id == store.bookings[booking_id].flight_id,
        payload.seat_number == store.bookings[booking_id].seat_number,
        !is_blank(payload.passenger_name),
        !booking_closed(store.flights[payload.flight_id].departure_time, now),
    ensures
        store.cancel(booking_id).flights[payload.flight_id].available_seats
            == store.flights[payload.flight_id].available_seats + 1,
        book_flight_refusal(store.cancel(booking_id), payload, now) is None,
{
    let flight = store.flights[payload.flight_id];
    lemma_booked_seat_is_listed(store, booking_id);
    lemma_release_seat(flight, payload.seat_number);
    let i = choose|i: int|
        0 <= i < flight.seats_booked.len() && flight.seats_booked[i] == payload.seat_number;
    assert(flight.seats_booked[i] < flight.total_seats);
}

} // verus!
