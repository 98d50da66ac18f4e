//! The operations as changes of the store's plain value, and the proof that
//! each of them keeps the records consistent.

use crate::records::{booking_size, flight_full_size};
use crate::seats::{lemma_release_seat, lemma_take_seat, lemma_without_seat};
use crate::stable::MAX_RECORD_BYTES;
use crate::store::Inventory;
use crate::text::is_blank;
use crate::types::{BookingView, FlightView};
use vstd::prelude::*;

verus! {

impl Inventory {
    /// The store once `flight` is published under the next identifier.
    pub open spec fn publish(self, flight: FlightView) -> Inventory {
        Inventory {
            flights: self.flights.insert(flight.id, flight),
            next_flight_id: (self.next_flight_id + 1) as u64,
            ..self
        }
    }

    /// The store once `flight` stands in place of the flight with its
    /// identifier.
    pub open spec fn replace_flight(self, flight: FlightView) -> Inventory {
        Inventory { flights: self.flights.insert(flight.id, flight), ..self }
    }

    /// The store once the flight `flight_id` is withdrawn. Its bookings stay.
    pub open spec fn withdraw(self, flight_id: u64) -> Inventory {
        Inventory { flights: self.flights.remove(flight_id), ..self }
    }

    /// The store once `booking` is filed and its flight has given it its seat.
    pub open spec fn reserve(self, booking: BookingView) -> Inventory {
        Inventory {
            flights: self.flights.insert(
                booking.flight_id,
                self.flights[booking.flight_id].take_seat(booking.seat_number),
            ),
            bookings: self.bookings.insert(booking.id, booking),
            ..self
        }
    }

    /// The store once `booking` is made under the next identifier.
    pub open spec fn book(self, booking: BookingView) -> Inventory {
        (Inventory { next_booking_id: (self.next_booking_id + 1) as u64, ..self }).reserve(booking)
    }

    /// The store once the booking `booking_id` is gone and its flight, if it
    /// still exists, has its seat back.
    pub open spec fn cancel(self, booking_id: u64) -> Inventory {
        let booking = self.bookings[booking_id];
        Inventory {
            flights: if self.flights.contains_key(booking.flight_id) {
                self.flights.insert(
                    booking.flight_id,
                    self.flights[booking.flight_id].release_seat(booking.seat_number),
                )
            } else {
                self.flights
            },
            bookings: self.bookings.remove(booking_id),
            ..self
        }
    }
}

/// Publishing a well-formed flight without bookings keeps the records
/// consistent.
pub proof fn lemma_publish_consistent(before: Inventory, flight: FlightView)
    requires
        before.consistent(),
        before.next_flight_id < u64::MAX,
        flight.id == before.next_flight_id,
        !is_blank(flight.airline),
        !is_blank(flight.destination),
        flight.total_seats != 0,
        flight.wf(),
        flight.seats_booked.len() == 0,
        flight_full_size(flight) <= MAX_RECORD_BYTES,
    ensures
        before.publish(flight).consistent(),
{
    let after = before.publish(flight);
    assert(after.seats_match()) by {
        assert forall|flight_id: u64, seat: u32| after.flights.contains_key(flight_id) implies (
        #[trigger] after.flights[flight_id].seats_booked.contains(seat) <==> after.seat_held(
            flight_id,
            seat,
        )) by {
            if flight_id == flight.id {
                if after.seat_held(flight_id, seat) {
                    let id = choose|id: u64| after.holds(id, flight_id, seat);
                    assert(before.bookings.contains_key(id));
                }
            } else {
                assert(before.flights.contains_key(flight_id));
                lemma_same_bookings(before, after, flight_id, seat);
                assert(before.flights[flight_id].seats_booked.contains(seat) <==> before.seat_held(
                    flight_id,
                    seat,
                ));
            }
        }
    }
}

/// Stores with the same bookings have the same seats held.
pub proof fn lemma_same_bookings(a: Inventory, b: Inventory, flight_id: u64, seat: u32)
    requires
        a.bookings == b.bookings,
    ensures
        a.seat_held(flight_id, seat) == b.seat_held(flight_id, seat),
{
    if a.seat_held(flight_id, seat) {
        let id = choose|id: u64| a.holds(id, flight_id, seat);
        assert(b.holds(id, flight_id, seat));
    }
    if b.seat_held(flight_id, seat) {
        let id = choose|id: u64| b.holds(id, flight_id, seat);
        assert(a.holds(id, flight_id, seat));
    }
}

/// Putting a flight without bookings in place of another such flight keeps
/// the records consistent.
pub proof fn lemma_replace_flight_consistent(before: Inventory, flight: FlightView)
    requires
        before.consistent(),
        before.flights.contains_key(flight.id),
        before.flights[flight.id].seats_booked.len() == 0,
        !is_blank(flight.airline),
        !is_blank(flight.destination),
        flight.total_seats != 0,
        flight.wf(),
        flight.seats_booked.len() == 0,
        flight_full_size(flight) <= MAX_RECORD_BYTES,
    ensures
        before.replace_flight(flight).consistent(),
{
    let after = before.replace_flight(flight);
    assert(after.seats_match()) by {
        assert forall|flight_id: u64, seat: u32| after.flights.contains_key(flight_id) implies (
        #[trigger] after.flights[flight_id].seats_booked.contains(seat) <==> after.seat_held(
            flight_id,
            seat,
        )) by {
            assert(before.flights.contains_key(flight_id));
            lemma_same_bookings(before, after, flight_id, seat);
            assert(before.flights[flight_id].seats_booked.contains(seat) <==> before.seat_held(
                flight_id,
                seat,
            ));
        }
    }
}

/// Withdrawing a flight keeps the records consistent.
pub proof fn lemma_withdraw_consistent(before: Inventory, flight_id: u64)
    requires
        before.consistent(),
    ensures
        before.withdraw(flight_id).consistent(),
{
    let after = before.withdraw(flight_id);
    assert(after.seats_match()) by {
        assert forall|other: u64, seat: u32| after.flights.contains_key(other) implies (
        #[trigger] after.flights[other].seats_booked.contains(seat) <==> after.seat_held(
            other,
            seat,
        )) by {
            assert(before.flights.contains_key(other));
            lemma_same_bookings(before, after, other, seat);
            assert(before.flights[other].seats_booked.contains(seat) <==> before.seat_held(
                other,
                seat,
            ));
        }
    }
}

/// Filing a booking for a free seat of a flight that exists keeps the records
/// consistent.
pub proof fn lemma_reserve_consistent(before: Inventory, booking: BookingView)
    requires
        before.consistent(),
        before.flights.contains_key(booking.flight_id),
        !before.bookings.contains_key(booking.id),
        booking.id < before.next_booking_id,
        before.flights[booking.flight_id].available_seats != 0,
        booking.seat_number < before.flights[booking.flight_id].total_seats,
        !before.flights[booking.flight_id].seats_booked.contains(booking.seat_number),
        !is_blank(booking.passenger_name),
        booking_size(booking) <= MAX_RECORD_BYTES,
    ensures
        before.reserve(booking).consistent(),
{
    let after = before.reserve(booking);
    let flight = before.flights[booking.flight_id];
    lemma_take_seat(flight, booking.seat_number);
    assert(!before.seat_held(booking.flight_id, booking.seat_number));
    assert(after.seats_match()) by {
        assert forall|flight_id: u64, seat: u32| after.flights.contains_key(flight_id) implies (
        #[trigger] after.flights[flight_id].seats_booked.contains(seat) <==> after.seat_held(
            flight_id,
            seat,
        )) by {
            assert(before.flights.contains_key(flight_id));
            let listed = before.flights[flight_id].seats_booked;
            assert(listed.contains(seat) <==> before.seat_held(flight_id, seat));
            if before.seat_held(flight_id, seat) {
                let id = choose|id: u64| before.holds(id, flight_id, seat);
                assert(after.holds(id, flight_id, seat));
            }
            if after.seat_held(flight_id, seat) {
                let id = choose|id: u64| after.holds(id, flight_id, seat);
                if id != booking.id {
                    assert(before.holds(id, flight_id, seat));
                }
            }
            if flight_id == booking.flight_id {
                let taken = after.flights[flight_id].seats_booked;
                assert(taken == listed.push(booking.seat_number));
                if seat == booking.seat_number {
                    assert(taken[taken.len() - 1] == seat);
                    assert(after.holds(booking.id, flight_id, seat));
                } else {
                    if listed.contains(seat) {
                        let i = choose|i: int| 0 <= i < listed.len() && listed[i] == seat;
                        assert(taken[i] == seat);
                    }
                    if taken.contains(seat) {
                        let i = choose|i: int| 0 <= i < taken.len() && taken[i] == seat;
                        assert(listed[i] == seat);
                    }
                }
            }
        }
    }
    assert(after.no_double_booking()) by {
        assert forall|a: u64, b: u64|
            #![trigger after.bookings[a], after.bookings[b]]
            after.bookings.contains_key(a) && after.bookings.contains_key(b) && a != b
                && after.bookings[a].flight_id
                == after.bookings[b].flight_id implies after.bookings[a].seat_number
            != after.bookings[b].seat_number by {
            if a == booking.id {
                if before.bookings[b].seat_number == booking.seat_number {
                    assert(before.holds(b, booking.flight_id, booking.seat_number));
                }
            } else if b == booking.id {
                if before.bookings[a].seat_number == booking.seat_number {
                    assert(before.holds(a, booking.flight_id, booking.seat_number));
                }
            } else {
                assert(before.bookings[a].seat_number != before.bookings[b].seat_number);
            }
        }
    }
}

/// Making a booking for a free seat of a flight that exists keeps the records
/// consistent.
pub proof fn lemma_book_consistent(before: Inventory, booking: BookingView)
    requires
        before.consistent(),
        before.next_booking_id < u64::MAX,
        booking.id == before.next_booking_id,
        before.flights.contains_key(booking.flight_id),
        before.flights[booking.flight_id].available_seats != 0,
        booking.seat_number < before.flights[booking.flight_id].total_seats,
        !before.flights[booking.flight_id].seats_booked.contains(booking.seat_number),
        !is_blank(booking.passenger_name),
        booking_size(booking) <= MAX_RECORD_BYTES,
    ensures
        before.book(booking).consistent(),
{
    let bumped = Inventory { next_booking_id: (before.next_booking_id + 1) as u64, ..before };
    assert(bumped.seats_match()) by {
        assert forall|flight_id: u64, seat: u32| bumped.flights.contains_key(flight_id) implies (
        #[trigger] bumped.flights[flight_id].seats_booked.contains(seat) <==> bumped.seat_held(
            flight_id,
            seat,
        )) by {
            lemma_same_bookings(before, bumped, flight_id, seat);
            assert(before.flights[flight_id].seats_booked.contains(seat) <==> before.seat_held(
                flight_id,
                seat,
            ));
        }
    }
    lemma_reserve_consistent(bumped, booking);
}

/// In a consistent store the flight of a booking, if it exists, lists the
/// booking's seat, and so has room to take it back.
pub proof fn lemma_booked_seat_is_listed(store: Inventory, booking_id: u64)
    requires
        store.consistent(),
        store.bookings.contains_key(booking_id),
        store.flights.contains_key(store.bookings[booking_id].flight_id),
    ensures
        store.flights[store.bookings[booking_id].flight_id].seats_booked.contains(
            store.bookings[booking_id].seat_number,
        ),
        store.flights[store.bookings[booking_id].flight_id].available_seats < u32::MAX,
{
    let booking = store.bookings[booking_id];
    assert(store.holds(booking_id, booking.flight_id, booking.seat_number));
    assert(store.seat_held(booking.flight_id, booking.seat_number));
    let flight = store.flights[booking.flight_id];
    assert(flight.seats_booked.contains(booking.seat_number));
}

/// Cancelling a booking keeps the records consistent.
pub proof fn lemma_cancel_consistent(before: Inventory, booking_id: u64)
    requires
        before.consistent(),
        before.bookings.contains_key(booking_id),
    ensures
        before.cancel(booking_id).consistent(),
{
    let after = before.cancel(booking_id);
    let booking = before.bookings[booking_id];
    if before.flights.contains_key(booking.flight_id) {
        lemma_booked_seat_is_listed(before, booking_id);
        lemma_release_seat(before.flights[booking.flight_id], booking.seat_number);
        lemma_without_seat(before.flights[booking.flight_id].seats_booked, booking.seat_number);
    }
    assert(after.seats_match()) by {
        assert forall|flight_id: u64, seat: u32| after.flights.contains_key(flight_id) implies (
        #[trigger] after.flights[flight_id].seats_booked.contains(seat) <==> after.seat_held(
            flight_id,
            seat,
        )) by {
            assert(before.flights.contains_key(flight_id));
            let listed = before.flights[flight_id].seats_booked;
            assert(listed.contains(seat) <==> before.seat_held(flight_id, seat));
            if after.seat_held(flight_id, seat) {
                let id = choose|id: u64| after.holds(id, flight_id, seat);
                assert(before.holds(id, flight_id, seat));
                if flight_id == booking.flight_id && seat == booking.seat_number {
                    assert(before.bookings[id].seat_number != before.bookings[booking_id].seat_number);
                }
            }
            if before.seat_held(flight_id, seat) {
                let id = choose|id: u64| before.holds(id, flight_id, seat);
                if id != booking_id {
                    assert(after.holds(id, flight_id, seat));
                }
            }
        }
    }
}

} // verus!
