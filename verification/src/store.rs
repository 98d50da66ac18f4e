//! The inventory store: flights and bookings by identifier, and the counters
//! that issue identifiers. Records are kept as bytes in stable maps.

use crate::records::{
    booking_size, decode_booking, decode_flight, encode_booking, encode_flight,
    flight_full_size, flight_size, lemma_parse_booking, lemma_parse_flight, parse_booking,
    parse_flight,
};
use crate::stable::{
    id_cell_get, id_cell_set, id_cell_value, new_id_cell, new_memories, new_record_map,
    record_map_entries, record_map_get, record_map_insert, record_map_remove, virtual_memory,
    IdCell, RecordMap, MAX_RECORD_BYTES,
};
use crate::text::is_blank;
use crate::types::{Booking, BookingView, Flight, FlightView};
use vstd::prelude::*;

verus! {

/// The flights and bookings of the service, and its identifier counters.
pub struct Store {
    flights: RecordMap,
    bookings: RecordMap,
    flight_ids: IdCell,
    booking_ids: IdCell,
}

/// What a [`Store`] holds, as a plain value.
pub struct Inventory {
    /// The flights, by identifier.
    pub flights: Map<u64, FlightView>,
    /// The bookings, by identifier.
    pub bookings: Map<u64, BookingView>,
    /// The identifier that the next flight gets.
    pub next_flight_id: u64,
    /// The identifier that the next booking gets.
    pub next_booking_id: u64,
}

impl Inventory {
    /// Every flight is filed under its own identifier, which the counter has
    /// passed; it has an airline, a destination and at least one seat; its
    /// seat counter agrees with its list of occupied seats; and it fits a
    /// record even when every seat is booked.
    pub open spec fn flights_wf(self) -> bool {
        forall|id: u64| #[trigger]
            self.flights.contains_key(id) ==> {
                &&& self.flights[id].id == id
                &&& id < self.next_flight_id
                &&& !is_blank(self.flights[id].airline)
                &&& !is_blank(self.flights[id].destination)
                &&& self.flights[id].total_seats != 0
                &&& self.flights[id].wf()
                &&& flight_full_size(self.flights[id]) <= MAX_RECORD_BYTES
            }
    }

    /// Every booking is filed under its own identifier, which the counter has
    /// passed; it names a passenger and a flight that was once published; and
    /// it fits a record.
    pub open spec fn bookings_wf(self) -> bool {
        forall|id: u64| #[trigger]
            self.bookings.contains_key(id) ==> {
                &&& self.bookings[id].id == id
                &&& id < self.next_booking_id
                &&& self.bookings[id].flight_id < self.next_flight_id
                &&& !is_blank(self.bookings[id].passenger_name)
                &&& booking_size(self.bookings[id]) <= MAX_RECORD_BYTES
            }
    }

    /// Booking `id` exists and holds seat `seat` of flight `flight_id`.
    pub open spec fn holds(self, id: u64, flight_id: u64, seat: u32) -> bool {
        &&& self.bookings.contains_key(id)
        &&& self.bookings[id].flight_id == flight_id
        &&& self.bookings[id].seat_number == seat
    }

    /// Some booking holds seat `seat` of flight `flight_id`.
    pub open spec fn seat_held(self, flight_id: u64, seat: u32) -> bool {
        exists|id: u64| self.holds(id, flight_id, seat)
    }

    /// The seats of flight `flight_id` that bookings hold.
    pub open spec fn held_seats(self, flight_id: u64) -> Set<u32> {
        Set::new(|seat: u32| self.seat_held(flight_id, seat))
    }

    /// A flight lists a seat as occupied exactly if a booking holds it.
    pub open spec fn seats_match(self) -> bool {
        forall|flight_id: u64, seat: u32|
            self.flights.contains_key(flight_id) ==> (
            #[trigger] self.flights[flight_id].seats_booked.contains(seat) <==> self.seat_held(
                flight_id,
                seat,
            ))
    }

    /// No two bookings hold the same seat of the same flight.
    pub open spec fn no_double_booking(self) -> bool {
        forall|a: u64, b: u64|
            #![trigger self.bookings[a], self.bookings[b]]
            self.bookings.contains_key(a) && self.bookings.contains_key(b) && a != b
                && self.bookings[a].flight_id == self.bookings[b].flight_id
                ==> self.bookings[a].seat_number != self.bookings[b].seat_number
    }

    /// The records agree with each other.
    pub open spec fn consistent(self) -> bool {
        &&& self.flights_wf()
        &&& self.bookings_wf()
        &&& self.seats_match()
        &&& self.no_double_booking()
    }
}

impl View for Store {
    type V = Inventory;

    closed spec fn view(&self) -> Inventory {
        Inventory {
            flights: Map::new(
                |id: u64| record_map_entries(self.flights).contains_key(id),
                |id: u64| parse_flight(record_map_entries(self.flights)[id]).unwrap(),
            ),
            bookings: Map::new(
                |id: u64| record_map_entries(self.bookings).contains_key(id),
                |id: u64| parse_booking(record_map_entries(self.bookings)[id]).unwrap(),
            ),
            next_flight_id: id_cell_value(self.flight_ids),
            next_booking_id: id_cell_value(self.booking_ids),
        }
    }
}

impl Store {
    /// Every value in the store is a record: it can be read back.
    pub closed spec fn readable(&self) -> bool {
        &&& forall|id: u64| #[trigger]
            record_map_entries(self.flights).contains_key(id) ==> parse_flight(
                record_map_entries(self.flights)[id],
            ) is Some
        &&& forall|id: u64| #[trigger]
            record_map_entries(self.bookings).contains_key(id) ==> parse_booking(
                record_map_entries(self.bookings)[id],
            ) is Some
    }

    /// The store can be read and its records agree with each other.
    pub open spec fn wf(&self) -> bool {
        self.readable() && self@.consistent()
    }

    /// A store without flights or bookings, both counters at zero. The store
    /// lives in the default memory, and what that memory held before is
    /// overwritten: make one store, and keep it.
    pub fn new() -> (store: Store)
        ensures
            store.wf(),
            store@.flights == Map::<u64, FlightView>::empty(),
            store@.bookings == Map::<u64, BookingView>::empty(),
            store@.next_flight_id == 0,
            store@.next_booking_id == 0,
    {
        let memories = new_memories();
        let flight_ids = new_id_cell(virtual_memory(&memories, 0), 0);
        let booking_ids = new_id_cell(virtual_memory(&memories, 1), 0);
        let flights = new_record_map(virtual_memory(&memories, 2));
        let bookings = new_record_map(virtual_memory(&memories, 3));
        let store = Store { flights, bookings, flight_ids, booking_ids };
        store
    }

    /// The identifier that the next flight gets.
    pub fn next_flight_id(&self) -> (id: u64)
        ensures
            id == self@.next_flight_id,
    {
        id_cell_get(&self.flight_ids)
    }

    /// The identifier that the next booking gets.
    pub fn next_booking_id(&self) -> (id: u64)
        ensures
            id == self@.next_booking_id,
    {
        id_cell_get(&self.booking_ids)
    }

    /// Issues a flight identifier: returns the counter and moves it on by one.
    pub fn issue_flight_id(&mut self) -> (id: u64)
        requires
            old(self).readable(),
            old(self)@.next_flight_id < u64::MAX,
        ensures
            final(self).readable(),
            id == old(self)@.next_flight_id,
            final(self)@ == (Inventory { next_flight_id: (id + 1) as u64, ..old(self)@ }),
    {
        let id = id_cell_get(&self.flight_ids);
        id_cell_set(&mut self.flight_ids, id + 1);
        id
    }

    /// Issues a booking identifier: returns the counter and moves it on by one.
    pub fn issue_booking_id(&mut self) -> (id: u64)
        requires
            old(self).readable(),
            old(self)@.next_booking_id < u64::MAX,
        ensures
            final(self).readable(),
            id == old(self)@.next_booking_id,
            final(self)@ == (Inventory { next_booking_id: (id + 1) as u64, ..old(self)@ }),
    {
        let id = id_cell_get(&self.booking_ids);
        id_cell_set(&mut self.booking_ids, id + 1);
        id
    }

    /// Drops the flight with the given identifier, if there is one.
    pub fn remove_flight(&mut self, flight_id: u64)
        requires
            old(self).readable(),
        ensures
            final(self).readable(),
            final(self)@ == (Inventory {
                flights: old(self)@.flights.remove(flight_id),
                ..old(self)@
            }),
    {
        record_map_remove(&mut self.flights, flight_id);
        assert(self@.flights =~= old(self)@.flights.remove(flight_id));
    }

    /// Drops the booking with the given identifier, if there is one.
    pub fn remove_booking(&mut self, booking_id: u64)
        requires
            old(self).readable(),
        ensures
            final(self).readable(),
            final(self)@ == (Inventory {
                bookings: old(self)@.bookings.remove(booking_id),
                ..old(self)@
            }),
    {
        record_map_remove(&mut self.bookings, booking_id);
        assert(self@.bookings =~= old(self)@.bookings.remove(booking_id));
    }
}

/// The flight with the given identifier, if there is one.
pub fn _get_flight(store: &Store, flight_id: &u64) -> (flight: Option<Flight>)
    requires
        store.readable(),
    ensures
        flight is Some <==> store@.flights.contains_key(*flight_id),
        flight matches Some(found) ==> found@ == store@.flights[*flight_id],
{
    match record_map_get(&store.flights, *flight_id) {
        Some(bytes) => decode_flight(&bytes),
        None => None,
    }
}

/// The booking with the given identifier, if there is one.
pub fn _get_booking(store: &Store, booking_id: &u64) -> (booking: Option<Booking>)
    requires
        store.readable(),
    ensures
        booking is Some <==> store@.bookings.contains_key(*booking_id),
        booking matches Some(found) ==> found@ == store@.bookings[*booking_id],
{
    match record_map_get(&store.bookings, *booking_id) {
        Some(bytes) => decode_booking(&bytes),
        None => None,
    }
}

/// Files a flight under its identifier, in place of the flight that was there.
pub fn do_insert_flight(store: &mut Store, flight: &Flight)
    requires
        old(store).readable(),
        flight_size(flight@) <= MAX_RECORD_BYTES,
    ensures
        final(store).readable(),
        final(store)@ == (Inventory {
            flights: old(store)@.flights.insert(flight.id, flight@),
            ..old(store)@
        }),
{
    let bytes = encode_flight(flight);
    proof {
        lemma_parse_flight(flight@);
    }
    record_map_insert(&mut store.flights, flight.id, bytes);
    assert(store@.flights =~= old(store)@.flights.insert(flight.id, flight@));
}

/// Files a booking under its identifier, in place of the booking that was there.
pub fn do_insert_booking(store: &mut Store, booking: &Booking)
    requires
        old(store).readable(),
        booking_size(booking@) <= MAX_RECORD_BYTES,
    ensures
        final(store).readable(),
        final(store)@ == (Inventory {
            bookings: old(store)@.bookings.insert(booking.id, booking@),
            ..old(store)@
        }),
{
    let bytes = encode_booking(booking);
    proof {
        lemma_parse_booking(booking@);
    }
    record_map_insert(&mut store.bookings, booking.id, bytes);
    assert(store@.bookings =~= old(store)@.bookings.insert(booking.id, booking@));
}

} // verus!
