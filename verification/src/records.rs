//! Flights and bookings as bytes: the form in which the store keeps them.

use crate::codec::{
    lemma_parse_seat_list, lemma_parse_text, lemma_parse_u32, lemma_parse_u64, parse_seat_list,
    parse_text, parse_u32, parse_u64, read_seat_list, read_text, read_u32, read_u64,
    seat_list_bytes, text_bytes, u32_bytes, u64_bytes, write_seat_list, write_text, write_u32,
    write_u64,
};
use crate::stable::MAX_RECORD_BYTES;
use crate::types::{Booking, BookingView, Flight, FlightView};
use vstd::prelude::*;
use vstd::utf8::encode_utf8;

verus! {

/// The number of bytes that a text takes in UTF-8.
pub open spec fn utf8_len(text: Seq<char>) -> nat {
    encode_utf8(text).len()
}

/// A flight as bytes.
pub open spec fn flight_bytes(flight: FlightView) -> Seq<u8> {
    u64_bytes(flight.id) + (text_bytes(flight.airline) + (text_bytes(flight.agent_principal) + (
    text_bytes(flight.destination) + (u64_bytes(flight.departure_time) + (u32_bytes(
        flight.available_seats,
    ) + (u32_bytes(flight.total_seats) + seat_list_bytes(flight.seats_booked)))))))
}

/// The number of bytes that a flight takes.
pub open spec fn flight_size(flight: FlightView) -> nat {
    56 + utf8_len(flight.airline) + utf8_len(flight.agent_principal) + utf8_len(
        flight.destination,
    ) + 4 * flight.seats_booked.len()
}

/// The number of bytes that a flight takes once every seat is booked.
pub open spec fn flight_full_size(flight: FlightView) -> int {
    56int + utf8_len(flight.airline) + utf8_len(flight.agent_principal) + utf8_len(
        flight.destination,
    ) + 4 * flight.total_seats
}

/// The flight that bytes stand for, if they stand for one.
pub open spec fn parse_flight(bytes: Seq<u8>) -> Option<FlightView> {
    match parse_u64(bytes) {
        Some((id, s1)) => match parse_text(s1) {
            Some((airline, s2)) => match parse_text(s2) {
                Some((agent_principal, s3)) => match parse_text(s3) {
                    Some((destination, s4)) => match parse_u64(s4) {
                        Some((departure_time, s5)) => match parse_u32(s5) {
                            Some((available_seats, s6)) => match parse_u32(s6) {
                                Some((total_seats, s7)) => match parse_seat_list(s7) {
                                    Some((seats_booked, s8)) => if s8.len() == 0 {
                                        Some(
                                            FlightView {
                                                id,
                                                airline,
                                                agent_principal,
                                                destination,
                                                departure_time,
                                                available_seats,
                                                total_seats,
                                                seats_booked,
                                            },
                                        )
                                    } else {
                                        None
                                    },
                                    None => None,
                                },
                                None => None,
                            },
                            None => None,
                        },
                        None => None,
                    },
                    None => None,
                },
                None => None,
            },
            None => None,
        },
        None => None,
    }
}

/// A flight that was written is read back, if it is not too long for a record.
pub proof fn lemma_parse_flight(flight: FlightView)
    requires
        flight_size(flight) <= MAX_RECORD_BYTES,
    ensures
        flight_bytes(flight).len() == flight_size(flight),
        parse_flight(flight_bytes(flight)) == Some(flight),
{
    let empty = Seq::<u8>::empty();
    let b8 = seat_list_bytes(flight.seats_booked);
    let b7 = u32_bytes(flight.total_seats) + b8;
    let b6 = u32_bytes(flight.available_seats) + b7;
    let b5 = u64_bytes(flight.departure_time) + b6;
    let b4 = text_bytes(flight.destination) + b5;
    let b3 = text_bytes(flight.agent_principal) + b4;
    let b2 = text_bytes(flight.airline) + b3;
    lemma_parse_u64(flight.id, b2);
    lemma_parse_text(flight.airline, b3);
    lemma_parse_text(flight.agent_principal, b4);
    lemma_parse_text(flight.destination, b5);
    lemma_parse_u64(flight.departure_time, b6);
    lemma_parse_u32(flight.available_seats, b7);
    lemma_parse_u32(flight.total_seats, b8);
    lemma_parse_seat_list(flight.seats_booked, empty);
}

/// Writes a flight as bytes.
pub fn encode_flight(flight: &Flight) -> (bytes: Vec<u8>)
    ensures
        bytes@ == flight_bytes(flight@),
{
    let mut out: Vec<u8> = Vec::new();
    write_u64(&mut out, flight.id);
    write_text(&mut out, &flight.airline);
    write_text(&mut out, &flight.agent_principal);
    write_text(&mut out, &flight.destination);
    write_u64(&mut out, flight.departure_time);
    write_u32(&mut out, flight.available_seats);
    write_u32(&mut out, flight.total_seats);
    write_seat_list(&mut out, &flight.seats_booked);
    out
}

/// Reads a flight from bytes.
pub fn decode_flight(bytes: &Vec<u8>) -> (flight: Option<Flight>)
    ensures
        flight is Some <==> parse_flight(bytes@) is Some,
        flight matches Some(found) ==> parse_flight(bytes@) == Some(found@),
{
    let data = bytes.as_slice();
    assert(data@.skip(0) =~= bytes@);
    let (id, p1) = match read_u64(data, 0) {
        Some(found) => found,
        None => { return None; },
    };
    let (airline, p2) = match read_text(data, p1) {
        Some(found) => found,
        None => { return None; },
    };
    let (agent_principal, p3) = match read_text(data, p2) {
        Some(found) => found,
        None => { return None; },
    };
    let (destination, p4) = match read_text(data, p3) {
        Some(found) => found,
        None => { return None; },
    };
    let (departure_time, p5) = match read_u64(data, p4) {
        Some(found) => found,
        None => { return None; },
    };
    let (available_seats, p6) = match read_u32(data, p5) {
        Some(found) => found,
        None => { return None; },
    };
    let (total_seats, p7) = match read_u32(data, p6) {
        Some(found) => found,
        None => { return None; },
    };
    let (seats_booked, p8) = match read_seat_list(data, p7) {
        Some(found) => found,
        None => { return None; },
    };
    if p8 != data.len() {
        return None;
    }
    Some(
        Flight {
            id,
            airline,
            agent_principal,
            destination,
            departure_time,
            available_seats,
            total_seats,
            seats_booked,
        },
    )
}

/// A booking as bytes.
pub open spec fn booking_bytes(booking: BookingView) -> Seq<u8> {
    u64_bytes(booking.id) + (u64_bytes(booking.flight_id) + (text_bytes(booking.booker_principal)
        + (text_bytes(booking.passenger_name) + (u32_bytes(booking.seat_number) + u64_bytes(
        booking.booking_time,
    )))))
}

/// The number of bytes that a booking takes.
pub open spec fn booking_size(booking: BookingView) -> nat {
    44 + utf8_len(booking.booker_principal) + utf8_len(booking.passenger_name)
}

/// The booking that bytes stand for, if they stand for one.
pub open spec fn parse_booking(bytes: Seq<u8>) -> Option<BookingView> {
    match parse_u64(bytes) {
        Some((id, s1)) => match parse_u64(s1) {
            Some((flight_id, s2)) => match parse_text(s2) {
                Some((booker_principal, s3)) => match parse_text(s3) {
                    Some((passenger_name, s4)) => match parse_u32(s4) {
                        Some((seat_number, s5)) => match parse_u64(s5) {
                            Some((booking_time, s6)) => if s6.len() == 0 {
                                Some(
                                    BookingView {
                                        id,
                                        flight_id,
                                        booker_principal,
                                        passenger_name,
                                        seat_number,
                                        booking_time,
                                    },
                                )
                            } else {
                                None
                            },
                            None => None,
                        },
                        None => None,
                    },
                    None => None,
                },
                None => None,
            },
            None => None,
        },
        None => None,
    }
}

/// A booking that was written is read back, if it is not too long for a record.
pub proof fn lemma_parse_booking(booking: BookingView)
    requires
        booking_size(booking) <= MAX_RECORD_BYTES,
    ensures
        booking_bytes(booking).len() == booking_size(booking),
        parse_booking(booking_bytes(booking)) == Some(booking),
{
    let empty = Seq::<u8>::empty();
    let b6 = u64_bytes(booking.booking_time);
    let b5 = u32_bytes(booking.seat_number) + b6;
    let b4 = text_bytes(booking.passenger_name) + b5;
    let b3 = text_bytes(booking.booker_principal) + b4;
    let b2 = u64_bytes(booking.flight_id) + b3;
    lemma_parse_u64(booking.id, b2);
    lemma_parse_u64(booking.flight_id, b3);
    lemma_parse_text(booking.booker_principal, b4);
    lemma_parse_text(booking.passenger_name, b5);
    lemma_parse_u32(booking.seat_number, b6);
    lemma_parse_u64(booking.booking_time, empty);
}

/// Writes a booking as bytes.
pub fn encode_booking(booking: &Booking) -> (bytes: Vec<u8>)
    ensures
        bytes@ == booking_bytes(booking@),
{
    let mut out: Vec<u8> = Vec::new();
    write_u64(&mut out, booking.id);
    write_u64(&mut out, booking.flight_id);
    write_text(&mut out, &booking.booker_principal);
    write_text(&mut out, &booking.passenger_name);
    write_u32(&mut out, booking.seat_number);
    write_u64(&mut out, booking.booking_time);
    out
}

/// Reads a booking from bytes.
pub fn decode_booking(bytes: &Vec<u8>) -> (booking: Option<Booking>)
    ensures
        booking is Some <==> parse_booking(bytes@) is Some,
        booking matches Some(found) ==> parse_booking(bytes@) == Some(found@),
{
    let data = bytes.as_slice();
    assert(data@.skip(0) =~= bytes@);
    let (id, p1) = match read_u64(data, 0) {
        Some(found) => found,
        None => { return None; },
    };
    let (flight_id, p2) = match read_u64(data, p1) {
        Some(found) => found,
        None => { return None; },
    };
    let (booker_principal, p3) = match read_text(data, p2) {
        Some(found) => found,
        None => { return None; },
    };
    let (passenger_name, p4) = match read_text(data, p3) {
        Some(found) => found,
        None => { return None; },
    };
    let (seat_number, p5) = match read_u32(data, p4) {
        Some(found) => found,
        None => { return None; },
    };
    let (booking_time, p6) = match read_u64(data, p5) {
        Some(found) => found,
        None => { return None; },
    };
    if p6 != data.len() {
        return None;
    }
    Some(Booking { id, flight_id, booker_principal, passenger_name, seat_number, booking_time })
}

} // verus!
