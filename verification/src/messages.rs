//! The messages that errors carry: what each says, and the function that
//! writes it.

use crate::text::{decimal, decimal_string};
use vstd::prelude::*;
use vstd::string::StringExecFns;

verus! {

/// The airline of a flight payload is blank.
pub open spec fn airline_message(airline: Seq<char>) -> Seq<char> {
    "Airline='"@ + airline + "' cannot be empty."@
}

/// The destination of a flight payload is blank.
pub open spec fn destination_message(destination: Seq<char>) -> Seq<char> {
    "Destination='"@ + destination + "' cannot be empty."@
}

/// A flight payload offers no seat.
pub open spec fn zero_seats_message() -> Seq<char> {
    "Available seats can't be zero"@
}

/// A flight payload departs too soon after `now`.
pub open spec fn departure_message(now: u64) -> Seq<char> {
    "Departure time needs to be in the future and greater than the current timestamp="@ + decimal(
        now as nat,
    )
}

/// The flight has no free seat.
pub open spec fn no_seats_message() -> Seq<char> {
    "There are no available seats"@
}

/// The flight departs too soon for a booking.
pub open spec fn cutoff_message() -> Seq<char> {
    "You can only book flights whose departure time is in more than two hours."@
}

/// The passenger name of a booking payload is blank.
pub open spec fn passenger_message(name: Seq<char>) -> Seq<char> {
    "Passenger name='"@ + name + "' cannot be empty."@
}

/// The seat of a booking payload does not exist on the flight.
pub open spec fn seat_range_message(seat: u32, total_seats: u32) -> Seq<char> {
    "Seat number="@ + decimal(seat as nat)
        + " cannot be greater than the total number of seats="@ + decimal(total_seats as nat)
        + "."@
}

/// The seat of a booking payload is occupied.
pub open spec fn seat_taken_message(seat: u32) -> Seq<char> {
    "Seat number="@ + decimal(seat as nat) + " is already booked."@
}

/// No flight has the identifier.
pub open spec fn flight_not_found_message(id: u64) -> Seq<char> {
    "a flight with id="@ + decimal(id as nat) + " not found"@
}

/// No booking has the identifier.
pub open spec fn booking_not_found_message(id: u64) -> Seq<char> {
    "a booking with id="@ + decimal(id as nat) + " not found"@
}

/// The caller did not publish the flight.
pub open spec fn not_agent_message() -> Seq<char> {
    "Caller is not the principal of the agent"@
}

/// The caller did not make the booking.
pub open spec fn not_booker_message() -> Seq<char> {
    "Caller is not the principal of the booker"@
}

/// A flight with bookings cannot be changed.
pub open spec fn flight_booked_message() -> Seq<char> {
    "Cannot update a flight that is already booked"@
}

/// A booking cannot move to another flight.
pub open spec fn flight_mismatch_message(flight_id: u64) -> Seq<char> {
    "Invalid flight id specified as the flight id of the booking is "@ + decimal(flight_id as nat)
}

/// Writes [`airline_message`].
pub fn airline_text(airline: &String) -> (text: String)
    ensures
        text@ == airline_message(airline@),
{
    let mut text = String::from_str("Airline='");
    text.append(airline.as_str());
    text.append("' cannot be empty.");
    text
}

/// Writes [`destination_message`].
pub fn destination_text(destination: &String) -> (text: String)
    ensures
        text@ == destination_message(destination@),
{
    let mut text = String::from_str("Destination='");
    text.append(destination.as_str());
    text.append("' cannot be empty.");
    text
}

/// Writes [`zero_seats_message`].
pub fn zero_seats_text() -> (text: String)
    ensures
        text@ == zero_seats_message(),
{
    String::from_str("Available seats can't be zero")
}

/// Writes [`departure_message`].
pub fn departure_text(now: u64) -> (text: String)
    ensures
        text@ == departure_message(now),
{
    let mut text = String::from_str(
        "Departure time needs to be in the future and greater than the current timestamp=",
    );
    let number = decimal_string(now);
    text.append(number.as_str());
    text
}

/// Writes [`no_seats_message`].
pub fn no_seats_text() -> (text: String)
    ensures
        text@ == no_seats_message(),
{
    String::from_str("There are no available seats")
}

/// Writes [`cutoff_message`].
pub fn cutoff_text() -> (text: String)
    ensures
        text@ == cutoff_message(),
{
    String::from_str("You can only book flights whose departure time is in more than two hours.")
}

/// Writes [`passenger_message`].
pub fn passenger_text(name: &String) -> (text: String)
    ensures
        text@ == passenger_message(name@),
{
    let mut text = String::from_str("Passenger name='");
    text.append(name.as_str());
    text.append("' cannot be empty.");
    text
}

/// Writes [`seat_range_message`].
pub fn seat_range_text(seat: u32, total_seats: u32) -> (text: String)
    ensures
        text@ == seat_range_message(seat, total_seats),
{
    let mut text = String::from_str("Seat number=");
    let number = decimal_string(seat as u64);
    text.append(number.as_str());
    text.append(" cannot be greater than the total number of seats=");
    let total = decimal_string(total_seats as u64);
    text.append(total.as_str());
    text.append(".");
    text
}

/// Writes [`seat_taken_message`].
pub fn seat_taken_text(seat: u32) -> (text: String)
    ensures
        text@ == seat_taken_message(seat),
{
    let mut text = String::from_str("Seat number=");
    let number = decimal_string(seat as u64);
    text.append(number.as_str());
    text.append(" is already booked.");
    text
}

/// Writes [`flight_not_found_message`].
pub fn flight_not_found_text(id: u64) -> (text: String)
    ensures
        text@ == flight_not_found_message(id),
{
    let mut text = String::from_str("a flight with id=");
    let number = decimal_string(id);
    text.append(number.as_str());
    text.append(" not found");
    text
}

/// Writes [`booking_not_found_message`].
pub fn booking_not_found_text(id: u64) -> (text: String)
    ensures
        text@ == booking_not_found_message(id),
{
    let mut text = String::from_str("a booking with id=");
    let number = decimal_string(id);
    text.append(number.as_str());
    text.append(" not found");
    text
}

/// Writes [`not_agent_message`].
pub fn not_agent_text() -> (text: String)
    ensures
        text@ == not_agent_message(),
{
    String::from_str("Caller is not the principal of the agent")
}

/// Writes [`not_booker_message`].
pub fn not_booker_text() -> (text: String)
    ensures
        text@ == not_booker_message(),
{
    String::from_str("Caller is not the principal of the booker")
}

/// Writes [`flight_booked_message`].
pub fn flight_booked_text() -> (text: String)
    ensures
        text@ == flight_booked_message(),
{
    String::from_str("Cannot update a flight that is already booked")
}

/// Writes [`flight_mismatch_message`].
pub fn flight_mismatch_text(flight_id: u64) -> (text: String)
    ensures
        text@ == flight_mismatch_message(flight_id),
{
    let mut text = String::from_str(
        "Invalid flight id specified as the flight id of the booking is ",
    );
    let number = decimal_string(flight_id);
    text.append(number.as_str());
    text
}

} // verus!
