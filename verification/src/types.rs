//! The records, the request payloads and the errors, each with the
//! mathematical value that the contracts speak of.

use vstd::prelude::*;

verus! {

/// One scheduled departure offered by an agent.
#[derive(Debug, PartialEq, Eq)]
pub struct Flight {
    pub id: u64,
    pub airline: String,
    pub agent_principal: String,
    pub destination: String,
    pub departure_time: u64,
    pub available_seats: u32,
    pub total_seats: u32,
    pub seats_booked: Vec<u32>,
}

/// What a [`Flight`] is, as a plain value.
pub struct FlightView {
    pub id: u64,
    pub airline: Seq<char>,
    pub agent_principal: Seq<char>,
    pub destination: Seq<char>,
    pub departure_time: u64,
    pub available_seats: u32,
    pub total_seats: u32,
    pub seats_booked: Seq<u32>,
}

impl FlightView {
    /// The seat counter and the list of occupied seats agree: every seat is
    /// either free or listed, no seat is listed twice, and every listed seat
    /// exists.
    pub open spec fn wf(self) -> bool {
        &&& self.available_seats + self.seats_booked.len() == self.total_seats
        &&& self.seats_booked.no_duplicates()
        &&& forall|i: int|
            0 <= i < self.seats_booked.len() ==> #[trigger] self.seats_booked[i] < self.total_seats
    }

    /// The occupied seats as a set.
    pub open spec fn occupied(self) -> Set<u32> {
        self.seats_booked.to_set()
    }
}

impl View for Flight {
    type V = FlightView;

    open spec fn view(&self) -> FlightView {
        FlightView {
            id: self.id,
            airline: self.airline@,
            agent_principal: self.agent_principal@,
            destination: self.destination@,
            departure_time: self.departure_time,
            available_seats: self.available_seats,
            total_seats: self.total_seats,
            seats_booked: self.seats_booked@,
        }
    }
}

impl Clone for Flight {
    fn clone(&self) -> (copy: Self)
        ensures
            copy@ == self@,
    {
        Flight {
            id: self.id,
            airline: self.airline.clone(),
            agent_principal: self.agent_principal.clone(),
            destination: self.destination.clone(),
            departure_time: self.departure_time,
            available_seats: self.available_seats,
            total_seats: self.total_seats,
            seats_booked: self.seats_booked.clone(),
        }
    }
}

impl Default for Flight {
    fn default() -> (flight: Self)
        ensures
            flight@ == (FlightView {
                id: 0,
                airline: Seq::empty(),
                agent_principal: Seq::empty(),
                destination: Seq::empty(),
                departure_time: 0,
                available_seats: 0,
                total_seats: 0,
                seats_booked: Seq::empty(),
            }),
    {
        Flight {
            id: 0,
            airline: String::new(),
            agent_principal: String::new(),
            destination: String::new(),
            departure_time: 0,
            available_seats: 0,
            total_seats: 0,
            seats_booked: Vec::new(),
        }
    }
}

/// One passenger's reservation of one seat on one flight.
#[derive(Debug, PartialEq, Eq)]
pub struct Booking {
    pub id: u64,
    pub flight_id: u64,
    pub booker_principal: String,
    pub passenger_name: String,
    pub seat_number: u32,
    pub booking_time: u64,
}

/// What a [`Booking`] is, as a plain value.
pub struct BookingView {
    pub id: u64,
    pub flight_id: u64,
    pub booker_principal: Seq<char>,
    pub passenger_name: Seq<char>,
    pub seat_number: u32,
    pub booking_time: u64,
}

impl View for Booking {
    type V = BookingView;

    open spec fn view(&self) -> BookingView {
        BookingView {
            id: self.id,
            flight_id: self.flight_id,
            booker_principal: self.booker_principal@,
            passenger_name: self.passenger_name@,
            seat_number: self.seat_number,
            booking_time: self.booking_time,
        }
    }
}

impl Clone for Booking {
    fn clone(&self) -> (copy: Self)
        ensures
            copy@ == self@,
    {
        Booking {
            id: self.id,
            flight_id: self.flight_id,
            booker_principal: self.booker_principal.clone(),
            passenger_name: self.passenger_name.clone(),
            seat_number: self.seat_number,
            booking_time: self.booking_time,
        }
    }
}

impl Default for Booking {
    fn default() -> (booking: Self)
        ensures
            booking@ == (BookingView {
                id: 0,
                flight_id: 0,
                booker_principal: Seq::empty(),
                passenger_name: Seq::empty(),
                seat_number: 0,
                booking_time: 0,
            }),
    {
        Booking {
            id: 0,
            flight_id: 0,
            booker_principal: String::new(),
            passenger_name: String::new(),
            seat_number: 0,
            booking_time: 0,
        }
    }
}

/// A request to reserve a seat, or to change a reservation.
#[derive(Debug, PartialEq, Eq)]
pub struct BookingPayload {
    pub flight_id: u64,
    pub passenger_name: String,
    pub seat_number: u32,
}

/// What a [`BookingPayload`] is, as a plain value.
pub struct BookingPayloadView {
    pub flight_id: u64,
    pub passenger_name: Seq<char>,
    pub seat_number: u32,
}

impl View for BookingPayload {
    type V = BookingPayloadView;

    open spec fn view(&self) -> BookingPayloadView {
        BookingPayloadView {
            flight_id: self.flight_id,
            passenger_name: self.passenger_name@,
            seat_number: self.seat_number,
        }
    }
}

impl Clone for BookingPayload {
    fn clone(&self) -> (copy: Self)
        ensures
            copy@ == self@,
    {
        BookingPayload {
            flight_id: self.flight_id,
            passenger_name: self.passenger_name.clone(),
            seat_number: self.seat_number,
        }
    }
}

impl Default for BookingPayload {
    fn default() -> (payload: Self)
        ensures
            payload@ == (BookingPayloadView {
                flight_id: 0,
                passenger_name: Seq::empty(),
                seat_number: 0,
            }),
    {
        BookingPayload { flight_id: 0, passenger_name: String::new(), seat_number: 0 }
    }
}

/// A request to publish a flight, or to change one.
#[derive(Debug, PartialEq, Eq)]
pub struct FlightBookingPayload {
    pub airline: String,
    pub destination: String,
    pub departure_time: u64,
    pub available_seats: u32,
}

/// What a [`FlightBookingPayload`] is, as a plain value.
pub struct FlightBookingPayloadView {
    pub airline: Seq<char>,
    pub destination: Seq<char>,
    pub departure_time: u64,
    pub available_seats: u32,
}

impl View for FlightBookingPayload {
    type V = FlightBookingPayloadView;

    open spec fn view(&self) -> FlightBookingPayloadView {
        FlightBookingPayloadView {
            airline: self.airline@,
            destination: self.destination@,
            departure_time: self.departure_time,
            available_seats: self.available_seats,
        }
    }
}

impl Default for FlightBookingPayload {
    fn default() -> (payload: Self)
        ensures
            payload@ == (FlightBookingPayloadView {
                airline: Seq::empty(),
                destination: Seq::empty(),
                departure_time: 0,
                available_seats: 0,
            }),
    {
        FlightBookingPayload {
            airline: String::new(),
            destination: String::new(),
            departure_time: 0,
            available_seats: 0,
        }
    }
}

/// Why a request was turned down.
#[derive(Debug, PartialEq, Eq)]
pub enum Error {
    /// The flight or booking that the request names does not exist.
    NotFound { msg: String },
    /// The flight has no free seat.
    NoSeatsAvailable { msg: String },
    /// The payload breaks one or more rules; each message names one.
    InvalidPayload { errors: Vec<String> },
    /// The caller is not the agent who published the flight.
    NotAgent { msg: String },
    /// The caller is not the booker who made the reservation.
    NotBooker { msg: String },
    /// A rule of the business, other than the above, forbids the request.
    Error { msg: String },
}

/// What an [`Error`] is, as a plain value.
pub enum ErrorView {
    NotFound { msg: Seq<char> },
    NoSeatsAvailable { msg: Seq<char> },
    InvalidPayload { errors: Seq<Seq<char>> },
    NotAgent { msg: Seq<char> },
    NotBooker { msg: Seq<char> },
    Error { msg: Seq<char> },
}

/// The texts of a list of messages.
pub open spec fn message_texts(messages: Seq<String>) -> Seq<Seq<char>> {
    Seq::new(messages.len(), |i: int| messages[i]@)
}

impl View for Error {
    type V = ErrorView;

    open spec fn view(&self) -> ErrorView {
        match *self {
            Error::NotFound { msg } => ErrorView::NotFound { msg: msg@ },
            Error::NoSeatsAvailable { msg } => ErrorView::NoSeatsAvailable { msg: msg@ },
            Error::InvalidPayload { errors } => ErrorView::InvalidPayload {
                errors: message_texts(errors@),
            },
            Error::NotAgent { msg } => ErrorView::NotAgent { msg: msg@ },
            Error::NotBooker { msg } => ErrorView::NotBooker { msg: msg@ },
            Error::Error { msg } => ErrorView::Error { msg: msg@ },
        }
    }
}

} // verus!
