use flight_booking::helpers::{seat_is_booked, BOOKING_CUTOFF, MIN_LEAD_TIME};
use flight_booking::{
    is_caller_agent_principal, is_caller_booker_principal, validate_booking_payload,
    validate_flight_payload, Booking, BookingPayload, Error, Flight, FlightBookingPayload,
};

fn flight_payload(airline: &str, destination: &str, departure_time: u64, seats: u32) -> FlightBookingPayload {
    FlightBookingPayload {
        airline: airline.to_string(),
        destination: destination.to_string(),
        departure_time,
        available_seats: seats,
    }
}

fn flight(departure_time: u64, available: u32, total: u32, booked: Vec<u32>) -> Flight {
    Flight {
        id: 4,
        airline: "KLM".to_string(),
        agent_principal: "agent-a".to_string(),
        destination: "Oslo".to_string(),
        departure_time,
        available_seats: available,
        total_seats: total,
        seats_booked: booked,
    }
}

fn booking_payload(name: &str, seat: u32) -> BookingPayload {
    BookingPayload { flight_id: 4, passenger_name: name.to_string(), seat_number: seat }
}

fn invalid(messages: &[&str]) -> Result<(), Error> {
    Err(Error::InvalidPayload { errors: messages.iter().map(|m| m.to_string()).collect() })
}

#[test]
fn lead_time_and_cutoff_are_as_stated() {
    assert_eq!(MIN_LEAD_TIME, 7_500_000_000_000);
    assert_eq!(BOOKING_CUTOFF, 7_200_000_000_000);
    assert!(BOOKING_CUTOFF < MIN_LEAD_TIME);
}

#[test]
fn agent_is_the_stored_principal() {
    let f = flight(0, 1, 1, vec![]);
    assert_eq!(is_caller_agent_principal(&f, &"agent-a".to_string()), Ok(()));
    assert_eq!(
        is_caller_agent_principal(&f, &"agent-b".to_string()),
        Err(Error::NotAgent { msg: "Caller is not the principal of the agent".to_string() })
    );
    assert!(is_caller_agent_principal(&f, &"".to_string()).is_err());
    assert!(is_caller_agent_principal(&f, &"agent-a ".to_string()).is_err());
}

#[test]
fn booker_is_the_stored_principal() {
    let b = Booking {
        id: 1,
        flight_id: 4,
        booker_principal: "booker-a".to_string(),
        passenger_name: "Ann".to_string(),
        seat_number: 0,
        booking_time: 9,
    };
    assert_eq!(is_caller_booker_principal(&b, &"booker-a".to_string()), Ok(()));
    assert_eq!(
        is_caller_booker_principal(&b, &"agent-a".to_string()),
        Err(Error::NotBooker { msg: "Caller is not the principal of the booker".to_string() })
    );
}

#[test]
fn valid_flight_payload_is_accepted() {
    let now = 1_000;
    let p = flight_payload("KLM", "Oslo", now + MIN_LEAD_TIME, 1);
    assert_eq!(validate_flight_payload(&p, now), Ok(()));
}

#[test]
fn flight_departing_one_nanosecond_early_is_refused() {
    let now = 1_000;
    let p = flight_payload("KLM", "Oslo", now + MIN_LEAD_TIME - 1, 1);
    assert_eq!(
        validate_flight_payload(&p, now),
        invalid(&["Departure time needs to be in the future and greater than the current timestamp=1000"])
    );
}

#[test]
fn flight_payload_errors_are_collected_in_order() {
    let p = flight_payload("  ", "", 5, 0);
    assert_eq!(
        validate_flight_payload(&p, 77),
        invalid(&[
            "Airline='  ' cannot be empty.",
            "Destination='' cannot be empty.",
            "Available seats can't be zero",
            "Departure time needs to be in the future and greater than the current timestamp=77",
        ])
    );
}

#[test]
fn flight_payload_reports_single_errors() {
    let now = 0;
    let ok_time = MIN_LEAD_TIME;
    assert_eq!(
        validate_flight_payload(&flight_payload("\t", "Oslo", ok_time, 2), now),
        invalid(&["Airline='\t' cannot be empty."])
    );
    assert_eq!(
        validate_flight_payload(&flight_payload("KLM", " \n", ok_time, 2), now),
        invalid(&["Destination=' \n' cannot be empty."])
    );
    assert_eq!(
        validate_flight_payload(&flight_payload("KLM", "Oslo", ok_time, 0), now),
        invalid(&["Available seats can't be zero"])
    );
}

#[test]
fn no_departure_is_late_enough_at_the_end_of_time() {
    let p = flight_payload("KLM", "Oslo", u64::MAX, 1);
    assert_eq!(
        validate_flight_payload(&p, u64::MAX),
        invalid(&["Departure time needs to be in the future and greater than the current timestamp=18446744073709551615"])
    );
    assert_eq!(validate_flight_payload(&p, u64::MAX - MIN_LEAD_TIME), Ok(()));
    assert!(validate_flight_payload(&p, u64::MAX - MIN_LEAD_TIME + 1).is_err());
}

#[test]
fn seat_is_booked_finds_listed_seats() {
    assert!(!seat_is_booked(&vec![], 0));
    assert!(seat_is_booked(&vec![3, 1, 2], 1));
    assert!(seat_is_booked(&vec![3, 1, 2], 2));
    assert!(!seat_is_booked(&vec![3, 1, 2], 0));
}

#[test]
fn valid_booking_payload_is_accepted() {
    let departure = 10 * BOOKING_CUTOFF;
    let f = flight(departure, 2, 3, vec![1]);
    assert_eq!(validate_booking_payload(&booking_payload("Ann", 0), &f, 0), Ok(()));
    assert_eq!(validate_booking_payload(&booking_payload("Ann", 2), &f, departure - BOOKING_CUTOFF - 1), Ok(()));
}

#[test]
fn full_flight_is_reported_alone() {
    let f = flight(1, 0, 2, vec![0, 1]);
    assert_eq!(
        validate_booking_payload(&booking_payload("", 9), &f, u64::MAX),
        invalid(&["There are no available seats"])
    );
}

#[test]
fn closed_booking_window_is_reported_alone() {
    let departure = 10 * BOOKING_CUTOFF;
    let f = flight(departure, 1, 2, vec![0]);
    let expected = invalid(&["You can only book flights whose departure time is in more than two hours."]);
    assert_eq!(validate_booking_payload(&booking_payload("", 0), &f, departure - BOOKING_CUTOFF), expected);
    assert_eq!(validate_booking_payload(&booking_payload("Ann", 1), &f, departure), expected);
    assert_eq!(validate_booking_payload(&booking_payload("Ann", 1), &f, u64::MAX), expected);
}

#[test]
fn flight_departing_within_the_cutoff_of_time_zero_is_closed() {
    let f = flight(BOOKING_CUTOFF, 1, 1, vec![]);
    assert_eq!(
        validate_booking_payload(&booking_payload("Ann", 0), &f, 0),
        invalid(&["You can only book flights whose departure time is in more than two hours."])
    );
    let g = flight(5, 1, 1, vec![]);
    assert!(validate_booking_payload(&booking_payload("Ann", 0), &g, 0).is_err());
    let h = flight(BOOKING_CUTOFF + 1, 1, 1, vec![]);
    assert_eq!(validate_booking_payload(&booking_payload("Ann", 0), &h, 0), Ok(()));
    assert!(validate_booking_payload(&booking_payload("Ann", 0), &h, 1).is_err());
}

#[test]
fn booking_payload_errors_are_collected_in_order() {
    let f = flight(10 * BOOKING_CUTOFF, 1, 2, vec![7]);
    assert_eq!(
        validate_booking_payload(&booking_payload(" ", 7), &f, 0),
        invalid(&[
            "Passenger name=' ' cannot be empty.",
            "Seat number=7 cannot be greater than the total number of seats=2.",
            "Seat number=7 is already booked.",
        ])
    );
}

#[test]
fn booking_payload_reports_single_errors() {
    let f = flight(10 * BOOKING_CUTOFF, 2, 3, vec![1]);
    assert_eq!(
        validate_booking_payload(&booking_payload("", 0), &f, 0),
        invalid(&["Passenger name='' cannot be empty."])
    );
    assert_eq!(
        validate_booking_payload(&booking_payload("Ann", 3), &f, 0),
        invalid(&["Seat number=3 cannot be greater than the total number of seats=3."])
    );
    assert_eq!(
        validate_booking_payload(&booking_payload("Ann", 1), &f, 0),
        invalid(&["Seat number=1 is already booked."])
    );
}
