use flight_booking::{Booking, Flight, Store, _get_booking, _get_flight, do_insert_booking, do_insert_flight};

fn flight(id: u64, airline: &str) -> Flight {
    Flight {
        id,
        airline: airline.to_string(),
        agent_principal: "agent".to_string(),
        destination: "Oslo".to_string(),
        departure_time: 1,
        available_seats: 2,
        total_seats: 2,
        seats_booked: vec![],
    }
}

fn booking(id: u64, flight_id: u64, seat: u32) -> Booking {
    Booking {
        id,
        flight_id,
        booker_principal: "booker".to_string(),
        passenger_name: "Ann".to_string(),
        seat_number: seat,
        booking_time: 3,
    }
}

#[test]
fn new_store_is_empty() {
    let store = Store::new();
    assert_eq!(_get_flight(&store, &0), None);
    assert_eq!(_get_booking(&store, &0), None);
    assert_eq!(store.next_flight_id(), 0);
    assert_eq!(store.next_booking_id(), 0);
}

#[test]
fn inserted_flight_is_found_under_its_identifier() {
    let mut store = Store::new();
    do_insert_flight(&mut store, &flight(7, "KLM"));
    assert_eq!(_get_flight(&store, &7), Some(flight(7, "KLM")));
    assert_eq!(_get_flight(&store, &6), None);
    assert_eq!(_get_flight(&store, &8), None);
    assert_eq!(_get_booking(&store, &7), None);
}

#[test]
fn inserting_again_overwrites() {
    let mut store = Store::new();
    do_insert_flight(&mut store, &flight(7, "KLM"));
    do_insert_flight(&mut store, &flight(7, "SAS"));
    do_insert_flight(&mut store, &flight(7, "SAS"));
    assert_eq!(_get_flight(&store, &7), Some(flight(7, "SAS")));
}

#[test]
fn inserted_booking_is_found_under_its_identifier() {
    let mut store = Store::new();
    do_insert_booking(&mut store, &booking(3, 7, 1));
    do_insert_booking(&mut store, &booking(4, 7, 0));
    assert_eq!(_get_booking(&store, &3), Some(booking(3, 7, 1)));
    assert_eq!(_get_booking(&store, &4), Some(booking(4, 7, 0)));
    assert_eq!(_get_booking(&store, &5), None);
    assert_eq!(_get_flight(&store, &3), None);
}

#[test]
fn removed_records_are_gone() {
    let mut store = Store::new();
    do_insert_flight(&mut store, &flight(1, "KLM"));
    do_insert_flight(&mut store, &flight(2, "SAS"));
    do_insert_booking(&mut store, &booking(1, 1, 0));
    store.remove_flight(1);
    assert_eq!(_get_flight(&store, &1), None);
    assert_eq!(_get_flight(&store, &2), Some(flight(2, "SAS")));
    assert_eq!(_get_booking(&store, &1), Some(booking(1, 1, 0)));
    store.remove_booking(1);
    assert_eq!(_get_booking(&store, &1), None);
    store.remove_booking(1);
    store.remove_flight(9);
    assert_eq!(_get_flight(&store, &2), Some(flight(2, "SAS")));
}

#[test]
fn identifiers_are_issued_in_order() {
    let mut store = Store::new();
    assert_eq!(store.issue_flight_id(), 0);
    assert_eq!(store.issue_flight_id(), 1);
    assert_eq!(store.issue_booking_id(), 0);
    assert_eq!(store.issue_flight_id(), 2);
    assert_eq!(store.issue_booking_id(), 1);
    assert_eq!(store.next_flight_id(), 3);
    assert_eq!(store.next_booking_id(), 2);
}

#[test]
fn many_records_are_kept_apart() {
    let mut store = Store::new();
    for id in 0..200u64 {
        do_insert_flight(&mut store, &flight(id, &format!("airline {}", id)));
        do_insert_booking(&mut store, &booking(id, id, (id % 7) as u32));
    }
    for id in 0..200u64 {
        assert_eq!(_get_flight(&store, &id), Some(flight(id, &format!("airline {}", id))));
        assert_eq!(_get_booking(&store, &id), Some(booking(id, id, (id % 7) as u32)));
    }
    assert_eq!(_get_flight(&store, &200), None);
}
