use flight_booking::codec::{read_seat_list, read_text, read_u32, read_u64, write_seat_list, write_text, write_u32, write_u64};
use flight_booking::records::{decode_booking, decode_flight, encode_booking, encode_flight};
use flight_booking::{Booking, Flight};

fn sample_flight() -> Flight {
    Flight {
        id: 0x0102030405060708,
        airline: "KLM".to_string(),
        agent_principal: "2vxsx-fae".to_string(),
        destination: "Tromsø".to_string(),
        departure_time: 9_000_000_000_000,
        available_seats: 1,
        total_seats: 3,
        seats_booked: vec![2, 0],
    }
}

fn sample_booking() -> Booking {
    Booking {
        id: 5,
        flight_id: 0x0102030405060708,
        booker_principal: "aaaaa-aa".to_string(),
        passenger_name: "Zoë 北".to_string(),
        seat_number: 2,
        booking_time: 77,
    }
}

#[test]
fn numbers_are_written_little_endian() {
    let mut out = vec![0xaa];
    write_u64(&mut out, 0x0102030405060708);
    write_u32(&mut out, 0x0a0b0c0d);
    assert_eq!(out, vec![0xaa, 8, 7, 6, 5, 4, 3, 2, 1, 0x0d, 0x0c, 0x0b, 0x0a]);
    assert_eq!(read_u64(&out, 1), Some((0x0102030405060708, 9)));
    assert_eq!(read_u32(&out, 9), Some((0x0a0b0c0d, 13)));
}

#[test]
fn numbers_need_all_their_bytes() {
    let bytes = vec![1, 2, 3, 4, 5, 6, 7];
    assert_eq!(read_u64(&bytes, 0), None);
    assert_eq!(read_u32(&bytes, 4), None);
    assert_eq!(read_u32(&bytes, 3), Some((0x07060504, 7)));
    assert_eq!(read_u32(&bytes, 7), None);
}

#[test]
fn text_is_written_as_length_and_utf8() {
    let mut out = Vec::new();
    write_text(&mut out, &"hé".to_string());
    assert_eq!(out, vec![3, 0, 0, 0, 0, 0, 0, 0, b'h', 0xc3, 0xa9]);
    assert_eq!(read_text(&out, 0), Some(("hé".to_string(), 11)));
    let mut empty = Vec::new();
    write_text(&mut empty, &String::new());
    assert_eq!(empty, vec![0; 8]);
    assert_eq!(read_text(&empty, 0), Some((String::new(), 8)));
}

#[test]
fn text_that_is_not_utf8_is_refused() {
    let bytes = vec![2, 0, 0, 0, 0, 0, 0, 0, 0xc3, 0x28];
    assert_eq!(read_text(&bytes, 0), None);
    let lone = vec![1, 0, 0, 0, 0, 0, 0, 0, 0xff];
    assert_eq!(read_text(&lone, 0), None);
}

#[test]
fn text_in_overlong_or_surrogate_form_is_refused() {
    let overlong = vec![2, 0, 0, 0, 0, 0, 0, 0, 0xc0, 0x80];
    assert_eq!(read_text(&overlong, 0), None);
    let surrogate = vec![3, 0, 0, 0, 0, 0, 0, 0, 0xed, 0xa0, 0x80];
    assert_eq!(read_text(&surrogate, 0), None);
    let beyond = vec![4, 0, 0, 0, 0, 0, 0, 0, 0xf4, 0x90, 0x80, 0x80];
    assert_eq!(read_text(&beyond, 0), None);
    let cut = vec![2, 0, 0, 0, 0, 0, 0, 0, 0xe2, 0x82];
    assert_eq!(read_text(&cut, 0), None);
    let last = vec![4, 0, 0, 0, 0, 0, 0, 0, 0xf4, 0x8f, 0xbf, 0xbf];
    assert_eq!(read_text(&last, 0), Some(("\u{10ffff}".to_string(), 12)));
}

#[test]
fn text_longer_than_the_bytes_is_refused() {
    let bytes = vec![4, 0, 0, 0, 0, 0, 0, 0, b'a', b'b', b'c'];
    assert_eq!(read_text(&bytes, 0), None);
    let huge = vec![0xff, 0xff, 0xff, 0xff, 0xff, 0xff, 0xff, 0xff, b'a'];
    assert_eq!(read_text(&huge, 0), None);
}

#[test]
fn seat_list_is_written_as_length_and_seats() {
    let mut out = Vec::new();
    write_seat_list(&mut out, &vec![2, 0x01000000]);
    assert_eq!(out, vec![2, 0, 0, 0, 0, 0, 0, 0, 2, 0, 0, 0, 0, 0, 0, 1]);
    assert_eq!(read_seat_list(&out, 0), Some((vec![2, 0x01000000], 16)));
    let mut none = Vec::new();
    write_seat_list(&mut none, &vec![]);
    assert_eq!(read_seat_list(&none, 0), Some((vec![], 8)));
}

#[test]
fn seat_list_shorter_than_its_length_is_refused() {
    let bytes = vec![2, 0, 0, 0, 0, 0, 0, 0, 2, 0, 0, 0, 1, 0];
    assert_eq!(read_seat_list(&bytes, 0), None);
    let huge = vec![0xff; 12];
    assert_eq!(read_seat_list(&huge, 0), None);
}

#[test]
fn flight_has_the_stated_bytes() {
    let flight = Flight {
        id: 1,
        airline: "A".to_string(),
        agent_principal: "b".to_string(),
        destination: "".to_string(),
        departure_time: 2,
        available_seats: 3,
        total_seats: 4,
        seats_booked: vec![5],
    };
    let expected: Vec<u8> = vec![
        1, 0, 0, 0, 0, 0, 0, 0, // id
        1, 0, 0, 0, 0, 0, 0, 0, b'A', // airline
        1, 0, 0, 0, 0, 0, 0, 0, b'b', // agent
        0, 0, 0, 0, 0, 0, 0, 0, // destination
        2, 0, 0, 0, 0, 0, 0, 0, // departure
        3, 0, 0, 0, // free seats
        4, 0, 0, 0, // all seats
        1, 0, 0, 0, 0, 0, 0, 0, 5, 0, 0, 0, // occupied seats
    ];
    assert_eq!(encode_flight(&flight), expected);
    assert_eq!(expected.len(), 56 + 1 + 1 + 0 + 4);
    assert_eq!(decode_flight(&expected), Some(flight));
}

#[test]
fn booking_has_the_stated_bytes() {
    let booking = Booking {
        id: 1,
        flight_id: 2,
        booker_principal: "b".to_string(),
        passenger_name: "pq".to_string(),
        seat_number: 3,
        booking_time: 4,
    };
    let expected: Vec<u8> = vec![
        1, 0, 0, 0, 0, 0, 0, 0, // id
        2, 0, 0, 0, 0, 0, 0, 0, // flight
        1, 0, 0, 0, 0, 0, 0, 0, b'b', // booker
        2, 0, 0, 0, 0, 0, 0, 0, b'p', b'q', // passenger
        3, 0, 0, 0, // seat
        4, 0, 0, 0, 0, 0, 0, 0, // time
    ];
    assert_eq!(encode_booking(&booking), expected);
    assert_eq!(expected.len(), 44 + 1 + 2);
    assert_eq!(decode_booking(&expected), Some(booking));
}

#[test]
fn flight_is_read_back_as_written() {
    let flight = sample_flight();
    assert_eq!(decode_flight(&encode_flight(&flight)), Some(flight));
    let empty = Flight::default();
    assert_eq!(decode_flight(&encode_flight(&empty)), Some(empty));
}

#[test]
fn booking_is_read_back_as_written() {
    let booking = sample_booking();
    assert_eq!(decode_booking(&encode_booking(&booking)), Some(booking));
    let empty = Booking::default();
    assert_eq!(decode_booking(&encode_booking(&empty)), Some(empty));
}

#[test]
fn truncated_records_are_refused() {
    let flight = encode_flight(&sample_flight());
    for len in 0..flight.len() {
        assert_eq!(decode_flight(&flight[..len].to_vec()), None, "length {}", len);
    }
    let booking = encode_booking(&sample_booking());
    for len in 0..booking.len() {
        assert_eq!(decode_booking(&booking[..len].to_vec()), None, "length {}", len);
    }
}

#[test]
fn records_with_trailing_bytes_are_refused() {
    let mut flight = encode_flight(&sample_flight());
    flight.push(0);
    assert_eq!(decode_flight(&flight), None);
    let mut booking = encode_booking(&sample_booking());
    booking.push(0);
    assert_eq!(decode_booking(&booking), None);
}

#[test]
fn a_booking_is_not_a_flight() {
    assert_eq!(decode_flight(&encode_booking(&sample_booking())), None);
    assert_eq!(decode_flight(&Vec::new()), None);
    assert_eq!(decode_booking(&Vec::new()), None);
}

#[test]
fn clones_are_equal() {
    let flight = sample_flight();
    assert_eq!(flight.clone(), flight);
    let booking = sample_booking();
    assert_eq!(booking.clone(), booking);
}
