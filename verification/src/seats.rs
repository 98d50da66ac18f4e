//! The list of occupied seats of a flight: taking a seat and giving it back.

use crate::types::FlightView;
use vstd::prelude::*;

verus! {

/// The seats of `seats` other than `seat`, in the same order.
pub open spec fn without_seat(seats: Seq<u32>, seat: u32) -> Seq<u32> {
    seats.filter(|other: u32| other != seat)
}

impl FlightView {
    /// The flight once `seat` is taken: the seat is listed last and one seat
    /// fewer is free.
    pub open spec fn take_seat(self, seat: u32) -> FlightView {
        FlightView {
            available_seats: (self.available_seats - 1) as u32,
            seats_booked: self.seats_booked.push(seat),
            ..self
        }
    }

    /// The flight once `seat` is given back: the seat is no longer listed and
    /// one seat more is free.
    pub open spec fn release_seat(self, seat: u32) -> FlightView {
        FlightView {
            available_seats: (self.available_seats + 1) as u32,
            seats_booked: without_seat(self.seats_booked, seat),
            ..self
        }
    }
}

/// What is left of a list of seats when one seat is taken out: the other
/// seats, each as often as before.
pub proof fn lemma_without_seat(seats: Seq<u32>, seat: u32)
    ensures
        forall|other: u32|
            #[trigger] without_seat(seats, seat).contains(other) <==> seats.contains(other)
                && other != seat,
        seats.no_duplicates() ==> without_seat(seats, seat).no_duplicates(),
        !seats.contains(seat) ==> without_seat(seats, seat) == seats,
        seats.no_duplicates() && seats.contains(seat) ==> without_seat(seats, seat).len() + 1
            == seats.len(),
    decreases seats.len(),
{
    reveal(Seq::filter);
    if seats.len() > 0 {
        let front = seats.drop_last();
        let last = seats.last();
        let rest = without_seat(seats, seat);
        let front_rest = without_seat(front, seat);
        lemma_without_seat(front, seat);
        assert(seats =~= front.push(last));
        assert(rest == if last != seat {
            front_rest.push(last)
        } else {
            front_rest
        });
        assert forall|other: u32| #[trigger]
            rest.contains(other) <==> seats.contains(other) && other != seat by {
            if rest.contains(other) {
                let i = choose|i: int| 0 <= i < rest.len() && rest[i] == other;
                if i < front_rest.len() {
                    assert(front_rest.contains(other));
                    let j = choose|j: int| 0 <= j < front.len() && front[j] == other;
                    assert(seats[j] == other);
                } else {
                    assert(seats[seats.len() - 1] == other);
                }
            }
            if seats.contains(other) && other != seat {
                let j = choose|j: int| 0 <= j < seats.len() && seats[j] == other;
                if j < front.len() {
                    assert(front[j] == other);
                    assert(front_rest.contains(other));
                    let i = choose|i: int| 0 <= i < front_rest.len() && front_rest[i] == other;
                    assert(rest[i] == other);
                } else {
                    assert(rest[rest.len() - 1] == other);
                }
            }
        }
        assert(front.contains(seat) || last == seat <==> seats.contains(seat)) by {
            if front.contains(seat) {
                let j = choose|j: int| 0 <= j < front.len() && front[j] == seat;
                assert(seats[j] == seat);
            }
            if last == seat {
                assert(seats[seats.len() - 1] == seat);
            }
            if seats.contains(seat) && last != seat {
                let j = choose|j: int| 0 <= j < seats.len() && seats[j] == seat;
                assert(front[j] == seat);
            }
        }
        if seats.no_duplicates() {
            assert(!front.contains(last)) by {
                if front.contains(last) {
                    let j = choose|j: int| 0 <= j < front.len() && front[j] == last;
                    assert(seats[j] == seats[seats.len() - 1]);
                }
            }
            assert(!front_rest.contains(last));
        }
    }
}

/// Taking a free seat that exists keeps a flight well-formed.
pub proof fn lemma_take_seat(flight: FlightView, seat: u32)
    requires
        flight.wf(),
        flight.available_seats != 0,
        seat < flight.total_seats,
        !flight.seats_booked.contains(seat),
    ensures
        flight.take_seat(seat).wf(),
        flight.take_seat(seat).available_seats == flight.available_seats - 1,
{
    let listed = flight.seats_booked;
    let taken = flight.take_seat(seat).seats_booked;
    assert forall|i: int, j: int| 0 <= i < j < taken.len() implies taken[i] != taken[j] by {
        assert(taken[i] == listed[i]);
        assert(listed.contains(listed[i]));
    }
}

/// Giving back an occupied seat keeps a flight well-formed.
pub proof fn lemma_release_seat(flight: FlightView, seat: u32)
    requires
        flight.wf(),
        flight.seats_booked.contains(seat),
    ensures
        flight.release_seat(seat).wf(),
        flight.release_seat(seat).available_seats == flight.available_seats + 1,
        !flight.release_seat(seat).seats_booked.contains(seat),
{
    lemma_without_seat(flight.seats_booked, seat);
    let left = flight.release_seat(seat).seats_booked;
    assert forall|i: int| 0 <= i < left.len() implies #[trigger] left[i] < flight.total_seats by {
        assert(left.contains(left[i]));
        let j = choose|j: int|
            0 <= j < flight.seats_booked.len() && flight.seats_booked[j] == left[i];
        assert(flight.seats_booked[j] < flight.total_seats);
    }
}

/// The seats of `seats` other than `seat`, in the same order.
pub fn seats_without(seats: &Vec<u32>, seat: u32) -> (rest: Vec<u32>)
    ensures
        rest@ == without_seat(seats@, seat),
{
    let mut rest: Vec<u32> = Vec::new();
    let mut i: usize = 0;
    proof {
        reveal(Seq::filter);
    }
    while i < seats.len()
        invariant
            i <= seats.len(),
            rest@ == without_seat(seats@.take(i as int), seat),
        decreases seats.len() - i,
    {
        proof {
            reveal(Seq::filter);
            let next = seats@.take(i + 1);
            assert(next.drop_last() =~= seats@.take(i as int));
        }
        if seats[i] != seat {
            rest.push(seats[i]);
        }
        i += 1;
    }
    proof {
        assert(seats@.take(seats@.len() as int) =~= seats@);
    }
    rest
}

} // verus!
