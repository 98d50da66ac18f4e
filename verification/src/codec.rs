//! How records are written as bytes and read back. Numbers are little-endian
//! and of fixed width; a text is its length in bytes and then its UTF-8
//! encoding; a list of seats is its length and then the seats.

use vstd::bytes::{
    lemma_auto_spec_u32_to_from_le_bytes, lemma_auto_spec_u64_to_from_le_bytes,
    spec_u32_from_le_bytes, spec_u32_to_le_bytes, spec_u64_from_le_bytes, spec_u64_to_le_bytes,
    u32_from_le_bytes, u32_to_le_bytes, u64_from_le_bytes, u64_to_le_bytes,
};
use vstd::prelude::*;
use vstd::slice::{slice_subrange, slice_to_vec};
use vstd::string::StrSliceExecFns;
use vstd::utf8::{
    decode_utf8, encode_utf8, encode_utf8_decode_utf8, encode_utf8_valid_utf8, valid_utf8,
};

verus! {

/// A `u64` as bytes.
pub open spec fn u64_bytes(x: u64) -> Seq<u8> {
    spec_u64_to_le_bytes(x)
}

/// A `u32` as bytes.
pub open spec fn u32_bytes(x: u32) -> Seq<u8> {
    spec_u32_to_le_bytes(x)
}

/// A text as bytes.
pub open spec fn text_bytes(text: Seq<char>) -> Seq<u8> {
    u64_bytes(encode_utf8(text).len() as u64) + encode_utf8(text)
}

/// The seats of a list as bytes, one after the other.
pub open spec fn seats_bytes(seats: Seq<u32>) -> Seq<u8>
    decreases seats.len(),
{
    if seats.len() == 0 {
        Seq::empty()
    } else {
        u32_bytes(seats[0]) + seats_bytes(seats.drop_first())
    }
}

/// A list of seats as bytes.
pub open spec fn seat_list_bytes(seats: Seq<u32>) -> Seq<u8> {
    u64_bytes(seats.len() as u64) + seats_bytes(seats)
}

/// Reads a `u64` from the front of `s`: the number, and what follows it.
pub open spec fn parse_u64(s: Seq<u8>) -> Option<(u64, Seq<u8>)> {
    if s.len() >= 8 {
        Some((spec_u64_from_le_bytes(s.take(8)), s.skip(8)))
    } else {
        None
    }
}

/// Reads a `u32` from the front of `s`: the number, and what follows it.
pub open spec fn parse_u32(s: Seq<u8>) -> Option<(u32, Seq<u8>)> {
    if s.len() >= 4 {
        Some((spec_u32_from_le_bytes(s.take(4)), s.skip(4)))
    } else {
        None
    }
}

/// Reads a text from the front of `s`: the text, and what follows it.
pub open spec fn parse_text(s: Seq<u8>) -> Option<(Seq<char>, Seq<u8>)> {
    match parse_u64(s) {
        Some((len, rest)) => {
            if len <= rest.len() && valid_utf8(rest.take(len as int)) {
                Some((decode_utf8(rest.take(len as int)), rest.skip(len as int)))
            } else {
                None
            }
        },
        None => None,
    }
}

/// Reads `count` seats from the front of `s`: the seats, and what follows them.
pub open spec fn parse_seats(s: Seq<u8>, count: nat) -> Option<(Seq<u32>, Seq<u8>)>
    decreases count,
{
    if count == 0 {
        Some((Seq::empty(), s))
    } else {
        match parse_u32(s) {
            Some((seat, rest)) => match parse_seats(rest, (count - 1) as nat) {
                Some((seats, end)) => Some((seq![seat] + seats, end)),
                None => None,
            },
            None => None,
        }
    }
}

/// Reads a list of seats from the front of `s`: the seats, and what follows them.
pub open spec fn parse_seat_list(s: Seq<u8>) -> Option<(Seq<u32>, Seq<u8>)> {
    match parse_u64(s) {
        Some((count, rest)) => parse_seats(rest, count as nat),
        None => None,
    }
}

/// A `u64` that was written is read back.
pub proof fn lemma_parse_u64(x: u64, rest: Seq<u8>)
    ensures
        u64_bytes(x).len() == 8,
        parse_u64(u64_bytes(x) + rest) == Some((x, rest)),
{
    lemma_auto_spec_u64_to_from_le_bytes();
    let s = u64_bytes(x) + rest;
    assert(s.take(8) =~= u64_bytes(x));
}

/// A `u32` that was written is read back.
pub proof fn lemma_parse_u32(x: u32, rest: Seq<u8>)
    ensures
        u32_bytes(x).len() == 4,
        parse_u32(u32_bytes(x) + rest) == Some((x, rest)),
{
    lemma_auto_spec_u32_to_from_le_bytes();
    let s = u32_bytes(x) + rest;
    assert(s.take(4) =~= u32_bytes(x));
}

/// A text that was written is read back, if its length fits the length field.
pub proof fn lemma_parse_text(text: Seq<char>, rest: Seq<u8>)
    requires
        encode_utf8(text).len() <= u64::MAX,
    ensures
        text_bytes(text).len() == 8 + encode_utf8(text).len(),
        parse_text(text_bytes(text) + rest) == Some((text, rest)),
{
    let body = encode_utf8(text);
    let len = body.len() as u64;
    lemma_parse_u64(len, body + rest);
    assert(text_bytes(text) + rest =~= u64_bytes(len) + (body + rest));
    assert((body + rest).take(len as int) =~= body);
    encode_utf8_valid_utf8(text);
    encode_utf8_decode_utf8(text);
}

/// Each seat takes four bytes.
pub proof fn lemma_seats_bytes_len(seats: Seq<u32>)
    ensures
        seats_bytes(seats).len() == 4 * seats.len(),
    decreases seats.len(),
{
    lemma_auto_spec_u32_to_from_le_bytes();
    if seats.len() > 0 {
        lemma_seats_bytes_len(seats.drop_first());
    }
}

/// Writing one more seat adds its bytes at the end.
pub proof fn lemma_seats_bytes_push(seats: Seq<u32>, seat: u32)
    ensures
        seats_bytes(seats.push(seat)) == seats_bytes(seats) + u32_bytes(seat),
    decreases seats.len(),
{
    if seats.len() == 0 {
        assert(seats.push(seat).drop_first() =~= seats);
    } else {
        lemma_seats_bytes_push(seats.drop_first(), seat);
        assert(seats.push(seat).drop_first() =~= seats.drop_first().push(seat));
    }
}

/// Seats that were written are read back.
pub proof fn lemma_parse_seats(seats: Seq<u32>, rest: Seq<u8>)
    ensures
        parse_seats(seats_bytes(seats) + rest, seats.len()) == Some((seats, rest)),
    decreases seats.len(),
{
    if seats.len() > 0 {
        let tail = seats.drop_first();
        lemma_parse_u32(seats[0], seats_bytes(tail) + rest);
        assert(seats_bytes(seats) + rest =~= u32_bytes(seats[0]) + (seats_bytes(tail) + rest));
        lemma_parse_seats(tail, rest);
        assert(seq![seats[0]] + tail =~= seats);
    }
}

/// A list of seats that was written is read back, if its length fits the
/// length field.
pub proof fn lemma_parse_seat_list(seats: Seq<u32>, rest: Seq<u8>)
    requires
        seats.len() <= u64::MAX,
    ensures
        seat_list_bytes(seats).len() == 8 + 4 * seats.len(),
        parse_seat_list(seat_list_bytes(seats) + rest) == Some((seats, rest)),
{
    lemma_seats_bytes_len(seats);
    lemma_parse_u64(seats.len() as u64, seats_bytes(seats) + rest);
    assert(seat_list_bytes(seats) + rest =~= u64_bytes(seats.len() as u64) + (seats_bytes(seats)
        + rest));
    lemma_parse_seats(seats, rest);
}

/// `String::from_utf8`: the string that `bytes` encode, if they are well-formed
/// UTF-8. A string's bytes are the bytes it was made from.
#[verifier::external_body]
fn string_from_utf8(bytes: Vec<u8>) -> (text: Option<String>)
    ensures
        text is Some <==> valid_utf8(bytes@),
        text matches Some(string) ==> encode_utf8(string@) == bytes@,
{
    String::from_utf8(bytes).ok()
}

/// Writes a `u64` at the end of `out`.
pub fn write_u64(out: &mut Vec<u8>, x: u64)
    ensures
        final(out)@ == old(out)@ + u64_bytes(x),
{
    let mut bytes = u64_to_le_bytes(x);
    out.append(&mut bytes);
}

/// Writes a `u32` at the end of `out`.
pub fn write_u32(out: &mut Vec<u8>, x: u32)
    ensures
        final(out)@ == old(out)@ + u32_bytes(x),
{
    let mut bytes = u32_to_le_bytes(x);
    out.append(&mut bytes);
}

/// Writes a text at the end of `out`.
pub fn write_text(out: &mut Vec<u8>, text: &String)
    ensures
        final(out)@ == old(out)@ + text_bytes(text@),
{
    let mut bytes = text.as_str().as_bytes_vec();
    write_u64(out, bytes.len() as u64);
    out.append(&mut bytes);
}

/// Writes a list of seats at the end of `out`.
pub fn write_seat_list(out: &mut Vec<u8>, seats: &Vec<u32>)
    ensures
        final(out)@ == old(out)@ + seat_list_bytes(seats@),
{
    write_u64(out, seats.len() as u64);
    let ghost start = out@;
    let mut i: usize = 0;
    while i < seats.len()
        invariant
            i <= seats.len(),
            out@ == start + seats_bytes(seats@.take(i as int)),
        decreases seats.len() - i,
    {
        write_u32(out, seats[i]);
        proof {
            lemma_seats_bytes_push(seats@.take(i as int), seats@[i as int]);
            assert(seats@.take(i + 1) =~= seats@.take(i as int).push(seats@[i as int]));
        }
        i += 1;
    }
    assert(seats@.take(seats@.len() as int) =~= seats@);
}

/// Reads a `u64` at `pos`: the number, and the position after it.
pub fn read_u64(bytes: &[u8], pos: usize) -> (found: Option<(u64, usize)>)
    requires
        pos <= bytes@.len(),
    ensures
        found is Some <==> parse_u64(bytes@.skip(pos as int)) is Some,
        found matches Some((x, next)) ==> next <= bytes@.len() && parse_u64(
            bytes@.skip(pos as int),
        ) == Some((x, bytes@.skip(next as int))),
{
    if bytes.len() - pos < 8 {
        return None;
    }
    let x = u64_from_le_bytes(slice_subrange(bytes, pos, pos + 8));
    proof {
        assert(bytes@.skip(pos as int).take(8) =~= bytes@.subrange(pos as int, pos + 8));
    }
    Some((x, pos + 8))
}

/// Reads a `u32` at `pos`: the number, and the position after it.
pub fn read_u32(bytes: &[u8], pos: usize) -> (found: Option<(u32, usize)>)
    requires
        pos <= bytes@.len(),
    ensures
        found is Some <==> parse_u32(bytes@.skip(pos as int)) is Some,
        found matches Some((x, next)) ==> next <= bytes@.len() && parse_u32(
            bytes@.skip(pos as int),
        ) == Some((x, bytes@.skip(next as int))),
{
    if bytes.len() - pos < 4 {
        return None;
    }
    let x = u32_from_le_bytes(slice_subrange(bytes, pos, pos + 4));
    proof {
        assert(bytes@.skip(pos as int).take(4) =~= bytes@.subrange(pos as int, pos + 4));
    }
    Some((x, pos + 4))
}

/// Reads a text at `pos`: the text, and the position after it.
pub fn read_text(bytes: &[u8], pos: usize) -> (found: Option<(String, usize)>)
    requires
        pos <= bytes@.len(),
    ensures
        found is Some <==> parse_text(bytes@.skip(pos as int)) is Some,
        found matches Some((text, next)) ==> next <= bytes@.len() && parse_text(
            bytes@.skip(pos as int),
        ) == Some((text@, bytes@.skip(next as int))),
{
    let (len, start) = match read_u64(bytes, pos) {
        Some(found) => found,
        None => { return None; },
    };
    if len > (bytes.len() - start) as u64 {
        return None;
    }
    let end = start + len as usize;
    let body = slice_to_vec(slice_subrange(bytes, start, end));
    proof {
        assert(bytes@.skip(start as int).take(len as int) =~= body@);
    }
    match string_from_utf8(body) {
        Some(text) => {
            proof {
                encode_utf8_decode_utf8(text@);
            }
            Some((text, end))
        },
        None => None,
    }
}

/// Reads a list of seats at `pos`: the seats, and the position after them.
pub fn read_seat_list(bytes: &[u8], pos: usize) -> (found: Option<(Vec<u32>, usize)>)
    requires
        pos <= bytes@.len(),
    ensures
        found is Some <==> parse_seat_list(bytes@.skip(pos as int)) is Some,
        found matches Some((seats, next)) ==> next <= bytes@.len() && parse_seat_list(
            bytes@.skip(pos as int),
        ) == Some((seats@, bytes@.skip(next as int))),
{
    let (count, start) = match read_u64(bytes, pos) {
        Some(found) => found,
        None => { return None; },
    };
    let ghost whole = parse_seats(bytes@.skip(start as int), count as nat);
    let mut seats: Vec<u32> = Vec::new();
    let mut at = start;
    let mut left = count;
    proof {
        if let Some((all, end)) = whole {
            assert(seats@ + all =~= all);
        }
    }
    while left > 0
        invariant
            at <= bytes@.len(),
            whole == parse_seat_list(bytes@.skip(pos as int)),
            match parse_seats(bytes@.skip(at as int), left as nat) {
                Some((tail, end)) => whole == Some((seats@ + tail, end)),
                None => whole is None,
            },
        decreases left,
    {
        let ghost before = seats@;
        let (seat, next) = match read_u32(bytes, at) {
            Some(found) => found,
            None => { return None; },
        };
        seats.push(seat);
        proof {
            if let Some((tail, end)) = parse_seats(bytes@.skip(next as int), (left - 1) as nat) {
                assert(before + (seq![seat] + tail) =~= seats@ + tail);
            }
        }
        at = next;
        left -= 1;
    }
    assert(seats@ + Seq::<u32>::empty() =~= seats@);
    Some((seats, at))
}

} // verus!
