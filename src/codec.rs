//! The stored form of a stream: a protocol-buffers message with one
//! repeated field of events, each event holding its timestamp and payload.
use vstd::prelude::*;
use crate::phrase::{Phrase, PhraseEvent};

verus! {

/// Field number of the event list in a stream.
pub const EVENTS_FIELD: u64 = 1;

/// Field number of the timestamp in an event.
pub const TIMESTAMP_FIELD: u64 = 1;

/// Field number of the payload in an event.
pub const DATA_FIELD: u64 = 2;

/// Wire type of a varint field.
pub const WIRE_VARINT: u64 = 0;

/// Wire type of a length-delimited field.
pub const WIRE_LEN: u64 = 2;

/// The base-128 little-endian form of a number: seven bits a byte, the high
/// bit set on every byte but the last.
pub open spec fn varint(v: nat) -> Seq<u8>
    decreases v,
{
    if v < 128 {
        seq![v as u8]
    } else {
        seq![(v % 128 + 128) as u8] + varint(v / 128)
    }
}

/// The key that opens a field: its number and its wire type.
pub open spec fn field_key(field: u64, wire: u64) -> Seq<u8> {
    varint((field * 8 + wire) as nat)
}

/// A length-delimited field: key, length, then the bytes themselves.
pub open spec fn len_field(field: u64, body: Seq<u8>) -> Seq<u8> {
    field_key(field, WIRE_LEN) + varint(body.len()) + body
}

/// The stored form of one event. Fields that hold their default value
/// (a zero timestamp, an empty payload) are left out.
pub open spec fn event_record(e: (u64, Seq<u8>)) -> Seq<u8> {
    (if e.0 == 0 {
        Seq::<u8>::empty()
    } else {
        field_key(TIMESTAMP_FIELD, WIRE_VARINT) + varint(e.0 as nat)
    }) + (if e.1.len() == 0 {
        Seq::<u8>::empty()
    } else {
        len_field(DATA_FIELD, e.1)
    })
}

/// The stored form of a stream: each event as a length-delimited field.
pub open spec fn phrase_record(s: Seq<(u64, Seq<u8>)>) -> Seq<u8>
    decreases s.len(),
{
    if s.len() == 0 {
        Seq::<u8>::empty()
    } else {
        phrase_record(s.drop_last()) + len_field(EVENTS_FIELD, event_record(s.last()))
    }
}

/// Relies on prost::encoding::encode_varint: it appends the base-128 form
/// of `value` to the buffer.
#[verifier::external_body]
fn put_varint(value: u64, buf: &mut Vec<u8>)
    ensures
        final(buf)@ == old(buf)@ + varint(value as nat),
{
    prost::encoding::encode_varint(value, buf)
}

/// Appends the stored form of one event to `buf`.
pub fn encode_event(e: &PhraseEvent, buf: &mut Vec<u8>)
    ensures
        final(buf)@ == old(buf)@ + event_record(e@),
{
    let ghost start = buf@;
    if e.timestamp != 0 {
        put_varint(TIMESTAMP_FIELD * 8 + WIRE_VARINT, buf);
        put_varint(e.timestamp, buf);
    }
    let ghost mid = buf@;
    if e.data.len() != 0 {
        put_varint(DATA_FIELD * 8 + WIRE_LEN, buf);
        put_varint(e.data.len() as u64, buf);
        let mut i: usize = 0;
        let ghost before = buf@;
        while i < e.data.len()
            invariant
                i <= e.data@.len(),
                buf@ == before + e.data@.subrange(0, i as int),
            decreases e.data@.len() - i,
        {
            buf.push(e.data[i]);
            i = i + 1;
            assert(buf@ =~= before + e.data@.subrange(0, i as int));
        }
        assert(e.data@.subrange(0, e.data@.len() as int) =~= e.data@);
    }
    assert(buf@ =~= start + event_record(e@));
}

/// The stored form of a whole stream.
pub fn encode_phrase(p: &Phrase) -> (r: Vec<u8>)
    ensures
        r@ == phrase_record(p@),
{
    let mut buf: Vec<u8> = Vec::new();
    let mut i: usize = 0;
    while i < p.events.len()
        invariant
            i <= p.events@.len(),
            buf@ == phrase_record(p@.subrange(0, i as int)),
        decreases p.events@.len() - i,
    {
        let mut body: Vec<u8> = Vec::new();
        encode_event(&p.events[i], &mut body);
        put_varint(EVENTS_FIELD * 8 + WIRE_LEN, &mut buf);
        put_varint(body.len() as u64, &mut buf);
        buf.append(&mut body);
        proof {
            let s = p@.subrange(0, i + 1);
            assert(s.drop_last() =~= p@.subrange(0, i as int));
            assert(s.last() == p.events@[i as int]@);
        }
        i = i + 1;
        assert(buf@ =~= phrase_record(p@.subrange(0, i as int)));
    }
    assert(p@.subrange(0, p@.len() as int) =~= p@);
    buf
}

} // verus!
