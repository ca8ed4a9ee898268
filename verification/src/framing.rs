//! Framing of pseudo-sprites: the length-prefixed, tagged records that carry
//! everything in a container that is not graphics.

use vstd::prelude::*;

verus! {

/// Tag byte that marks a record as a pseudo-sprite rather than a real sprite.
pub const PSEUDO_SPRITE_TAG: u8 = 0xff;

/// Bytes in front of a record's payload: four of length and one of tag.
pub const RECORD_HEADER_LEN: usize = 5;

/// The four bytes that spell `n` modulo 2^32, least significant byte first.
pub open spec fn le_bytes(n: nat) -> Seq<u8> {
    seq![
        (n % 256) as u8,
        (n / 256 % 256) as u8,
        (n / 65536 % 256) as u8,
        (n / 16777216 % 256) as u8,
    ]
}

/// The number that four bytes spell, least significant byte first.
pub open spec fn le_value(bytes: Seq<u8>) -> nat
    recommends
        bytes.len() == 4,
{
    (bytes[0] + 256 * bytes[1] + 65536 * bytes[2] + 16777216 * bytes[3]) as nat
}

/// A record: the payload's length as four little-endian bytes, the tag byte,
/// then the payload untouched.
pub open spec fn frame(payload: Seq<u8>) -> Seq<u8> {
    le_bytes(payload.len()) + seq![PSEUDO_SPRITE_TAG] + payload
}

/// Reading a length field back gives the number it was written from, as far as
/// 32 bits hold it.
pub proof fn lemma_le_round_trip(n: nat)
    ensures
        le_bytes(n).len() == 4,
        le_value(le_bytes(n)) == n % 0x1_0000_0000,
        n <= u32::MAX ==> le_value(le_bytes(n)) == n,
{
    let q1 = n / 256;
    let q2 = q1 / 256;
    let q3 = q2 / 256;
    let q4 = q3 / 256;
    assert(n / 65536 == q2);
    assert(n / 16777216 == q3);
    assert(n / 0x1_0000_0000 == q4);
    assert(n == n % 256 + 256 * (q1 % 256) + 65536 * (q2 % 256) + 16777216 * (q3 % 256)
        + 0x1_0000_0000 * q4);
}

/// Framing round trip: a record is five bytes longer than its payload, its
/// first four bytes read back as the payload's length (modulo 2^32, so exactly
/// for every length that fits in 32 bits), its fifth byte is the tag, and the
/// payload follows unchanged.
pub proof fn lemma_frame_round_trip(payload: Seq<u8>)
    ensures
        frame(payload).len() == payload.len() + RECORD_HEADER_LEN,
        le_value(frame(payload).subrange(0, 4)) == payload.len() % 0x1_0000_0000,
        payload.len() <= u32::MAX ==> le_value(frame(payload).subrange(0, 4)) == payload.len(),
        frame(payload)[4] == PSEUDO_SPRITE_TAG,
        frame(payload).subrange(5, frame(payload).len() as int) == payload,
{
    lemma_le_round_trip(payload.len());
    assert(frame(payload).subrange(0, 4) =~= le_bytes(payload.len()));
    assert(frame(payload).subrange(5, frame(payload).len() as int) =~= payload);
}

/// The payloads of the records in `stream`, read front to back: each length
/// field says how many payload bytes follow its tag, and a length of zero is
/// the end marker, which must close the stream. `None` where a record is cut
/// short, a tag is wrong, or bytes follow the end marker.
pub open spec fn read_records(stream: Seq<u8>) -> Option<Seq<Seq<u8>>>
    decreases stream.len(),
{
    if stream.len() < 4 {
        None
    } else {
        let declared = le_value(stream.subrange(0, 4));
        let end = RECORD_HEADER_LEN + declared;
        if declared == 0 {
            if stream.len() == 4 {
                Some(Seq::empty())
            } else {
                None
            }
        } else if stream.len() < end || stream[4] != PSEUDO_SPRITE_TAG {
            None
        } else {
            match read_records(stream.skip(end)) {
                Some(rest) => Some(seq![stream.subrange(RECORD_HEADER_LEN as int, end)] + rest),
                None => None,
            }
        }
    }
}

/// A framed payload in front of a stream reads back as that payload in front
/// of the stream's records, provided the payload is not empty (its length
/// field would be the end marker) and its length fits in 32 bits.
pub proof fn lemma_read_frame(payload: Seq<u8>, rest: Seq<u8>)
    requires
        0 < payload.len() <= u32::MAX,
    ensures
        read_records(frame(payload) + rest) == (match read_records(rest) {
            Some(records) => Some(seq![payload] + records),
            None => None,
        }),
{
    let stream = frame(payload) + rest;
    let end = RECORD_HEADER_LEN + payload.len();
    lemma_frame_round_trip(payload);
    assert(stream.subrange(0, 4) =~= frame(payload).subrange(0, 4));
    assert(stream.skip(end) =~= rest);
    assert(stream.subrange(RECORD_HEADER_LEN as int, end) =~= payload);
}

/// Appends `bytes` to `output`, leaving what `output` held in front.
pub(crate) fn append_bytes(output: &mut Vec<u8>, bytes: &[u8])
    ensures
        final(output)@ == old(output)@ + bytes@,
{
    let mut i: usize = 0;
    while i < bytes.len()
        invariant
            i <= bytes@.len(),
            output@ == old(output)@ + bytes@.subrange(0, i as int),
        decreases bytes@.len() - i,
    {
        output.push(bytes[i]);
        i += 1;
    }
}

/// Frames `data` as a pseudo-sprite.
///
/// The length field holds the low 32 bits of the payload's length, so it is
/// the length itself for every payload shorter than 4 GiB.
pub fn write_pseudo_sprite(data: &[u8]) -> (output: Vec<u8>)
    ensures
        output@ == frame(data@),
        output@.len() == data@.len() + RECORD_HEADER_LEN,
        data@.len() <= u32::MAX ==> le_value(output@.subrange(0, 4)) == data@.len(),
        output@[4] == PSEUDO_SPRITE_TAG,
        output@.subrange(5, output@.len() as int) == data@,
{
    let len: usize = data.len();
    let mut output: Vec<u8> = Vec::new();
    output.push((len & 0xff) as u8);
    output.push(((len >> 8) & 0xff) as u8);
    output.push(((len >> 16) & 0xff) as u8);
    output.push(((len >> 24) & 0xff) as u8);
    output.push(PSEUDO_SPRITE_TAG);
    append_bytes(&mut output, data);
    proof {
        assert(len & 0xff == len % 256) by (bit_vector);
        assert((len >> 8) & 0xff == len / 256 % 256) by (bit_vector);
        assert((len >> 16) & 0xff == len / 65536 % 256) by (bit_vector);
        assert((len >> 24) & 0xff == len / 16777216 % 256) by (bit_vector);
        lemma_frame_round_trip(data@);
    }
    output
}

} // verus!
