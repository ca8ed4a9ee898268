//! Byte layout of a version-2 container: the format's constants and, over
//! them, the bytes that a configuration encodes to.

use vstd::prelude::*;
use crate::framing::{frame, le_value, lemma_frame_round_trip, lemma_read_frame, read_records};
use crate::options::NewGRFIndustry;

verus! {

/// Signature of a version-2 container: two zero bytes, "GRF", the version
/// marker, and a sentinel of line endings.
pub const CONTAINER_SIGNATURE: [u8; 10] = [
    0x00, 0x00, 0x47, 0x52, 0x46, 0x82, 0x0d, 0x0a, 0x1a, 0x0a,
];

/// Offset of the sprite section. No sprite section is written, so the field
/// stays zero.
pub const SPRITE_SECTION_OFFSET: [u8; 4] = [0x00, 0x00, 0x00, 0x00];

/// Compression mode "none", the only one the game accepts.
pub const COMPRESSION_NONE: u8 = 0x00;

/// Bytes in front of the first record: signature, offset and compression mode.
pub const CONTAINER_HEADER_LEN: usize = 15;

/// Payload of the first record: the number of sprites, 2, as a little-endian
/// hint that the game does not check.
pub const SPRITE_COUNT: [u8; 4] = [0x02, 0x00, 0x00, 0x00];

/// Tag pair that opens the metadata record.
pub const GRF_INFO_ACTION: [u8; 2] = [0x08, 0x08];

/// Format-version tag of the metadata record, "TRU1".
pub const FORMAT_VERSION_TAG: [u8; 4] = [0x54, 0x52, 0x55, 0x31];

/// Name in the metadata record, "TrueGRF Test".
pub const GRF_NAME: [u8; 12] = [
    0x54, 0x72, 0x75, 0x65, 0x47, 0x52, 0x46, 0x20, 0x54, 0x65, 0x73, 0x74,
];

/// Description in the metadata record, "TrueGRF Test Description".
pub const GRF_DESCRIPTION: [u8; 24] = [
    0x54, 0x72, 0x75, 0x65, 0x47, 0x52, 0x46, 0x20, 0x54, 0x65, 0x73, 0x74,
    0x20, 0x44, 0x65, 0x73, 0x63, 0x72, 0x69, 0x70, 0x74, 0x69, 0x6f, 0x6e,
];

/// Payload that disables industry 0; the record for another industry differs
/// in the byte at `DISABLE_ID_OFFSET` alone.
pub const DISABLE_TEMPLATE: [u8; 7] = [0x00, 0x0a, 0x01, 0x01, 0x00, 0x08, 0xff];

/// Where a disable payload holds the industry's slot.
pub const DISABLE_ID_OFFSET: usize = 4;

/// Marker that closes the run of records.
pub const END_MARKER: [u8; 4] = [0x00, 0x00, 0x00, 0x00];

/// Number of leading configuration entries that the encoder reads.
pub const INDUSTRY_SLOTS: usize = 2;

/// What stands in front of the first record.
pub open spec fn container_header() -> Seq<u8> {
    CONTAINER_SIGNATURE@ + SPRITE_SECTION_OFFSET@ + seq![COMPRESSION_NONE]
}

/// `text` followed by a zero byte.
pub open spec fn nul_terminated(text: Seq<u8>) -> Seq<u8> {
    text.push(0u8)
}

/// Payload of the metadata record: tag pair, format-version tag, then name and
/// description, each closed by a zero byte.
pub open spec fn grf_info_payload() -> Seq<u8> {
    GRF_INFO_ACTION@ + FORMAT_VERSION_TAG@ + nul_terminated(GRF_NAME@) + nul_terminated(
        GRF_DESCRIPTION@,
    )
}

/// Payload of the record that disables the industry in slot `slot`.
pub open spec fn disable_payload(slot: u8) -> Seq<u8> {
    DISABLE_TEMPLATE@.update(DISABLE_ID_OFFSET as int, slot)
}

/// What slot `slot` contributes to the container: nothing while its industry is
/// available, the framed disable record once it is not.
pub open spec fn slot_record(industries: Seq<NewGRFIndustry>, slot: u8) -> Seq<u8>
    recommends
        slot < industries.len(),
{
    if industries[slot as int].available {
        Seq::empty()
    } else {
        frame(disable_payload(slot))
    }
}

/// The container for a configuration of at least two entries: header, sprite
/// count record, metadata record, the records of slots 0 and 1, end marker.
/// Identifiers and entries past the second have no part in it.
pub open spec fn container_bytes(industries: Seq<NewGRFIndustry>) -> Seq<u8>
    recommends
        industries.len() >= INDUSTRY_SLOTS,
{
    container_header() + frame(SPRITE_COUNT@) + frame(grf_info_payload()) + slot_record(
        industries,
        0,
    ) + slot_record(industries, 1) + END_MARKER@
}

/// The payload that slot `slot` contributes, if any.
pub open spec fn slot_payloads(industries: Seq<NewGRFIndustry>, slot: u8) -> Seq<Seq<u8>>
    recommends
        slot < industries.len(),
{
    if industries[slot as int].available {
        Seq::empty()
    } else {
        seq![disable_payload(slot)]
    }
}

/// The payloads of a container's records, in the order of the records.
pub open spec fn record_payloads(industries: Seq<NewGRFIndustry>) -> Seq<Seq<u8>>
    recommends
        industries.len() >= INDUSTRY_SLOTS,
{
    seq![SPRITE_COUNT@, grf_info_payload()] + slot_payloads(industries, 0) + slot_payloads(
        industries,
        1,
    )
}

/// Fixed skeleton: whatever the configuration holds, a container begins with
/// the signature, the zero offset and the compression mode, and ends with the
/// end marker.
pub proof fn lemma_fixed_skeleton(industries: Seq<NewGRFIndustry>)
    requires
        industries.len() >= INDUSTRY_SLOTS,
    ensures
        container_bytes(industries).len() >= CONTAINER_HEADER_LEN + END_MARKER@.len(),
        container_bytes(industries).subrange(0, 10) == CONTAINER_SIGNATURE@,
        container_bytes(industries).subrange(0, CONTAINER_HEADER_LEN as int) == container_header(),
        container_bytes(industries).subrange(
            container_bytes(industries).len() - 4,
            container_bytes(industries).len() as int,
        ) == END_MARKER@,
{
    let bytes = container_bytes(industries);
    assert(bytes.subrange(0, 10) =~= CONTAINER_SIGNATURE@);
    assert(bytes.subrange(0, CONTAINER_HEADER_LEN as int) =~= container_header());
    assert(bytes.subrange(bytes.len() - 4, bytes.len() as int) =~= END_MARKER@);
}

/// A container without disable records has 77 bytes: 15 of header, 9 of sprite
/// count record, 49 of metadata record and 4 of end marker. Each slot whose
/// industry is not available adds the 12 bytes of its disable record.
pub proof fn lemma_container_len(industries: Seq<NewGRFIndustry>)
    requires
        industries.len() >= INDUSTRY_SLOTS,
    ensures
        container_bytes(industries).len() == 77 + slot_record(industries, 0).len() + slot_record(
            industries,
            1,
        ).len(),
        slot_record(industries, 0).len() == if industries[0].available { 0nat } else { 12 },
        slot_record(industries, 1).len() == if industries[1].available { 0nat } else { 12 },
{
}

/// Length consistency: past the header a container is a run of well-framed
/// records closed by the end marker. Read by their length fields, the records
/// are exactly those of `record_payloads`, and the length field of each
/// declares the number of payload bytes that follow it.
pub proof fn lemma_records_read_back(industries: Seq<NewGRFIndustry>)
    requires
        industries.len() >= INDUSTRY_SLOTS,
    ensures
        read_records(container_bytes(industries).skip(CONTAINER_HEADER_LEN as int)) == Some(
            record_payloads(industries),
        ),
        forall|i: int|
            0 <= i < record_payloads(industries).len() ==> le_value(
                frame(#[trigger] record_payloads(industries)[i]).subrange(0, 4),
            ) == record_payloads(industries)[i].len(),
{
    assert forall|i: int| 0 <= i < record_payloads(industries).len() implies le_value(
        frame(#[trigger] record_payloads(industries)[i]).subrange(0, 4),
    ) == record_payloads(industries)[i].len() by {
        lemma_frame_round_trip(record_payloads(industries)[i]);
    }
    let end = END_MARKER@;
    let tail1 = slot_record(industries, 1) + end;
    let tail0 = slot_record(industries, 0) + tail1;
    let info = frame(grf_info_payload()) + tail0;
    let stream = frame(SPRITE_COUNT@) + info;
    assert(container_bytes(industries).skip(CONTAINER_HEADER_LEN as int) =~= stream);
    assert(end.subrange(0, 4) =~= end);
    assert(read_records(end) == Some(Seq::<Seq<u8>>::empty()));
    if industries[1].available {
        assert(tail1 =~= end);
    } else {
        lemma_read_frame(disable_payload(1), end);
    }
    assert(read_records(tail1) == Some(slot_payloads(industries, 1)));
    if industries[0].available {
        assert(tail0 =~= tail1);
    } else {
        lemma_read_frame(disable_payload(0), tail1);
    }
    assert(read_records(tail0) =~= Some(
        slot_payloads(industries, 0) + slot_payloads(industries, 1),
    ));
    lemma_read_frame(grf_info_payload(), tail0);
    lemma_read_frame(SPRITE_COUNT@, info);
    assert(read_records(stream) =~= Some(record_payloads(industries)));
}

/// Conditional emission: the record that disables slot 0 is among the records
/// read from a container exactly when the first industry is not available, and
/// the record that disables slot 1 exactly when the second is not; neither
/// depends on the other slot.
pub proof fn lemma_conditional_emission(industries: Seq<NewGRFIndustry>)
    requires
        industries.len() >= INDUSTRY_SLOTS,
    ensures
        read_records(container_bytes(industries).skip(CONTAINER_HEADER_LEN as int)) == Some(
            record_payloads(industries),
        ),
        record_payloads(industries).contains(disable_payload(0)) <==> !industries[0].available,
        record_payloads(industries).contains(disable_payload(1)) <==> !industries[1].available,
{
    lemma_records_read_back(industries);
    let records = record_payloads(industries);
    let at = DISABLE_ID_OFFSET as int;
    assert(disable_payload(0)[at] != disable_payload(1)[at]);
    if !industries[0].available {
        assert(records[2] == disable_payload(0));
    }
    if !industries[1].available {
        assert(records[records.len() - 1] == disable_payload(1));
    }
}

} // verus!
