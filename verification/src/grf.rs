//! The container encoder.

use vstd::prelude::*;
use crate::framing::{append_bytes, frame, read_records, write_pseudo_sprite};
use crate::layout::{
    container_bytes, container_header, disable_payload, grf_info_payload,
    lemma_conditional_emission, lemma_fixed_skeleton, lemma_records_read_back, record_payloads,
    slot_record, COMPRESSION_NONE, CONTAINER_HEADER_LEN, CONTAINER_SIGNATURE, DISABLE_ID_OFFSET,
    DISABLE_TEMPLATE, END_MARKER, FORMAT_VERSION_TAG, GRF_DESCRIPTION, GRF_INFO_ACTION, GRF_NAME,
    INDUSTRY_SLOTS, SPRITE_COUNT, SPRITE_SECTION_OFFSET,
};
use crate::options::{NewGRFIndustry, NewGRFOptions};

verus! {

/// Why a configuration cannot be encoded.
#[derive(Debug, Clone, Copy, PartialEq, Eq)]
pub enum GrfError {
    /// The configuration holds `len` entries, fewer than the slots that the
    /// encoder reads.
    BoundsViolation { len: usize },
}

/// What encoding a configuration gives: the container's bytes, or the error
/// for a configuration with fewer than two entries.
pub open spec fn encode(industries: Seq<NewGRFIndustry>) -> Result<Seq<u8>, GrfError> {
    if industries.len() < INDUSTRY_SLOTS {
        Err(GrfError::BoundsViolation { len: industries.len() as usize })
    } else {
        Ok(container_bytes(industries))
    }
}

/// Determinism: two runs of `write_grf` on equal configurations agree. Both
/// fail with the same error, or both succeed with the same bytes.
pub proof fn lemma_write_grf_deterministic(
    first: NewGRFOptions,
    second: NewGRFOptions,
    first_result: Result<Vec<u8>, GrfError>,
    second_result: Result<Vec<u8>, GrfError>,
)
    requires
        first@ == second@,
        call_ensures(write_grf, (first,), first_result),
        call_ensures(write_grf, (second,), second_result),
    ensures
        first_result is Ok <==> second_result is Ok,
        first_result is Ok ==> first_result->Ok_0@ == second_result->Ok_0@,
        first_result is Err ==> first_result->Err_0 == second_result->Err_0,
{
}

/// A container depends on no more than whether each of the first two
/// industries is available: identifiers and further entries change nothing.
pub proof fn lemma_encode_reads_two_slots(first: Seq<NewGRFIndustry>, second: Seq<NewGRFIndustry>)
    requires
        first.len() >= INDUSTRY_SLOTS,
        second.len() >= INDUSTRY_SLOTS,
        first[0].available == second[0].available,
        first[1].available == second[1].available,
    ensures
        encode(first) == encode(second),
{
}

/// Builds the payload of the metadata record.
fn grf_info() -> (payload: Vec<u8>)
    ensures
        payload@ == grf_info_payload(),
{
    let mut payload: Vec<u8> = Vec::new();
    append_bytes(&mut payload, &GRF_INFO_ACTION);
    append_bytes(&mut payload, &FORMAT_VERSION_TAG);
    append_bytes(&mut payload, &GRF_NAME);
    payload.push(0);
    append_bytes(&mut payload, &GRF_DESCRIPTION);
    payload.push(0);
    payload
}

/// Builds the payload that disables the industry in slot `slot`.
fn disable_industry(slot: u8) -> (payload: [u8; 7])
    ensures
        payload@ == disable_payload(slot),
{
    let mut payload: [u8; 7] = DISABLE_TEMPLATE;
    payload[DISABLE_ID_OFFSET] = slot;
    payload
}

/// Frames `payload` and appends the record to `output`.
fn append_record(output: &mut Vec<u8>, payload: &[u8])
    ensures
        final(output)@ == old(output)@ + frame(payload@),
{
    let record = write_pseudo_sprite(payload);
    append_bytes(output, record.as_slice());
}

/// Appends what slot `slot` contributes: the disable record if the industry
/// there is not available, nothing otherwise.
fn append_slot_record(output: &mut Vec<u8>, industries: &Vec<NewGRFIndustry>, slot: u8)
    requires
        slot < industries@.len(),
    ensures
        final(output)@ == old(output)@ + slot_record(industries@, slot),
{
    if !industries[slot as usize].available {
        let payload = disable_industry(slot);
        append_record(output, &payload);
    }
}

/// Encodes `options` as a version-2 container.
///
/// Fails, with nothing written, exactly when the configuration has fewer than
/// two entries. Otherwise the result is the container that `encode` describes
/// byte for byte: it opens with the header and closes with the end marker, in
/// between it reads back as the records of `record_payloads`, and the record
/// that disables a slot is among them exactly when the industry in that slot
/// is not available.
pub fn write_grf(options: NewGRFOptions) -> (result: Result<Vec<u8>, GrfError>)
    ensures
        (match result {
            Ok(bytes) => encode(options@) == Ok::<Seq<u8>, GrfError>(bytes@),
            Err(error) => encode(options@) == Err::<Seq<u8>, GrfError>(error),
        }),
        result is Ok <==> options@.len() >= INDUSTRY_SLOTS,
        result matches Ok(bytes) ==> ({
            &&& bytes@.subrange(0, CONTAINER_HEADER_LEN as int) == container_header()
            &&& bytes@.subrange(bytes@.len() - 4, bytes@.len() as int) == END_MARKER@
            &&& read_records(bytes@.skip(CONTAINER_HEADER_LEN as int)) == Some(
                record_payloads(options@),
            )
            &&& record_payloads(options@).contains(disable_payload(0)) <==> !options@[0].available
            &&& record_payloads(options@).contains(disable_payload(1)) <==> !options@[1].available
        }),
{
    let len: usize = options.industries.len();
    if len < INDUSTRY_SLOTS {
        return Err(GrfError::BoundsViolation { len });
    }
    let mut output: Vec<u8> = Vec::new();
    append_bytes(&mut output, &CONTAINER_SIGNATURE);
    append_bytes(&mut output, &SPRITE_SECTION_OFFSET);
    output.push(COMPRESSION_NONE);
    append_record(&mut output, &SPRITE_COUNT);
    let info = grf_info();
    append_record(&mut output, info.as_slice());
    append_slot_record(&mut output, &options.industries, 0);
    append_slot_record(&mut output, &options.industries, 1);
    append_bytes(&mut output, &END_MARKER);
    proof {
        assert(output@ =~= container_bytes(options@));
        lemma_fixed_skeleton(options@);
        lemma_records_read_back(options@);
        lemma_conditional_emission(options@);
    }
    Ok(output)
}

} // verus!
