use truegrf::layout::{
    COMPRESSION_NONE, CONTAINER_HEADER_LEN, CONTAINER_SIGNATURE, END_MARKER, INDUSTRY_SLOTS,
    SPRITE_COUNT, SPRITE_SECTION_OFFSET,
};
use truegrf::{write_grf, write_pseudo_sprite, GrfError, NewGRFIndustry, NewGRFOptions};

const HEADER: [u8; 15] = [
    0x00, 0x00, 0x47, 0x52, 0x46, 0x82, 0x0d, 0x0a, 0x1a, 0x0a, 0x00, 0x00, 0x00, 0x00, 0x00,
];

const COUNT_RECORD: [u8; 9] = [0x04, 0x00, 0x00, 0x00, 0xff, 0x02, 0x00, 0x00, 0x00];

const METADATA_PAYLOAD: &[u8] = b"\x08\x08TRU1TrueGRF Test\x00TrueGRF Test Description\x00";

const DISABLE_0: [u8; 12] = [
    0x07, 0x00, 0x00, 0x00, 0xff, 0x00, 0x0a, 0x01, 0x01, 0x00, 0x08, 0xff,
];

const DISABLE_1: [u8; 12] = [
    0x07, 0x00, 0x00, 0x00, 0xff, 0x00, 0x0a, 0x01, 0x01, 0x01, 0x08, 0xff,
];

fn options(flags: &[(i32, bool)]) -> NewGRFOptions {
    NewGRFOptions {
        industries: flags
            .iter()
            .map(|&(id, available)| NewGRFIndustry { id, available })
            .collect(),
    }
}

fn encode(flags: &[(i32, bool)]) -> Vec<u8> {
    write_grf(options(flags)).expect("two entries encode")
}

fn metadata_record() -> Vec<u8> {
    let mut record = vec![0x2c, 0x00, 0x00, 0x00, 0xff];
    record.extend_from_slice(METADATA_PAYLOAD);
    record
}

fn expected(first_available: bool, second_available: bool) -> Vec<u8> {
    let mut bytes = HEADER.to_vec();
    bytes.extend_from_slice(&COUNT_RECORD);
    bytes.extend_from_slice(&metadata_record());
    if !first_available {
        bytes.extend_from_slice(&DISABLE_0);
    }
    if !second_available {
        bytes.extend_from_slice(&DISABLE_1);
    }
    bytes.extend_from_slice(&[0x00, 0x00, 0x00, 0x00]);
    bytes
}

/// Walks the records behind the header by their length fields and returns the
/// payloads, or `None` if the walk does not end on the end marker.
fn walk_records(container: &[u8]) -> Option<Vec<Vec<u8>>> {
    let mut payloads = Vec::new();
    let mut at = 15;
    loop {
        let field = container.get(at..at + 4)?;
        let declared = u32::from_le_bytes([field[0], field[1], field[2], field[3]]) as usize;
        if declared == 0 {
            return if at + 4 == container.len() { Some(payloads) } else { None };
        }
        if *container.get(at + 4)? != 0xff {
            return None;
        }
        payloads.push(container.get(at + 5..at + 5 + declared)?.to_vec());
        at += 5 + declared;
    }
}

fn occurrences(haystack: &[u8], needle: &[u8]) -> usize {
    haystack.windows(needle.len()).filter(|window| *window == needle).count()
}

#[test]
fn both_available_gives_no_disable_record() {
    let bytes = encode(&[(0, true), (1, true)]);
    let exact: Vec<u8> = vec![
        0x00, 0x00, 0x47, 0x52, 0x46, 0x82, 0x0d, 0x0a, 0x1a, 0x0a, 0x00, 0x00, 0x00, 0x00,
        0x00, 0x04, 0x00, 0x00, 0x00, 0xff, 0x02, 0x00, 0x00, 0x00, 0x2c, 0x00, 0x00, 0x00,
        0xff, 0x08, 0x08, 0x54, 0x52, 0x55, 0x31, 0x54, 0x72, 0x75, 0x65, 0x47, 0x52, 0x46,
        0x20, 0x54, 0x65, 0x73, 0x74, 0x00, 0x54, 0x72, 0x75, 0x65, 0x47, 0x52, 0x46, 0x20,
        0x54, 0x65, 0x73, 0x74, 0x20, 0x44, 0x65, 0x73, 0x63, 0x72, 0x69, 0x70, 0x74, 0x69,
        0x6f, 0x6e, 0x00, 0x00, 0x00, 0x00, 0x00,
    ];
    assert_eq!(bytes, exact);
    assert_eq!(bytes, expected(true, true));
    assert_eq!(METADATA_PAYLOAD.len(), 44);
    assert_eq!(bytes.len(), 15 + (5 + 4) + (5 + 44) + 4);
    assert_eq!(&bytes[..15], &HEADER);
    assert_eq!(&bytes[15..24], &COUNT_RECORD);
    assert_eq!(&bytes[24..73], &metadata_record()[..]);
    assert_eq!(&bytes[73..], &[0x00, 0x00, 0x00, 0x00]);
    assert_eq!(occurrences(&bytes, &DISABLE_0), 0);
    assert_eq!(occurrences(&bytes, &DISABLE_1), 0);
    assert_eq!(
        walk_records(&bytes),
        Some(vec![vec![0x02, 0x00, 0x00, 0x00], METADATA_PAYLOAD.to_vec()])
    );
}

#[test]
fn first_unavailable_gives_one_disable_record() {
    let bytes = encode(&[(0, false), (1, true)]);
    assert_eq!(bytes, expected(false, true));
    assert_eq!(bytes.len(), expected(true, true).len() + 12);
    assert_eq!(&bytes[73..85], &DISABLE_0);
    assert_eq!(&bytes[85..], &[0x00, 0x00, 0x00, 0x00]);
    assert_eq!(occurrences(&bytes, &DISABLE_0), 1);
    assert_eq!(occurrences(&bytes, &DISABLE_1), 0);
    assert_eq!(
        walk_records(&bytes),
        Some(vec![
            vec![0x02, 0x00, 0x00, 0x00],
            METADATA_PAYLOAD.to_vec(),
            vec![0x00, 0x0a, 0x01, 0x01, 0x00, 0x08, 0xff],
        ])
    );
}

#[test]
fn second_unavailable_gives_one_disable_record() {
    let bytes = encode(&[(0, true), (1, false)]);
    assert_eq!(bytes, expected(true, false));
    assert_eq!(bytes.len(), 89);
    assert_eq!(&bytes[73..85], &DISABLE_1);
    assert_eq!(occurrences(&bytes, &DISABLE_0), 0);
    assert_eq!(occurrences(&bytes, &DISABLE_1), 1);
}

#[test]
fn both_unavailable_gives_two_disable_records_in_slot_order() {
    let bytes = encode(&[(0, false), (1, false)]);
    assert_eq!(bytes, expected(false, false));
    assert_eq!(bytes.len(), 101);
    assert_eq!(&bytes[73..85], &DISABLE_0);
    assert_eq!(&bytes[85..97], &DISABLE_1);
    assert_eq!(&bytes[97..], &[0x00, 0x00, 0x00, 0x00]);
    assert_eq!(
        walk_records(&bytes),
        Some(vec![
            vec![0x02, 0x00, 0x00, 0x00],
            METADATA_PAYLOAD.to_vec(),
            vec![0x00, 0x0a, 0x01, 0x01, 0x00, 0x08, 0xff],
            vec![0x00, 0x0a, 0x01, 0x01, 0x01, 0x08, 0xff],
        ])
    );
}

#[test]
fn empty_configuration_is_a_bounds_violation() {
    assert_eq!(write_grf(options(&[])), Err(GrfError::BoundsViolation { len: 0 }));
}

#[test]
fn single_entry_is_a_bounds_violation() {
    assert_eq!(
        write_grf(options(&[(0, true)])),
        Err(GrfError::BoundsViolation { len: 1 })
    );
    assert_eq!(
        write_grf(options(&[(0, false)])),
        Err(GrfError::BoundsViolation { len: 1 })
    );
}

#[test]
fn default_configuration_is_a_bounds_violation() {
    assert_eq!(
        write_grf(NewGRFOptions::default()),
        Err(GrfError::BoundsViolation { len: 0 })
    );
}

#[test]
fn two_entries_always_encode() {
    for first in [true, false] {
        for second in [true, false] {
            assert!(write_grf(options(&[(0, first), (1, second)])).is_ok());
        }
    }
}

#[test]
fn equal_configurations_encode_alike() {
    for first in [true, false] {
        for second in [true, false] {
            let flags = [(0, first), (1, second)];
            assert_eq!(write_grf(options(&flags)), write_grf(options(&flags)));
        }
    }
    assert_eq!(write_grf(options(&[(3, true)])), write_grf(options(&[(3, true)])));
}

#[test]
fn disable_record_follows_availability_of_its_own_slot() {
    for first in [true, false] {
        for second in [true, false] {
            let bytes = encode(&[(0, first), (1, second)]);
            assert_eq!(occurrences(&bytes, &DISABLE_0) == 1, !first);
            assert_eq!(occurrences(&bytes, &DISABLE_1) == 1, !second);
            let records = walk_records(&bytes).expect("well framed");
            assert_eq!(records.contains(&DISABLE_0[5..].to_vec()), !first);
            assert_eq!(records.contains(&DISABLE_1[5..].to_vec()), !second);
        }
    }
}

#[test]
fn skeleton_is_fixed() {
    let configurations: [&[(i32, bool)]; 6] = [
        &[(0, true), (1, true)],
        &[(0, false), (1, true)],
        &[(0, true), (1, false)],
        &[(0, false), (1, false)],
        &[(7, false), (-3, false), (2, false)],
        &[(0, true), (1, true), (2, false), (3, false)],
    ];
    for flags in configurations {
        let bytes = encode(flags);
        assert_eq!(&bytes[..10], &[0x00, 0x00, 0x47, 0x52, 0x46, 0x82, 0x0d, 0x0a, 0x1a, 0x0a]);
        assert_eq!(&bytes[10..14], &[0x00, 0x00, 0x00, 0x00]);
        assert_eq!(bytes[14], 0x00);
        assert_eq!(&bytes[bytes.len() - 4..], &[0x00, 0x00, 0x00, 0x00]);
        assert_eq!(&bytes[15..24], &COUNT_RECORD);
    }
}

#[test]
fn every_record_declares_its_own_length() {
    for first in [true, false] {
        for second in [true, false] {
            let bytes = encode(&[(0, first), (1, second)]);
            let records = walk_records(&bytes).expect("well framed");
            let mut rebuilt = bytes[..15].to_vec();
            for payload in &records {
                rebuilt.extend_from_slice(&write_pseudo_sprite(payload));
            }
            rebuilt.extend_from_slice(&END_MARKER);
            assert_eq!(rebuilt, bytes);
            assert_eq!(records.len(), 2 + usize::from(!first) + usize::from(!second));
        }
    }
}

#[test]
fn identifiers_are_not_read() {
    let plain = encode(&[(0, false), (1, false)]);
    assert_eq!(encode(&[(1, false), (0, false)]), plain);
    assert_eq!(encode(&[(i32::MAX, false), (i32::MIN, false)]), plain);
    assert_eq!(encode(&[(5, true), (5, true)]), expected(true, true));
}

#[test]
fn entries_past_the_second_are_not_read() {
    assert_eq!(encode(&[(0, true), (1, true), (2, false)]), expected(true, true));
    assert_eq!(
        encode(&[(0, false), (1, true), (2, false), (3, false)]),
        expected(false, true)
    );
}

#[test]
fn records_are_framed_payloads() {
    assert_eq!(write_pseudo_sprite(&SPRITE_COUNT), COUNT_RECORD.to_vec());
    assert_eq!(write_pseudo_sprite(METADATA_PAYLOAD), metadata_record());
    assert_eq!(
        write_pseudo_sprite(&[0x00, 0x0a, 0x01, 0x01, 0x00, 0x08, 0xff]),
        DISABLE_0.to_vec()
    );
    assert_eq!(
        write_pseudo_sprite(&[0x00, 0x0a, 0x01, 0x01, 0x01, 0x08, 0xff]),
        DISABLE_1.to_vec()
    );
}

#[test]
fn format_constants() {
    assert_eq!(&CONTAINER_SIGNATURE, b"\x00\x00GRF\x82\r\n\x1a\n");
    assert_eq!(SPRITE_SECTION_OFFSET, [0x00; 4]);
    assert_eq!(COMPRESSION_NONE, 0x00);
    assert_eq!(SPRITE_COUNT, 2u32.to_le_bytes());
    assert_eq!(END_MARKER, [0x00; 4]);
    assert_eq!(CONTAINER_HEADER_LEN, 15);
    assert_eq!(INDUSTRY_SLOTS, 2);
}
