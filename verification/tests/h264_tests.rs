use raspivid_stream::h264::{classify_unit, get_unit_type, UnitSplitter, UnitType};

fn split_all(chunks: &[&[u8]]) -> Vec<Vec<u8>> {
    let mut splitter = UnitSplitter::new();
    let mut units: Vec<Vec<u8>> = Vec::new();
    for chunk in chunks {
        let mut emitted = splitter.push_chunk(chunk);
        units.append(&mut emitted);
    }
    units
}

#[test]
fn example_two_units_one_buffered() {
    // 00 00 01 09 FF | 00 00 00 01 67 AA | 00 00 01 09 (last unit still open)
    let input: Vec<u8> = vec![
        0x00, 0x00, 0x01, 0x09, 0xFF, 0x00, 0x00, 0x00, 0x01, 0x67, 0xAA, 0x00, 0x00, 0x01, 0x09,
    ];
    let units = split_all(&[&input]);
    assert_eq!(units.len(), 2);
    assert_eq!(units[0], vec![0x00, 0x00, 0x01, 0x09, 0xFF]);
    assert_eq!(units[1], vec![0x00, 0x00, 0x00, 0x01, 0x67, 0xAA]);
    assert_eq!(get_unit_type(&units[0]), 9);
    assert_eq!(classify_unit(&units[0]), UnitType::Other);
    assert_eq!(get_unit_type(&units[1]), 7);
    assert_eq!(classify_unit(&units[1]), UnitType::Sps);
}

#[test]
fn chunking_does_not_change_the_units() {
    let input: Vec<u8> = vec![
        0x00, 0x00, 0x01, 0x09, 0xFF, 0x00, 0x00, 0x00, 0x01, 0x67, 0xAA, 0x00, 0x00, 0x01, 0x09,
        0x42, 0x00, 0x00, 0x01,
    ];
    let whole = split_all(&[&input]);
    // one byte at a time
    let singles: Vec<&[u8]> = input.chunks(1).collect();
    assert_eq!(split_all(&singles), whole);
    // a boundary inside every start code
    let pieces: Vec<&[u8]> = vec![&input[..1], &input[1..6], &input[6..7], &input[7..12], &input[12..]];
    assert_eq!(split_all(&pieces), whole);
}

#[test]
fn split_start_code_across_reads() {
    // The 4-byte start code is cut between its zeros and the 0x01.
    let units = split_all(&[&[0x00, 0x00, 0x00], &[0x01, 0x65, 0x10, 0x00, 0x00, 0x01, 0x09]]);
    assert_eq!(units.len(), 1);
    assert_eq!(units[0], vec![0x00, 0x00, 0x00, 0x01, 0x65, 0x10]);
}

#[test]
fn round_trip_reassembles_the_input() {
    let input: Vec<u8> = vec![
        0xAB, 0x00, 0x00, 0x01, 0x09, 0xFF, 0x00, 0x00, 0x00, 0x01, 0x67, 0xAA, 0x00, 0x00, 0x01,
    ];
    for size in [1usize, 2, 3, 7, input.len()] {
        let mut splitter = UnitSplitter::new();
        let mut rebuilt: Vec<u8> = Vec::new();
        for chunk in input.chunks(size) {
            for unit in splitter.push_chunk(chunk) {
                rebuilt.extend_from_slice(&unit);
            }
        }
        rebuilt.extend_from_slice(splitter.pending());
        assert_eq!(rebuilt, input);
    }
}

#[test]
fn nothing_before_the_first_start_code_means_no_unit() {
    // Only the opening start code arrives: nothing to emit yet.
    let units = split_all(&[&[0x00, 0x00, 0x01, 0x41, 0x00]]);
    assert_eq!(units.len(), 0);
}

#[test]
fn four_or_more_zeros_only_count_as_a_long_run() {
    // Five zeros before the 0x01: not a start code, the run is too long.
    let units = split_all(&[&[
        0x00, 0x00, 0x01, 0x41, 0x00, 0x00, 0x00, 0x00, 0x00, 0x01, 0x02, 0x00, 0x00, 0x01,
    ]]);
    assert_eq!(units.len(), 1);
    assert_eq!(
        units[0],
        vec![0x00, 0x00, 0x01, 0x41, 0x00, 0x00, 0x00, 0x00, 0x00, 0x01, 0x02]
    );
}

#[test]
fn classifier_same_header_either_prefix() {
    // 3-byte and 4-byte start-code prefixes with the same header byte.
    let three = vec![0x00, 0x00, 0x01, 0x65, 0xAA];
    let four = vec![0x00, 0x00, 0x00, 0x01, 0x65];
    assert_eq!(get_unit_type(&three), get_unit_type(&four));
    assert_eq!(classify_unit(&three), UnitType::Idr);
    assert_eq!(classify_unit(&four), UnitType::Idr);
}

#[test]
fn classifier_variants() {
    let unit = |header: u8| vec![0x00, 0x00, 0x01, header, 0x00];
    assert_eq!(classify_unit(&unit(0x41)), UnitType::SliceNonIdr);
    assert_eq!(classify_unit(&unit(0x65)), UnitType::Idr);
    assert_eq!(classify_unit(&unit(0x67)), UnitType::Sps);
    assert_eq!(classify_unit(&unit(0x68)), UnitType::Pps);
    assert_eq!(classify_unit(&unit(0x09)), UnitType::Other);
}

#[test]
fn classifier_short_buffer_is_other() {
    assert_eq!(classify_unit(&vec![0x00, 0x00, 0x01, 0x65]), UnitType::Other);
    assert_eq!(classify_unit(&Vec::new()), UnitType::Other);
}
