//! Annex B and AVCC framing, and the decoder configuration record.
use livestream::codec::annexb::{extract_sps_pps, split_annexb};
use livestream::codec::avcc::{annexb_to_avcc, build_avcc_record, hls_extradata};
use livestream::types::Codec;

#[test]
fn split_annexb_units() {
    let data = &[
        0x00, 0x00, 0x00, 0x01, 0x67, 0x01, 0x00, 0x00, 0x00, 0x01, 0x68, 0x02, 0x00, 0x00, 0x01,
        0x65,
    ];
    let nals = split_annexb(data);
    assert_eq!(nals, vec![&data[4..6], &data[10..12], &data[15..16]]);
}

#[test]
fn split_without_start_code() {
    assert!(split_annexb(&[]).is_empty());
    assert!(split_annexb(&[0x65, 0x88, 0x80]).is_empty());
    assert!(split_annexb(&[0, 0]).is_empty());
}

#[test]
fn split_skips_what_precedes_the_first_code() {
    assert_eq!(split_annexb(&[9, 9, 0, 0, 1, 0x65]), vec![&[0x65u8][..]]);
}

#[test]
fn split_keeps_empty_units() {
    let empty: &[u8] = &[];
    assert_eq!(split_annexb(&[0, 0, 1]), vec![empty]);
    assert_eq!(split_annexb(&[0, 0, 1, 0, 0, 1]), vec![empty, empty]);
    assert_eq!(split_annexb(&[0, 0, 1, 0, 0, 0, 1, 7]), vec![empty, &[7u8][..]]);
}

#[test]
fn split_inverts_join() {
    let units: [&[u8]; 3] = [&[0x67, 1, 2], &[0x68, 3], &[0x65, 0, 0, 3, 1]];
    let mut joined = Vec::new();
    for unit in units {
        joined.extend_from_slice(&[0, 0, 0, 1]);
        joined.extend_from_slice(unit);
    }
    assert_eq!(split_annexb(&joined), units.to_vec());
}

#[test]
fn units_may_end_in_zeros() {
    let units: [&[u8]; 3] = [&[0x67, 1, 0], &[0x68, 0, 0, 0], &[0x65, 2]];
    let mut joined = Vec::new();
    for unit in units {
        joined.extend_from_slice(&[0, 0, 0, 1]);
        joined.extend_from_slice(unit);
    }
    assert_eq!(split_annexb(&joined), units.to_vec());
}

#[test]
fn avcc_prefixes_lengths() {
    let avcc = annexb_to_avcc(&[0, 0, 1, 0x65, 0x88, 0, 0, 0, 1, 6]);
    assert_eq!(avcc.as_ref(), &[0, 0, 0, 2, 0x65, 0x88, 0, 0, 0, 1, 6]);
    assert!(annexb_to_avcc(&[1, 2, 3]).is_empty());
}

#[test]
fn parameter_sets_are_the_first_of_their_type() {
    let data = [
        0, 0, 1, 0x09, 0x10, 0, 0, 1, 0x67, 1, 2, 3, 0, 0, 1, 0x68, 4, 0, 0, 1, 0x27, 9, 9, 9, 0,
        0, 1, 0x68, 8,
    ];
    let (sps, pps) = extract_sps_pps(&data).unwrap();
    assert_eq!(sps, vec![0x67, 1, 2, 3]);
    assert_eq!(pps, vec![0x68, 4]);
}

#[test]
fn parameter_sets_may_be_missing() {
    // No PPS.
    assert!(extract_sps_pps(&[0, 0, 1, 0x67, 1, 2, 3]).is_none());
    // No SPS.
    assert!(extract_sps_pps(&[0, 0, 1, 0x68, 1]).is_none());
    // An SPS too short to name a profile and level.
    assert!(extract_sps_pps(&[0, 0, 1, 0x67, 1, 2, 0, 0, 1, 0x68, 1]).is_none());
}

#[test]
fn record_layout() {
    let record = build_avcc_record(&[0x67, 0x42, 0x00, 0x1F, 0xAC], &[0x68, 0xCE]);
    assert_eq!(
        record,
        vec![
            0x01, 0x42, 0x00, 0x1F, 0xFF, 0xE1, 0x00, 0x05, 0x67, 0x42, 0x00, 0x1F, 0xAC, 0x01,
            0x00, 0x02, 0x68, 0xCE
        ]
    );
}

#[test]
fn record_gives_its_sets_back() {
    let sps = [0x67, 0x64, 0x00, 0x28, 1, 2, 3];
    let pps = [0x68, 9];
    let record = build_avcc_record(&sps, &pps);
    assert_eq!(hls_extradata(Codec::H264, &record), [&sps[..], &pps[..]].concat());
}

#[test]
fn other_extradata_is_unchanged() {
    // Another codec.
    assert_eq!(hls_extradata(Codec::Aac, &[0x12, 0x10]), vec![0x12, 0x10]);
    // Too short for a record.
    assert_eq!(hls_extradata(Codec::H264, &[1, 2, 3]), vec![1, 2, 3]);
    // The declared SPS runs past the end.
    let cut = [1, 0x42, 0, 0x1F, 0xFF, 0xE1, 0, 9, 0x67];
    assert_eq!(hls_extradata(Codec::H264, &cut), cut.to_vec());
    // The declared PPS runs past the end.
    let cut = [1, 0x42, 0, 0x1F, 0xFF, 0xE1, 0, 1, 0x67, 1, 0, 5, 0x68];
    assert_eq!(hls_extradata(Codec::H264, &cut), cut.to_vec());
}

#[test]
fn record_may_end_behind_its_sps() {
    let record = [1, 0x42, 0, 0x1F, 0xFF, 0xE1, 0, 1, 0x67];
    assert_eq!(hls_extradata(Codec::H264, &record), vec![0x67]);
}
