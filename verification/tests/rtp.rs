//! RTP packets: parsing, building and the packet trait.
use livestream::codec::rtp::{parse_rtp_header, RtpPacket};
use livestream::types::MediaPacket;


#[test]
fn parse_valid_rtp_header() {
    let mut data = vec![0u8; 15];
    data[0] = 0x80; // V=2
    data[1] = 0x80 | 96; // M=1, PT=96
    data[2..4].copy_from_slice(&42u16.to_be_bytes());
    data[4..8].copy_from_slice(&90000u32.to_be_bytes());
    data[8..12].copy_from_slice(&0x12345678u32.to_be_bytes());
    data[12..15].copy_from_slice(&[0xAA, 0xBB, 0xCC]);

    let hdr = parse_rtp_header(&data).unwrap();
    assert_eq!(hdr.payload_type, 96);
    assert!(hdr.marker);
    assert_eq!(hdr.sequence_number, 42);
    assert_eq!(hdr.rtp_timestamp, 90000);
    assert_eq!(hdr.ssrc, 0x12345678);
    assert_eq!(hdr.payload, &[0xAA, 0xBB, 0xCC]);
}

#[test]
fn parse_too_short() {
    assert!(parse_rtp_header(&[0u8; 8]).is_none());
}

#[test]
fn parse_no_marker() {
    let mut data = vec![0u8; 12];
    data[0] = 0x80; // V=2
    data[1] = 96; // M=0, PT=96

    let hdr = parse_rtp_header(&data).unwrap();
    assert_eq!(hdr.payload_type, 96);
    assert!(!hdr.marker);
}

#[test]
fn parse_with_csrc_list() {
    // V=2, CC=2 -> header = 12 + 2*4 = 20 bytes.
    let mut data = vec![0u8; 24];
    data[0] = 0x80 | 0x02; // V=2, CC=2
    data[1] = 96;
    data[8..12].copy_from_slice(&0x11111111u32.to_be_bytes()); // SSRC
    data[12..16].copy_from_slice(&0x22222222u32.to_be_bytes()); // CSRC[0]
    data[16..20].copy_from_slice(&0x33333333u32.to_be_bytes()); // CSRC[1]
    data[20..24].copy_from_slice(&[1, 2, 3, 4]);

    let hdr = parse_rtp_header(&data).unwrap();
    assert_eq!(hdr.ssrc, 0x11111111);
    assert_eq!(hdr.payload, &[1, 2, 3, 4]);
}

#[test]
fn parse_with_extension() {
    // V=2, X=1, CC=0. Extension header: 16-bit profile + 16-bit length
    // (1 word of extension data) -> header = 12 + 4 + 4 = 20 bytes.
    let mut data = vec![0u8; 23];
    data[0] = 0x80 | 0x10; // V=2, X=1
    data[1] = 96;
    data[12..14].copy_from_slice(&0xBEDEu16.to_be_bytes()); // profile
    data[14..16].copy_from_slice(&1u16.to_be_bytes()); // extension length (words)
    data[16..20].copy_from_slice(&[0xDE, 0xAD, 0xBE, 0xEF]); // extension data
    data[20..23].copy_from_slice(&[7, 8, 9]);

    let hdr = parse_rtp_header(&data).unwrap();
    assert_eq!(hdr.payload, &[7, 8, 9]);
}

#[test]
fn parse_with_padding() {
    // V=2, P=1. Last payload byte holds the pad count (incl. itself).
    let mut data = vec![0u8; 18];
    data[0] = 0x80 | 0x20; // V=2, P=1
    data[1] = 96;
    data[12..15].copy_from_slice(&[0xAA, 0xBB, 0xCC]); // real payload
    data[15] = 0x00; // padding byte
    data[16] = 0x00; // padding byte
    data[17] = 3; // 3 padding octets (last byte holds the count)

    let hdr = parse_rtp_header(&data).unwrap();
    assert_eq!(hdr.payload, &[0xAA, 0xBB, 0xCC]);
}

#[test]
fn parse_with_csrc_extension_and_padding() {
    // V=2, P=1, X=1, CC=1 -> header = 12 + 4 + 4 + 4 = 24 bytes.
    let mut data = vec![0u8; 29];
    data[0] = 0x80 | 0x20 | 0x10 | 0x01; // V=2, P=1, X=1, CC=1
    data[1] = 96;
    data[8..12].copy_from_slice(&0xABCDEF01u32.to_be_bytes()); // SSRC
    data[12..16].copy_from_slice(&0x12345678u32.to_be_bytes()); // CSRC[0]
    data[16..18].copy_from_slice(&0xBEDEu16.to_be_bytes()); // profile
    data[18..20].copy_from_slice(&1u16.to_be_bytes()); // extension length (words)
    data[20..24].copy_from_slice(&[1, 2, 3, 4]); // extension data
    data[24..27].copy_from_slice(&[0xAA, 0xBB, 0xCC]); // real payload
    data[27] = 0x00; // padding byte
    data[28] = 2; // 2 padding octets (last byte holds the count)

    let hdr = parse_rtp_header(&data).unwrap();
    assert_eq!(hdr.ssrc, 0xABCDEF01);
    assert_eq!(hdr.payload, &[0xAA, 0xBB, 0xCC]);
}

#[test]
fn parse_rejects_wrong_version() {
    let mut data = vec![0u8; 12];
    data[0] = 0x00; // V=0
    assert!(parse_rtp_header(&data).is_none());

    data[0] = 0x80; // V=2
    assert!(parse_rtp_header(&data).is_some());

    data[0] = 0xC0; // V=3
    assert!(parse_rtp_header(&data).is_none());
}

#[test]
fn parse_rejects_truncated_header() {
    // CC=3 declares 12 more header bytes than are present.
    let mut data = vec![0u8; 16];
    data[0] = 0x80 | 0x03; // V=2, CC=3
    assert!(parse_rtp_header(&data).is_none());

    // X=1 with an extension length that overruns the buffer.
    let mut data = vec![0u8; 18];
    data[0] = 0x80 | 0x10; // V=2, X=1
    data[14..16].copy_from_slice(&4u16.to_be_bytes()); // claims 16 extension bytes
    assert!(parse_rtp_header(&data).is_none());
}

#[test]
fn parse_rejects_invalid_padding() {
    // Pad count larger than the available payload.
    let mut data = vec![0u8; 15];
    data[0] = 0x80 | 0x20; // V=2, P=1
    data[12] = 0xAA;
    data[13] = 0xBB;
    data[14] = 0x04; // claims 4 padding octets, only 3 payload bytes
    assert!(parse_rtp_header(&data).is_none());

    // Pad count of 0 is invalid (count includes the count byte itself).
    let mut data = vec![0u8; 13];
    data[0] = 0x80 | 0x20; // V=2, P=1
    data[12] = 0x00;
    assert!(parse_rtp_header(&data).is_none());
}

#[test]
fn build_rtp_packet() {
    let pkt = RtpPacket::new(96, 0, 90000, true, 42, 0x12345678, &[0xAA, 0xBB]);

    assert_eq!(pkt.payload_type, 96);
    assert_eq!(pkt.channel, 0);
    assert_eq!(pkt.rtp_timestamp, 90000);
    assert!(pkt.marker);
    assert_eq!(pkt.data.len(), 14); // 12 header + 2 payload
    assert_eq!(pkt.byte_size(), 14);

    // Verify header bytes
    assert_eq!(pkt.data[0], 0x80); // V=2
    assert_eq!(pkt.data[1], 0x80 | 96); // M=1, PT=96
    assert_eq!(pkt.data[4..8], 90000u32.to_be_bytes());
    assert_eq!(pkt.data[12], 0xAA);
    assert_eq!(pkt.data[13], 0xBB);
}

#[test]
fn media_packet_trait() {
    let pkt = RtpPacket::new(96, 0, 90000, false, 1, 0, &[]);
    assert!(pkt.codec_params().is_empty());
    assert!(!pkt.is_keyframe());
    assert_eq!(pkt.byte_size(), 12);
    assert!(pkt.timestamp().is_none());
}

#[test]
fn built_packet_parses_back() {
    let pkt = RtpPacket::new(96, 2, 0xDEAD_BEEF, true, 0xABCD, 0x0102_0304, &[9, 8, 7]);
    let hdr = parse_rtp_header(&pkt.data).unwrap();
    assert_eq!(hdr.payload_type, 96);
    assert!(hdr.marker);
    assert_eq!(hdr.sequence_number, 0xABCD);
    assert_eq!(hdr.rtp_timestamp, 0xDEAD_BEEF);
    assert_eq!(hdr.ssrc, 0x0102_0304);
    assert_eq!(hdr.payload, &[9, 8, 7]);
}

#[test]
fn payload_type_keeps_seven_bits() {
    let pkt = RtpPacket::new(0xFF, 0, 0, false, 0, 0, &[]);
    let hdr = parse_rtp_header(&pkt.data).unwrap();
    assert_eq!(hdr.payload_type, 0x7F);
    assert!(!hdr.marker);
}

#[test]
fn padding_may_fill_the_whole_payload() {
    let mut data = vec![0u8; 14];
    data[0] = 0x80 | 0x20;
    data[13] = 2;
    assert_eq!(parse_rtp_header(&data).unwrap().payload.len(), 0);
    // Padding is announced, but no octet is left to hold its count.
    let mut bare = vec![0u8; 12];
    bare[0] = 0x80 | 0x20;
    assert!(parse_rtp_header(&bare).is_none());
}

#[test]
fn extension_header_must_be_present() {
    let mut data = vec![0u8; 15];
    data[0] = 0x80 | 0x10;
    assert!(parse_rtp_header(&data).is_none());
    data.push(0);
    assert_eq!(parse_rtp_header(&data).unwrap().payload.len(), 0);
}

#[test]
fn clone_keeps_the_packet() {
    let pkt = RtpPacket::new(97, 4, 7, true, 1, 2, &[1, 2, 3]);
    let copy = pkt.clone();
    assert_eq!(copy.payload_type, 97);
    assert_eq!(copy.channel, 4);
    assert_eq!(copy.rtp_timestamp, 7);
    assert!(copy.marker);
    assert_eq!(copy.data, pkt.data);
}
