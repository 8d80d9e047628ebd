//! Encoded packets, segments, NAL data and stream parameters.
use bytes::Bytes;
use livestream::codec::nal_data::NalData;
use livestream::codec::packet::{EncodedPacket, TsSegment};
use livestream::time::Duration;
use livestream::types::{Codec, CodecParams, MediaPacket, MediaType, Protocol};


#[test]
fn video_keyframe_has_correct_properties() {
    let data: &[u8] = &[0x00, 0x00, 0x01];
    let pkt = EncodedPacket::new_video_keyframe(Bytes::copy_from_slice(data), 1000, 900, 0);
    assert_eq!(pkt.codec, Codec::H264);
    assert!(pkt.is_keyframe);
    assert!(!pkt.is_sequence_header);
    assert!(pkt.is_video());
    assert!(!pkt.is_audio());
    assert_eq!(pkt.timestamp(), Some(Duration::from_millis(1000)));
}

#[test]
fn audio_packet_has_correct_properties() {
    let data: &[u8] = &[0xff, 0xf1];
    let pkt = EncodedPacket::new_audio(Bytes::copy_from_slice(data), 500, 1);
    assert_eq!(pkt.codec, Codec::Aac);
    assert!(!pkt.is_keyframe);
    assert!(pkt.is_audio());
    assert!(!pkt.is_video());
}

#[test]
fn avc_sequence_header() {
    let sps = b"\x67\x42\x00";
    let pps = b"\x68\xce\x3c";
    let pkt = EncodedPacket::new_avc_sequence_header(sps, pps, 0);
    assert!(pkt.is_sequence_header);
    assert!(pkt.is_keyframe);
    assert!(pkt.data.is_empty());
    assert_eq!(pkt.extradata.as_ref().map(|b| b.len()), Some(6));
}

#[test]
fn aac_sequence_header() {
    let asc = b"\x12\x10";
    let pkt = EncodedPacket::new_aac_sequence_header(asc, 1);
    assert!(pkt.is_sequence_header);
    assert!(!pkt.is_keyframe);
    assert_eq!(pkt.codec, Codec::Aac);
}

#[test]
fn ts_segment_media_packet_impl() {
    let seg = TsSegment {
        path: "/tmp/segment_0000.ts".into(),
        filename: "segment_0000.ts".into(),
        sequence: 3,
        duration: Duration::from_secs(2),
        is_final: false,
    };
    assert!(seg.is_keyframe());
    assert_eq!(seg.byte_size(), 0);
    assert_eq!(
        seg.timestamp(),
        Some(Duration::from_secs(6)) // 2 * 3
    );
}

#[test]
fn constructors_tag_data_as_annex_b() {
    let pkt = EncodedPacket::new_video_keyframe(Bytes::from_static(&[0, 0, 1, 0x65]), -5, -6, 3);
    assert_eq!(pkt.data, NalData::AnnexB(Bytes::from_static(&[0, 0, 1, 0x65])));
    assert_eq!(pkt.stream_index, 3);
    assert_eq!(pkt.dts_ms, Some(-6));
    assert_eq!(pkt.byte_size(), 4);
    assert!(pkt.extradata.is_none());
    // Times before the start of the stream are clamped to it.
    assert_eq!(pkt.timestamp(), Some(Duration::from_millis(0)));
}

#[test]
fn sequence_headers_hold_their_sets() {
    let avc = EncodedPacket::new_avc_sequence_header(&[1, 2], &[3], 0);
    assert_eq!(avc.extradata, Some(Bytes::from_static(&[1, 2, 3])));
    assert_eq!(avc.timestamp(), None);
    let aac = EncodedPacket::new_aac_sequence_header(&[0x12, 0x10], 1);
    assert_eq!(aac.extradata, Some(Bytes::from_static(&[0x12, 0x10])));
    assert_eq!(aac.clone().extradata, aac.extradata);
}

#[test]
fn nal_data_gives_its_bytes() {
    let avcc = NalData::Avcc(Bytes::from_static(&[0, 0, 0, 1, 9]));
    assert!(avcc.is_avcc());
    assert!(!avcc.is_annex_b());
    assert!(!avcc.is_empty());
    assert_eq!(avcc.len(), 5);
    assert_eq!(avcc.as_bytes().as_ref(), &[0, 0, 0, 1, 9]);
    assert_eq!(Bytes::from(avcc.clone()).as_ref(), &[0, 0, 0, 1, 9]);
    let annexb = NalData::AnnexB(Bytes::new());
    assert!(annexb.is_annex_b());
    assert!(annexb.is_empty());
    assert_eq!(annexb.into_bytes().len(), 0);
}

#[test]
fn segment_time_uses_the_low_half_of_the_sequence() {
    let seg = TsSegment {
        path: String::new(),
        filename: String::new(),
        sequence: 0x1_0000_0002,
        duration: Duration::from_millis(1500),
        is_final: true,
    };
    assert_eq!(seg.timestamp(), Some(Duration::from_secs(3)));
    let long = TsSegment { sequence: 2, duration: Duration::from_secs(u64::MAX), ..seg.clone() };
    assert_eq!(long.timestamp(), None);
    assert!(seg.codec_params().is_empty());
}

#[test]
fn duration_parts() {
    let d = Duration::from_millis(61_250);
    assert_eq!(d.as_secs(), 61);
    assert_eq!(d.subsec_nanos(), 250_000_000);
    assert_eq!(Duration::from_parts(61, 250_000_000), Some(d));
    assert_eq!(Duration::from_parts(0, 1_000_000_000), None);
    let one = Duration::from_parts(0, 999_999_999).unwrap();
    assert_eq!(one.checked_mul(1000), Duration::from_parts(999, 999_999_000));
}

#[test]
fn stream_parameters_know_their_kind() {
    let video = CodecParams::new_video(Codec::H264, 90000, Some(Bytes::from_static(&[1])));
    assert!(video.is_video() && !video.is_audio());
    assert_eq!(video.media_type, MediaType::Video);
    assert_eq!(video.clone().extradata, Some(Bytes::from_static(&[1])));
    let audio = CodecParams::new_audio(Codec::Aac, 44100, None);
    assert!(audio.is_audio() && !audio.is_video());
    assert_eq!(audio.clock_rate, 44100);
}

#[test]
fn supported_codecs() {
    assert!(Codec::H264.is_supported() && Codec::Aac.is_supported());
    for codec in [Codec::H265, Codec::Mp3, Codec::Opus, Codec::Av1, Codec::Mjpeg] {
        assert!(!codec.is_supported());
    }
}

#[test]
fn protocol_names() {
    assert_eq!(Protocol::Rtmp.to_string(), "RTMP");
    assert_eq!(Protocol::Rtsp.to_string(), "RTSP");
    assert_eq!(Protocol::Hls.to_string(), "HLS");
    assert_eq!(Protocol::HttpFlv.to_string(), "HTTP-FLV");
}
