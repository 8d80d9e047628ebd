//! FLV: tags, script data, muxing, stream mapping and packetizing.
use bytes::{Bytes, BytesMut};
use livestream::codec::nal_data::NalData;
use livestream::codec::packet::EncodedPacket;
use livestream::flv::mapping::FlvStreamMapping;
use livestream::flv::mux::FlvMux;
use livestream::flv::nesting::{is_nested_within_limit, MAX_NESTING};
use livestream::flv::packetizer::{
    validate_aac_audio_config, FlvTagPacketizer, PacketizeError, PacketizeStep,
};
use livestream::flv::script::{
    checked_script_data_metadata, parse_script_data_metadata, ScriptDataError,
};
use livestream::flv::sink::FlvSink;
use livestream::flv::tag::{put_u24, FlvTag};
use livestream::media::ids::AvCodec;
use livestream::media::stream::{Rational, StaticStreamCollection, StreamParameters};
use livestream::time::Duration;
use livestream::traits::Node;
use livestream::types::{Codec, MediaPacket, MediaType, Protocol};
use rml_rtmp::rml_amf0::{serialize, Amf0Value};
use rml_rtmp::sessions::StreamMetadata;
use std::collections::HashMap;

fn make_mux() -> FlvMux {
    FlvMux::new("test")
}

fn keyframe() -> EncodedPacket {
    EncodedPacket::new_video_keyframe(
        Bytes::from_static(&[0x00, 0x00, 0x01, 0x65, 0x88]),
        1000,
        900,
        0,
    )
}

fn avcc_header() -> EncodedPacket {
    EncodedPacket {
        codec: Codec::H264,
        stream_index: 0,
        data: NalData::AnnexB(Bytes::new()),
        pts_ms: None,
        dts_ms: None,
        is_keyframe: true,
        is_sequence_header: true,
        is_script_data: false,
        extradata: Some(Bytes::from_static(&[0x01, 0x64, 0x00, 0x2C, 0xFF, 0xE1])),
    }
}

fn video_params() -> StreamParameters {
    StreamParameters {
        media_type: MediaType::Video,
        codec: AvCodec::H264,
        sample_rate: None,
        extradata: None,
    }
}

fn audio_params() -> StreamParameters {
    StreamParameters {
        media_type: MediaType::Audio,
        codec: AvCodec::Aac,
        sample_rate: Some(44100),
        extradata: None,
    }
}

fn make_streams() -> StaticStreamCollection {
    StaticStreamCollection::from_owned_params(vec![
        (0, Rational { num: 1, den: 90000 }, video_params()),
        (1, Rational { num: 1, den: 44100 }, audio_params()),
    ])
}

#[test]
fn mux_video_keyframe() {
    let mut mux = make_mux();
    let pkt = keyframe();
    let tags = mux.mux_video(&pkt);
    assert_eq!(tags.len(), 1);
    match &tags[0] {
        FlvTag::Video { timestamp, payload, is_keyframe } => {
            // Tag timestamp is DTS (900), not PTS (1000).
            assert_eq!(*timestamp, 900);
            assert!(*is_keyframe);
            // First byte should be FrameType=1(keyframe) | CodecID=7(AVC) = 0x17
            assert_eq!(payload[0], 0x17);
            // Second byte should be AVCPacketType=1 (NAL unit)
            assert_eq!(payload[1], 0x01);
            // Next three bytes: CompositionTime = PTS - DTS = 100
            assert_eq!(&payload[2..5], &[0x00u8, 0x00, 0x64]);
        }
        _ => panic!("expected video tag"),
    }
}

#[test]
fn mux_video_uses_pts_when_dts_missing() {
    let mut mux = make_mux();
    let mut pkt = keyframe();
    pkt.dts_ms = None;
    let tags = mux.mux_video(&pkt);
    assert_eq!(tags.len(), 1);
    match &tags[0] {
        FlvTag::Video { timestamp, payload, .. } => {
            // Falls back to PTS; CompositionTime becomes 0.
            assert_eq!(*timestamp, 1000);
            assert_eq!(&payload[2..5], &[0x00u8, 0x00, 0x00]);
        }
        _ => panic!("expected video tag"),
    }
}

#[test]
fn mux_audio() {
    let mux = make_mux();
    let pkt = EncodedPacket::new_audio(Bytes::from_static(&[0x21, 0x10, 0x04, 0x60]), 500, 1);
    let tags = mux.mux_audio(&pkt);
    assert_eq!(tags.len(), 1);
    match &tags[0] {
        FlvTag::Audio { timestamp, payload } => {
            assert_eq!(*timestamp, 500);
            // First byte: SoundFormat=10(AAC) | 0x0F
            assert_eq!(payload[0], 0xAF);
            // Second byte: AACPacketType=1
            assert_eq!(payload[1], 0x01);
            assert_eq!(&payload[2..], &[0x21, 0x10, 0x04, 0x60]);
        }
        _ => panic!("expected audio tag"),
    }
}

#[test]
fn unsupported_codec_drops_packet() {
    let mut mux = make_mux();
    let pkt = EncodedPacket {
        codec: Codec::Av1,
        stream_index: 0,
        data: NalData::AnnexB(Bytes::from_static(&[0x00])),
        pts_ms: Some(0),
        dts_ms: None,
        is_keyframe: true,
        is_sequence_header: false,
        is_script_data: false,
        extradata: None,
    };
    let tags = mux.process(pkt);
    assert!(tags.is_empty());
}

#[test]
fn annex_b_to_avcc_passthrough() {
    let mux = make_mux();
    let input = &[0x00, 0x00, 0x01, 0x65, 0x88];
    let result = mux.annex_b_to_avcc(input);
    assert_eq!(&result[..], input);
}

#[test]
fn annex_b_to_avcc_empty() {
    let mux = make_mux();
    assert!(mux.annex_b_to_avcc(&[]).is_empty());
}

#[test]
fn avcc_stream_converts_media_nals() {
    let mut mux = make_mux();
    // A record (configurationVersion=0x01) in the sequence header announces
    // length-prefixed framing for this stream.
    let _ = mux.mux_video(&avcc_header());

    // Media NALs are now length-prefixed instead of Annex B.
    let input = &[0x00, 0x00, 0x00, 0x01, 0x65, 0x88, 0x00, 0x00, 0x00, 0x01, 0x06, 0x01];
    let result = mux.annex_b_to_avcc(input);
    assert_eq!(
        &result[..],
        &[0x00, 0x00, 0x00, 0x02, 0x65, 0x88, 0x00, 0x00, 0x00, 0x02, 0x06, 0x01]
    );
}

#[test]
fn framing_stays_once_announced() {
    let mut mux = make_mux();
    let _ = mux.process(avcc_header());
    let raw = EncodedPacket::new_avc_sequence_header(&[0x67, 1], &[0x68], 0);
    let _ = mux.process(raw);
    let tags = mux.process(keyframe());
    match &tags[0] {
        FlvTag::Video { payload, .. } => {
            assert_eq!(&payload[5..], &[0, 0, 0, 2, 0x65, 0x88]);
        }
        _ => panic!("expected video tag"),
    }
}

#[test]
fn mux_sequence_headers() {
    let mut mux = make_mux();
    let tags = mux.process(avcc_header());
    match &tags[0] {
        FlvTag::Video { timestamp, payload, is_keyframe } => {
            assert_eq!(*timestamp, 0);
            assert!(*is_keyframe);
            assert_eq!(&payload[..], &[0x17, 0, 0, 0, 0, 0x01, 0x64, 0x00, 0x2C, 0xFF, 0xE1]);
        }
        _ => panic!("expected video tag"),
    }
    assert!(tags[0].is_sequence_header());

    let mut audio = EncodedPacket::new_audio(Bytes::from_static(&[0x12, 0x10]), 0, 1);
    audio.is_sequence_header = true;
    let tags = mux.process(audio);
    assert!(tags[0].is_sequence_header());
    assert_eq!(tags[0].payload_size(), 4);
}

#[test]
fn mux_clamps_times() {
    let mut mux = make_mux();
    let mut pkt = keyframe();
    pkt.pts_ms = Some(i64::MAX);
    pkt.dts_ms = Some(-5);
    match &mux.mux_video(&pkt)[0] {
        FlvTag::Video { timestamp, payload, .. } => {
            assert_eq!(*timestamp, 0);
            assert_eq!(&payload[2..5], &[0xFF, 0xFF, 0xFF]);
        }
        _ => panic!("expected video tag"),
    }
    pkt.dts_ms = Some(i64::MAX);
    pkt.pts_ms = Some(3);
    match &mux.mux_video(&pkt)[0] {
        FlvTag::Video { timestamp, payload, .. } => {
            assert_eq!(*timestamp, u32::MAX);
            assert_eq!(&payload[2..5], &[0, 0, 0]);
        }
        _ => panic!("expected video tag"),
    }
}

#[test]
fn mux_h265_and_inter_frames() {
    let mut mux = make_mux();
    let mut pkt = keyframe();
    pkt.codec = Codec::H265;
    pkt.is_keyframe = false;
    let tags = mux.process(pkt);
    match &tags[0] {
        FlvTag::Video { payload, is_keyframe, .. } => {
            assert_eq!(payload[0], 0x2C);
            assert!(!is_keyframe);
        }
        _ => panic!("expected video tag"),
    }
    assert!(!tags[0].is_sequence_header());
    assert_eq!(mux.name(), "flv-mux");
    assert_eq!(mux.stream_id(), "test");
}

#[test]
fn pts_is_timestamp_plus_composition() {
    let mut mux = make_mux();
    for (pts, dts) in [(1000, 900), (40, 0), (70_000, 4465)] {
        let mut pkt = keyframe();
        pkt.pts_ms = Some(pts);
        pkt.dts_ms = Some(dts);
        match &mux.mux_video(&pkt)[0] {
            FlvTag::Video { timestamp, payload, .. } => {
                let composition = u32::from_be_bytes([0, payload[2], payload[3], payload[4]]);
                assert_eq!(*timestamp as i64 + composition as i64, pts);
            }
            _ => panic!("expected video tag"),
        }
    }
}

#[test]
fn tags_as_packets() {
    let video = FlvTag::video(1500, Bytes::from_static(&[0x17, 1, 0, 0, 0]));
    assert!(video.is_keyframe());
    assert_eq!(video.byte_size(), 5);
    assert_eq!(video.timestamp(), Some(Duration::from_millis(1500)));
    assert!(video.codec_params().is_empty());
    // The enhanced form keeps the frame type in the same bits.
    assert!(FlvTag::video(0, Bytes::from_static(&[0x90])).is_keyframe());
    assert!(!FlvTag::video(0, Bytes::from_static(&[0x27])).is_keyframe());
    assert!(!FlvTag::video(0, Bytes::new()).is_keyframe());
    let audio = FlvTag::audio(20, Bytes::from_static(&[0xAF, 1]));
    assert!(!audio.is_keyframe());
    assert_eq!(audio.clone().timestamp(), Some(Duration::from_millis(20)));
    let script = FlvTag::script_data(StreamMetadata::new());
    assert_eq!(script.payload_size(), 0);
    assert_eq!(script.timestamp(), None);
    assert!(script.clone().is_sequence_header());
}

#[test]
fn sequence_headers_are_recognized() {
    assert!(FlvTag::audio(0, Bytes::from_static(&[0xAF, 0])).is_sequence_header());
    assert!(!FlvTag::audio(0, Bytes::from_static(&[0xAF])).is_sequence_header());
    assert!(!FlvTag::audio(0, Bytes::from_static(&[0x2F, 0])).is_sequence_header());
    assert!(FlvTag::video(0, Bytes::from_static(&[0x17, 0])).is_sequence_header());
    assert!(FlvTag::video(0, Bytes::from_static(&[0x1C, 0])).is_sequence_header());
    assert!(!FlvTag::video(0, Bytes::from_static(&[0x12, 0])).is_sequence_header());
    assert!(!FlvTag::video(0, Bytes::from_static(&[0x17])).is_sequence_header());
    assert!(!FlvTag::video(0, Bytes::new()).is_sequence_header());
    // Enhanced form: the low nibble is the packet type.
    assert!(FlvTag::video(0, Bytes::from_static(&[0x90, 9])).is_sequence_header());
    assert!(!FlvTag::video(0, Bytes::from_static(&[0x91, 0])).is_sequence_header());
}

#[test]
fn u24_is_big_endian() {
    let mut buf = BytesMut::new();
    put_u24(&mut buf, 0xFF12_3456);
    assert_eq!(&buf[..], &[0x12, 0x34, 0x56]);
}

fn script_payload(values: Vec<Amf0Value>) -> Bytes {
    Bytes::from(serialize(&values).unwrap())
}

#[test]
fn script_data_gives_metadata() {
    let mut properties = HashMap::new();
    properties.insert("width".to_string(), Amf0Value::Number(1920.0));
    properties.insert("height".to_string(), Amf0Value::Number(1080.0));
    properties.insert("stereo".to_string(), Amf0Value::Boolean(true));
    properties.insert("encoder".to_string(), Amf0Value::Utf8String("obs".to_string()));
    properties.insert("unknown".to_string(), Amf0Value::Null);
    let payload = script_payload(vec![
        Amf0Value::Utf8String("onMetaData".to_string()),
        Amf0Value::Object(properties),
    ]);
    let metadata = parse_script_data_metadata(payload).unwrap();
    assert_eq!(metadata.video_width, Some(1920));
    assert_eq!(metadata.video_height, Some(1080));
    assert_eq!(metadata.audio_is_stereo, Some(true));
    assert_eq!(metadata.encoder, Some("obs".to_string()));
    assert_eq!(metadata.video_codec_id, None);
    let tag = FlvTag::script_data(metadata).clone();
    match tag {
        FlvTag::ScriptData(m) => assert_eq!(m.video_width, Some(1920)),
        _ => panic!("expected script data"),
    }
}

#[test]
fn script_data_without_an_object_is_empty_metadata() {
    let payload = script_payload(vec![
        Amf0Value::Utf8String("onMetaData".to_string()),
        Amf0Value::Number(1.0),
    ]);
    let metadata = parse_script_data_metadata(payload).unwrap();
    assert_eq!(metadata.video_width, None);
}

#[test]
fn script_data_errors() {
    let bad = Bytes::from_static(&[0x77]);
    assert_eq!(parse_script_data_metadata(bad).err(), Some(ScriptDataError::Undecodable));
    assert_eq!(
        parse_script_data_metadata(Bytes::new()).err(),
        Some(ScriptDataError::MissingValues)
    );
    let other = script_payload(vec![
        Amf0Value::Utf8String("onCuePoint".to_string()),
        Amf0Value::Null,
    ]);
    assert_eq!(parse_script_data_metadata(other).err(), Some(ScriptDataError::NotMetadata));
    let unnamed = script_payload(vec![Amf0Value::Number(1.0), Amf0Value::Null]);
    assert_eq!(parse_script_data_metadata(unnamed).err(), Some(ScriptDataError::NotMetadata));
    assert_eq!(
        ScriptDataError::MissingValues.message(),
        "ScriptData payload is missing required AMF values"
    );
    assert_eq!(ScriptDataError::NotMetadata.message(), "ScriptData event is not onMetaData");
    assert_eq!(ScriptDataError::Undecodable.message(), "ScriptData payload is not AMF0");
}

/// A metadata event whose value lies `depth` containers deep.
fn nested_payload(depth: usize, open: &[u8], close: &[u8]) -> Bytes {
    let name = script_payload(vec![Amf0Value::Utf8String("onMetaData".to_string())]);
    let mut payload = name.to_vec();
    for _ in 0..depth {
        payload.extend_from_slice(open);
    }
    payload.push(5);
    for _ in 0..depth {
        payload.extend_from_slice(close);
    }
    Bytes::from(payload)
}

#[test]
fn nesting_is_limited() {
    let object: (&[u8], &[u8]) = (&[3, 0, 1, b'a'], &[0, 0, 9]);
    let array: (&[u8], &[u8]) = (&[10, 0, 0, 0, 1], &[]);
    for (open, close) in [object, array] {
        let deep = nested_payload(MAX_NESTING, open, close);
        assert!(is_nested_within_limit(&deep));
        assert!(matches!(checked_script_data_metadata(deep.clone()), Some(Ok(_))));
        assert!(parse_script_data_metadata(deep).is_ok());
        for depth in [MAX_NESTING + 1, 100_000] {
            let deeper = nested_payload(depth, open, close);
            assert!(!is_nested_within_limit(&deeper));
            assert!(checked_script_data_metadata(deeper).is_none());
        }
    }
    // Values beside each other do not nest.
    let mut flat = vec![10, 0, 0, 4, 0];
    for _ in 0..1024 {
        flat.extend_from_slice(&[3, 0, 1, b'k', 1, 1, 0, 0, 9]);
    }
    assert!(is_nested_within_limit(&flat));
    // What is refused by its contents is told apart from what nests too deep.
    let bad = checked_script_data_metadata(Bytes::from_static(&[0x77]));
    assert_eq!(bad.and_then(|parsed| parsed.err()), Some(ScriptDataError::Undecodable));
}

#[test]
fn maps_both_streams() {
    let mapping = FlvStreamMapping::from_streams(&make_streams());
    assert_eq!(mapping.audio, Some((1, Rational { num: 1, den: 44100 })));
    assert_eq!(mapping.video, Some((0, Rational { num: 1, den: 90000 })));
}

#[test]
fn empty_collection_yields_none() {
    let streams = StaticStreamCollection::from_owned_params(vec![]);
    let mapping = FlvStreamMapping::from_streams(&streams);
    assert!(mapping.audio.is_none());
    assert!(mapping.video.is_none());
}

#[test]
fn audio_only_yields_none_video() {
    let streams = StaticStreamCollection::from_owned_params(vec![(
        1,
        Rational { num: 1, den: 44100 },
        audio_params(),
    )]);
    let mapping = FlvStreamMapping::from_streams(&streams);
    assert!(mapping.video.is_none());
    assert_eq!(mapping.audio, Some((1, Rational { num: 1, den: 44100 })));
}

#[test]
fn packetize_undoes_muxing() {
    let mut mux = make_mux();
    let mut packetizer = FlvTagPacketizer::new();
    let streams = make_streams();

    let header = mux.process(avcc_header());
    match packetizer.packetize(&header[0], &streams) {
        Ok(PacketizeStep::CreateFilter(record)) => {
            assert_eq!(record, vec![0x01, 0x64, 0x00, 0x2C, 0xFF, 0xE1]);
        }
        other => panic!("{:?}", other),
    }
    assert_eq!(
        packetizer.video_extradata(),
        Some(&[0x01, 0x64, 0x00, 0x2C, 0xFF, 0xE1][..])
    );

    let frame = mux.process(keyframe());
    // The filter was asked for, but is not in place yet.
    assert_eq!(
        packetizer.packetize(&frame[0], &streams).err(),
        Some(PacketizeError::MissingVideoHeader)
    );
    packetizer.filter_created();
    match packetizer.packetize(&frame[0], &streams) {
        Ok(PacketizeStep::Filter(plan)) => {
            assert_eq!(plan.payload, vec![0, 0, 0, 2, 0x65, 0x88]);
            assert_eq!(plan.timestamp_ms, 900);
            assert_eq!(plan.time_base, Rational { num: 1, den: 90000 });
            assert_eq!(plan.stream_index, 0);
            assert!(plan.is_keyframe);
        }
        other => panic!("{:?}", other),
    }
}

#[test]
fn packetize_aac() {
    let mut packetizer = FlvTagPacketizer::default();
    let streams = make_streams();
    let frame = FlvTag::audio(40, Bytes::from_static(&[0xAF, 1, 0x21, 0x22]));
    assert_eq!(
        packetizer.packetize(&frame, &streams).err(),
        Some(PacketizeError::MissingAudioHeader)
    );
    let header = FlvTag::audio(0, Bytes::from_static(&[0xAF, 0, 0x12, 0x10]));
    assert!(matches!(packetizer.packetize(&header, &streams), Ok(PacketizeStep::Nothing)));
    assert_eq!(packetizer.audio_extradata(), Some(&[0x12, 0x10][..]));
    match packetizer.packetize(&frame, &streams) {
        Ok(PacketizeStep::Emit(plan)) => {
            assert_eq!(plan.payload, vec![0x21, 0x22]);
            assert_eq!(plan.timestamp_ms, 40);
            assert_eq!(plan.time_base, Rational { num: 1, den: 44100 });
            assert_eq!(plan.stream_index, 1);
            assert!(!plan.is_keyframe);
        }
        other => panic!("{:?}", other),
    }
    // Other sound formats go out behind their first byte.
    let mp3 = FlvTag::audio(5, Bytes::from_static(&[0x2F, 0xFF, 0xFB]));
    match packetizer.packetize(&mp3, &streams) {
        Ok(PacketizeStep::Emit(plan)) => assert_eq!(plan.payload, vec![0xFF, 0xFB]),
        other => panic!("{:?}", other),
    }
}

fn failure(payload: &'static [u8], video: bool) -> PacketizeError {
    let tag = if video {
        FlvTag::video(0, Bytes::from_static(payload))
    } else {
        FlvTag::audio(0, Bytes::from_static(payload))
    };
    FlvTagPacketizer::new().packetize(&tag, &make_streams()).err().unwrap()
}

#[test]
fn packetize_errors() {
    assert_eq!(failure(&[0x17, 1, 0, 0], true), PacketizeError::VideoPayloadSize(4));
    assert_eq!(failure(&[0x1C, 1, 0, 0, 0], true), PacketizeError::VideoCodec(12));
    assert_eq!(failure(&[0x17, 3, 0, 0, 0], true), PacketizeError::VideoPacketType(3));
    assert_eq!(failure(&[0x17, 1, 0, 0, 0], true), PacketizeError::MissingVideoHeader);
    assert_eq!(failure(&[0xAF], false), PacketizeError::AudioPayloadSize(1));
    assert_eq!(failure(&[0xAF, 2], false), PacketizeError::AacPacketType(2));
    assert_eq!(failure(&[0xAF, 0, 0x12], false), PacketizeError::AudioConfigSize(1));
    assert_eq!(failure(&[0xAF, 0, 0x07, 0x10], false), PacketizeError::AudioObjectType);

    let none = StaticStreamCollection::from_owned_params(vec![]);
    let frame = FlvTag::video(0, Bytes::from_static(&[0x17, 1, 0, 0, 0]));
    assert_eq!(
        FlvTagPacketizer::new().packetize(&frame, &none).err(),
        Some(PacketizeError::NoVideoStream)
    );
    let mp3 = FlvTag::audio(0, Bytes::from_static(&[0x2F, 0xFF]));
    assert_eq!(
        FlvTagPacketizer::new().packetize(&mp3, &none).err(),
        Some(PacketizeError::NoAudioStream)
    );
    // The end of the sequence and script data give nothing.
    let end = FlvTag::video(0, Bytes::from_static(&[0x17, 2, 0, 0, 0]));
    assert!(matches!(
        FlvTagPacketizer::new().packetize(&end, &none),
        Ok(PacketizeStep::Nothing)
    ));
    let script = FlvTag::script_data(StreamMetadata::new());
    assert!(matches!(
        FlvTagPacketizer::new().packetize(&script, &none),
        Ok(PacketizeStep::Nothing)
    ));
}

#[test]
fn packetize_error_texts() {
    assert_eq!(
        PacketizeError::VideoPayloadSize(4).message(),
        "Invalid FLV video payload size: 4"
    );
    assert_eq!(PacketizeError::VideoCodec(12).message(), "Unsupported FLV video codec id: 12");
    assert_eq!(PacketizeError::VideoPacketType(3).message(), "Unsupported AVC packet type: 3");
    assert_eq!(
        PacketizeError::MissingVideoHeader.message(),
        "AVC sequence header missing before video frame"
    );
    assert_eq!(
        PacketizeError::AudioConfigSize(1).message(),
        "AAC AudioSpecificConfig too short: 1"
    );
    assert_eq!(PacketizeError::AudioObjectType.message(), "Invalid AAC audio object type: 0");
}

#[test]
fn audio_config_is_checked() {
    assert_eq!(validate_aac_audio_config(&[0x12, 0x10]), Ok(()));
    assert_eq!(validate_aac_audio_config(&[]), Err(PacketizeError::AudioConfigSize(0)));
    assert_eq!(validate_aac_audio_config(&[0x07, 0xFF]), Err(PacketizeError::AudioObjectType));
}

#[test]
fn sink_serves_http_flv() {
    let sink = FlvSink::new("cam-1");
    assert_eq!(sink.live_id(), "cam-1");
    assert_eq!(sink.protocol(), Protocol::HttpFlv);
    assert_eq!(sink.name(), "flv-sink");
}
