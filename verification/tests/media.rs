//! Codec numbers, packet conversion, streams, statuses and the RTP input.
use bytes::Bytes;
use livestream::codec::packet::EncodedPacket;
use livestream::media::ids::{
    codec_id_to_codec, codec_to_av_codec_id, flv_audio_codec_id_to_av, flv_video_codec_id_to_av,
    AvCodec, NativeCodecIds, UnsupportedCodecId,
};
use livestream::media::packet::{PacketFields, NO_TIMESTAMP};
use livestream::media::resources::{
    after_demux_step, after_segment_step, demux_options, first_demux_step, first_segment_step,
    released_on_drop, released_on_failure, segment_released_on_failure, DemuxProgress, DemuxStep,
    Resource, SegmentProgress, SegmentStep,
};
use livestream::media::rtp_buffer::{ReadReply, RtpBuf, SdpState};
use livestream::media::status::{
    check_status, log_level, log_line, native_log_level, read_outcome, receive_outcome, LogLevel,
    NativeLogLevels, PauseCodes, ReadError,
};
use livestream::media::stream::{
    codec_media_type, find_stream, first_of_type, iter_streams, padded_size, Rational,
    StaticStreamCollection, StreamParameters,
};
use livestream::types::{Codec, CodecParams, MediaType};

fn native() -> NativeCodecIds {
    NativeCodecIds {
        h264: 27,
        hevc: 173,
        aac: 86018,
        mp3: 86017,
        pcm_alaw: 65543,
        pcm_mulaw: 65542,
    }
}

fn video_params() -> StreamParameters {
    StreamParameters {
        media_type: MediaType::Video,
        codec: AvCodec::H264,
        sample_rate: None,
        extradata: None,
    }
}

fn audio_params() -> StreamParameters {
    StreamParameters {
        media_type: MediaType::Audio,
        codec: AvCodec::Aac,
        sample_rate: Some(44100),
        extradata: None,
    }
}

#[test]
fn flv_video_mappings() {
    assert_eq!(flv_video_codec_id_to_av(7, &native()).unwrap(), AvCodec::H264);
    assert_eq!(flv_video_codec_id_to_av(12, &native()).unwrap(), AvCodec::Hevc);
}

#[test]
fn flv_audio_mappings() {
    assert_eq!(flv_audio_codec_id_to_av(10, &native()).unwrap(), AvCodec::Aac);
    assert_eq!(flv_audio_codec_id_to_av(2, &native()).unwrap(), AvCodec::Mp3);
}

#[test]
fn native_numbers_are_understood() {
    assert_eq!(flv_video_codec_id_to_av(27, &native()), Ok(AvCodec::H264));
    assert_eq!(flv_video_codec_id_to_av(173, &native()), Ok(AvCodec::Hevc));
    assert_eq!(
        flv_video_codec_id_to_av(4, &native()),
        Err(UnsupportedCodecId::Video(4))
    );
    assert_eq!(flv_audio_codec_id_to_av(14, &native()), Ok(AvCodec::Mp3));
    assert_eq!(flv_audio_codec_id_to_av(7, &native()), Ok(AvCodec::PcmAlaw));
    assert_eq!(flv_audio_codec_id_to_av(8, &native()), Ok(AvCodec::PcmMulaw));
    assert_eq!(flv_audio_codec_id_to_av(86018, &native()), Ok(AvCodec::Aac));
    assert_eq!(flv_audio_codec_id_to_av(86017, &native()), Ok(AvCodec::Mp3));
    assert_eq!(flv_audio_codec_id_to_av(65543, &native()), Ok(AvCodec::PcmAlaw));
    assert_eq!(flv_audio_codec_id_to_av(65542, &native()), Ok(AvCodec::PcmMulaw));
    assert_eq!(
        flv_audio_codec_id_to_av(11, &native()),
        Err(UnsupportedCodecId::Audio(11))
    );
    assert_eq!(UnsupportedCodecId::Video(4).message(), "Unsupported FLV video codec id: 4");
    assert_eq!(UnsupportedCodecId::Audio(11).message(), "Unsupported FLV audio codec id: 11");
}

#[test]
fn codec_numbers_roundtrip() {
    for codec in [
        Codec::H264,
        Codec::H265,
        Codec::Aac,
        Codec::Mp3,
        Codec::Opus,
        Codec::Av1,
        Codec::Mjpeg,
    ] {
        assert_eq!(codec_id_to_codec(Some(codec_to_av_codec_id(codec))), codec);
    }
    assert_eq!(codec_id_to_codec(None), Codec::H264);
    assert_eq!(codec_id_to_codec(Some(AvCodec::PcmAlaw)), Codec::H264);
}

#[test]
fn video_keyframe_roundtrip() {
    let data: &[u8] = &[0x00, 0x00, 0x01, 0x67, 0x42];
    let pkt = EncodedPacket::new_video_keyframe(Bytes::copy_from_slice(data), 1000, 900, 0);

    let av_pkt = pkt.to_av_packet();
    assert_eq!(av_pkt.pts(), Some(1000));
    assert_eq!(av_pkt.dts(), Some(900));
    assert!(av_pkt.is_key_frame());

    let roundtripped = EncodedPacket::from_av_packet(&av_pkt, Codec::H264);
    assert_eq!(roundtripped.pts_ms, Some(1000));
    assert_eq!(roundtripped.dts_ms, Some(900));
    assert!(roundtripped.is_keyframe);
    assert_eq!(roundtripped.data.as_bytes(), data);
}

#[test]
fn audio_roundtrip() {
    let data: &[u8] = &[0xff, 0xf1, 0x50, 0x80];
    let pkt = EncodedPacket::new_audio(Bytes::copy_from_slice(data), 500, 1);

    let av_pkt = pkt.to_av_packet();
    let roundtripped = EncodedPacket::from_av_packet(&av_pkt, Codec::Aac);

    assert_eq!(roundtripped.codec, Codec::Aac);
    assert_eq!(roundtripped.pts_ms, Some(500));
    assert!(!roundtripped.is_keyframe);
    // A missing DTS becomes the PTS.
    assert_eq!(roundtripped.dts_ms, Some(500));
    assert_eq!(roundtripped.stream_index, 1);
}

#[test]
fn av_nopts_roundtrip() {
    let data: &[u8] = &[0x00];
    let mut pkt = EncodedPacket::new_video_keyframe(Bytes::copy_from_slice(data), 0, 0, 0);
    pkt.pts_ms = None;
    pkt.dts_ms = None;

    let av_pkt = pkt.to_av_packet();
    let roundtripped = EncodedPacket::from_av_packet(&av_pkt, Codec::H264);

    // DTS falls back to PTS (None), then to 0.
    assert_eq!(roundtripped.pts_ms, None);
    assert_eq!(roundtripped.dts_ms, Some(0));
}

#[test]
fn packet_without_times() {
    let fields = PacketFields {
        data: Bytes::from_static(&[1]),
        pts: NO_TIMESTAMP,
        dts: 7,
        stream_index: 2,
        key_frame: false,
    };
    assert_eq!(fields.pts(), None);
    assert_eq!(fields.dts(), Some(7));
    assert!(!fields.is_key_frame());
}

#[test]
fn from_owned_params_constructs() {
    let streams = vec![
        (0, Rational { num: 1, den: 90000 }, video_params()),
        (1, Rational { num: 1, den: 44100 }, audio_params()),
    ];
    let coll = StaticStreamCollection::from_owned_params(streams);

    assert_eq!(coll.stream_count(), 2);
    assert_eq!(coll.time_base(0), Some(Rational { num: 1, den: 90000 }));
    assert_eq!(coll.time_base(1), Some(Rational { num: 1, den: 44100 }));
    assert_eq!(coll.time_base(2), None);
    assert!(coll.stream(2).is_none());
}

#[test]
fn from_streams_copies() {
    let original = StaticStreamCollection::from_owned_params(vec![(
        0,
        Rational { num: 1, den: 1000 },
        video_params(),
    )]);

    let copied = StaticStreamCollection::from_streams(&original);
    assert_eq!(copied.stream_count(), 1);
    assert_eq!(copied.stream(0).unwrap().codec_params.codec, AvCodec::H264);
}

#[test]
fn iteration_yields_all_streams() {
    let coll = StaticStreamCollection::from_owned_params(vec![(
        0,
        Rational { num: 1, den: 90000 },
        video_params(),
    )]);

    let count = iter_streams(&coll).len();
    assert_eq!(count, 1);
}

#[test]
fn streams_from_codec_params() {
    let params = [
        CodecParams::new_video(Codec::H264, 90000, Some(Bytes::from_static(&[1, 2]))),
        CodecParams::new_audio(Codec::Aac, 48000, None),
    ];
    let coll = StaticStreamCollection::from_codec_params(&params);
    assert_eq!(coll.len(), 2);
    assert!(!coll.is_empty());
    let video = coll.stream(0).unwrap();
    assert_eq!(video.index, 0);
    assert_eq!(video.time_base, Rational { num: 1, den: 90000 });
    assert_eq!(video.codec_params.sample_rate, None);
    assert_eq!(video.codec_params.extradata, Some(Bytes::from_static(&[1, 2])));
    let audio = coll.stream(1).unwrap();
    assert_eq!(audio.time_base, Rational { num: 1, den: 48000 });
    assert_eq!(audio.codec_params.codec, AvCodec::Aac);
    assert_eq!(audio.codec_params.sample_rate, Some(48000));
    assert_eq!(find_stream(&coll, MediaType::Audio), Some(1));
    assert_eq!(find_stream(&coll, MediaType::Video), Some(0));
}

#[test]
fn streams_by_type() {
    let types = [None, Some(MediaType::Audio), Some(MediaType::Video), Some(MediaType::Audio)];
    assert_eq!(first_of_type(&types, MediaType::Audio), Some(1));
    assert_eq!(first_of_type(&types, MediaType::Video), Some(2));
    assert_eq!(first_of_type(&types[..1], MediaType::Video), None);
    assert_eq!(codec_media_type(Codec::Mjpeg), MediaType::Video);
    assert_eq!(codec_media_type(Codec::Opus), MediaType::Audio);
}

#[test]
fn extradata_size_is_checked() {
    assert_eq!(padded_size(10, 64), Some(74));
    assert_eq!(padded_size(usize::MAX, 64), None);
}

const PAUSE: PauseCodes = PauseCodes { again: -11, eof: -541478725 };

#[test]
fn statuses() {
    assert_eq!(check_status(0), Ok(()));
    assert_eq!(check_status(-22), Err(-22));
    assert_eq!(receive_outcome(0, PAUSE), Ok(true));
    assert_eq!(receive_outcome(-11, PAUSE), Ok(false));
    assert_eq!(receive_outcome(-541478725, PAUSE), Ok(false));
    assert_eq!(receive_outcome(-22, PAUSE), Err(-22));
}

#[test]
fn frames_must_name_a_stream() {
    assert_eq!(read_outcome(0, PAUSE, 1, 2), Ok(Some(1)));
    assert_eq!(read_outcome(-11, PAUSE, 9, 2), Ok(None));
    assert_eq!(read_outcome(-5, PAUSE, 0, 2), Err(ReadError::Failed(-5)));
    assert_eq!(
        read_outcome(0, PAUSE, 2, 2),
        Err(ReadError::NoSuchStream { stream_index: 2, stream_count: 2 })
    );
    assert_eq!(
        read_outcome(0, PAUSE, -1, 2),
        Err(ReadError::NoSuchStream { stream_index: -1, stream_count: 2 })
    );
}

#[test]
fn log_levels() {
    let native = NativeLogLevels {
        panic: 0,
        fatal: 8,
        error: 16,
        warning: 24,
        info: 32,
        debug: 48,
        trace: 56,
    };
    assert_eq!(log_level(0, native), LogLevel::Error);
    assert_eq!(log_level(8, native), LogLevel::Error);
    assert_eq!(log_level(24, native), LogLevel::Warn);
    assert_eq!(log_level(40, native), LogLevel::Info);
    assert_eq!(log_level(56, native), LogLevel::Trace);
    assert_eq!(native_log_level(LogLevel::Debug, native), 48);
    assert_eq!(native_log_level(LogLevel::Error, native), 16);
    assert_eq!(log_line("frame= 1 \r\n"), Some("frame= 1".to_string()));
    assert_eq!(log_line(" \n"), None);
}

#[test]
fn feed() {
    let mut buf = RtpBuf::new();
    assert!(buf.is_empty());
    buf.feed(&[0x80, 0x60, 0, 1, 0, 0, 0, 0, 0, 0, 0, 0]);
    assert!(!buf.is_empty());
}

fn data(reply: ReadReply) -> Vec<u8> {
    match reply {
        ReadReply::Data(d) => d,
        other => panic!("{:?}", other),
    }
}

#[test]
fn second_feed_doubles_the_first_packet() {
    let mut buf = RtpBuf::new();
    buf.feed(&[1, 1]);
    buf.feed(&[2, 2]);
    buf.feed(&[3, 3]);
    assert_eq!(data(buf.read(16)), vec![1, 1]);
    assert_eq!(data(buf.read(16)), vec![1, 1]);
    assert_eq!(data(buf.read(16)), vec![2, 2]);
    assert_eq!(data(buf.read(16)), vec![3, 3]);
    assert!(matches!(buf.read(16), ReadReply::Again));
}

#[test]
fn reads_continue_within_a_packet() {
    let mut buf = RtpBuf::new();
    buf.feed(&[1, 2, 3, 4, 5]);
    assert!(matches!(buf.read(0), ReadReply::Invalid));
    assert!(matches!(buf.read(-1), ReadReply::Invalid));
    assert_eq!(data(buf.read(2)), vec![1, 2]);
    // The packet being read is not queued any more, so this one is the first.
    buf.feed(&[9]);
    assert_eq!(data(buf.read(2)), vec![3, 4]);
    assert_eq!(data(buf.read(2)), vec![5]);
    assert_eq!(data(buf.read(2)), vec![9]);
}

#[test]
fn oldest_packets_make_room() {
    let mut buf = RtpBuf::new();
    let big = vec![7u8; 600_000];
    buf.feed(&big);
    buf.feed(&[8u8; 600_000]);
    // The cap is one mebibyte: the first packet and its double had to leave.
    let first = data(buf.read(i32::MAX));
    assert_eq!(first.len(), 600_000);
    assert_eq!(first[0], 8);
    assert!(buf.is_empty());
}

#[test]
fn session_description_is_read_in_pieces() {
    let mut sdp = SdpState::new("v=0\r\n");
    assert!(matches!(sdp.read(0), ReadReply::Invalid));
    assert_eq!(data(sdp.read(3)), b"v=0".to_vec());
    assert_eq!(data(sdp.read(3)), b"\r\n".to_vec());
    assert_eq!(data(sdp.read(3)), Vec::<u8>::new());
}

#[test]
fn failures_release_what_is_held() {
    assert_eq!(released_on_failure(DemuxStep::AllocSdpBuffer), vec![Resource::SdpState]);
    assert_eq!(
        released_on_failure(DemuxStep::AllocSdpIo),
        vec![Resource::SdpBuffer, Resource::SdpState]
    );
    assert_eq!(released_on_failure(DemuxStep::AllocFormatContext), vec![Resource::SdpIo]);
    assert_eq!(
        released_on_failure(DemuxStep::FindInputFormat),
        vec![Resource::FormatContext, Resource::SdpIo]
    );
    assert_eq!(released_on_failure(DemuxStep::OpenInput), vec![Resource::SdpIo]);
    assert_eq!(
        released_on_failure(DemuxStep::AllocRtpBuffer),
        vec![Resource::RtpQueue, Resource::FormatContext]
    );
    assert_eq!(
        released_on_failure(DemuxStep::AllocRtpIo),
        vec![Resource::RtpBuffer, Resource::RtpQueue, Resource::FormatContext]
    );
    assert_eq!(released_on_drop(), vec![Resource::FormatContext, Resource::RtpIo]);
    assert_eq!(segment_released_on_failure(SegmentStep::AllocFormatContext), vec![]);
    assert_eq!(
        segment_released_on_failure(SegmentStep::AllocBuffer),
        vec![Resource::FormatContext]
    );
    assert_eq!(
        segment_released_on_failure(SegmentStep::AllocIo),
        vec![Resource::SegmentBuffer, Resource::FormatContext]
    );
}

#[test]
fn demuxer_opens_in_order() {
    let mut step = first_demux_step();
    let mut steps = vec![step];
    let mut released = Vec::new();
    while let DemuxProgress::Continue { release, next } = after_demux_step(step, true) {
        released.extend(release);
        steps.push(next);
        step = next;
    }
    assert_eq!(
        steps,
        vec![
            DemuxStep::AllocSdpBuffer,
            DemuxStep::AllocSdpIo,
            DemuxStep::AllocFormatContext,
            DemuxStep::FindInputFormat,
            DemuxStep::OpenInput,
            DemuxStep::AllocRtpBuffer,
            DemuxStep::AllocRtpIo
        ]
    );
    assert_eq!(released, vec![Resource::SdpIo]);
    assert!(matches!(after_demux_step(step, true), DemuxProgress::Opened));
    assert!(matches!(
        after_demux_step(DemuxStep::OpenInput, false),
        DemuxProgress::Abandon(r) if r == vec![Resource::SdpIo]
    ));
}

#[test]
fn segment_output_opens_in_order() {
    let mut step = first_segment_step();
    let mut steps = vec![step];
    while let SegmentProgress::Continue(next) = after_segment_step(step, true) {
        steps.push(next);
        step = next;
    }
    assert_eq!(
        steps,
        vec![
            SegmentStep::AllocFormatContext,
            SegmentStep::CopyStreams,
            SegmentStep::AllocBuffer,
            SegmentStep::AllocIo
        ]
    );
    assert!(matches!(after_segment_step(step, true), SegmentProgress::Opened));
    for step in steps {
        assert!(matches!(
            after_segment_step(step, false),
            SegmentProgress::Abandon(r) if r == segment_released_on_failure(step)
        ));
    }
}

#[test]
fn demuxer_options() {
    let options = demux_options();
    let pairs: Vec<(&str, &str)> =
        options.iter().map(|o| (o.name.as_str(), o.value.as_str())).collect();
    assert_eq!(
        pairs,
        vec![("sdp_flags", "custom_io"), ("reorder_queue_size", "0"), ("max_delay", "0")]
    );
}

#[test]
fn from_codec_params_h264() {
    let params = CodecParams::new_video(Codec::H264, 90000, None);
    let stream = StreamParameters::from_codec_params(&params);
    assert_eq!(stream.media_type, MediaType::Video);
    assert_eq!(stream.codec, AvCodec::H264);
    assert_eq!(stream.sample_rate, None);
}

#[test]
fn from_codec_params_aac() {
    let params = CodecParams::new_audio(Codec::Aac, 44100, None);
    let stream = StreamParameters::from_codec_params(&params);
    assert_eq!(stream.media_type, MediaType::Audio);
    assert_eq!(stream.codec, AvCodec::Aac);
    assert_eq!(stream.sample_rate, Some(44100));
}

#[test]
fn from_codec_params_with_extradata() {
    let extradata = Bytes::from_static(&[0x01, 0x02, 0x03]);
    let params = CodecParams::new_video(Codec::H264, 90000, Some(extradata.clone()));
    let stream = StreamParameters::from_codec_params(&params);
    assert_eq!(stream.extradata, Some(extradata));
}

#[test]
fn flags_and_fields() {
    let pkt = PacketFields {
        data: Bytes::new(),
        pts: 42,
        dts: 40,
        stream_index: 0,
        key_frame: true,
    };
    assert_eq!(pkt.stream_index, 0);
    assert_eq!(pkt.pts(), Some(42));
    assert_eq!(pkt.dts(), Some(40));
    assert!(pkt.is_key_frame());
}

#[test]
fn empty_packet_has_no_pts() {
    let pkt = PacketFields {
        data: Bytes::new(),
        pts: NO_TIMESTAMP,
        dts: NO_TIMESTAMP,
        stream_index: 0,
        key_frame: false,
    };
    assert_eq!(pkt.pts(), None);
    assert_eq!(pkt.dts(), None);
    assert!(pkt.data.is_empty());
}
