//! HLS: names, playlist, segmentation, upload, and the configuration.
use bytes::Bytes;
use livestream::codec::packet::EncodedPacket;
use livestream::config::{
    legacy_env_overrides, AppConfig, Binary64, ConfigError, GrpcConfig, HttpFlvConfig, QueueConfig,
    RtmpConfig, RtspConfig, SegmentConfig, ServiceConfig, StorageConfig, TranscodeConfig,
    TransportConfig,
};
use livestream::hls::flow::{FlowAction, FlowOutcome, SegmentFlow};
use livestream::hls::names::{
    artifacts_dir, cache_root, playlist_filename, segment_dir_prefix, segment_filename, CacheRoot,
};
use livestream::hls::playlist::PlaylistState;
use livestream::hls::segmenter::{HlsSegmenter, SegmentState, WriteStep};
use livestream::sanitize::sanitize_stream_id;
use livestream::time::Duration;
use livestream::traits::Node;
use livestream::types::Protocol;
use livestream::upload::{MinIoSink, UploadAction, UploadAttempts};

fn segment_config(duration_secs: u64, playlist_size: usize) -> SegmentConfig {
    SegmentConfig { duration_secs, playlist_size, ..SegmentConfig::default() }
}

fn app_config() -> AppConfig {
    AppConfig {
        transport: TransportConfig::default(),
        services: ServiceConfig::default(),
        storage: StorageConfig::default(),
        queue: QueueConfig::default(),
        transcode: TranscodeConfig::default(),
    }
}

fn number(x: f64) -> Binary64 {
    Binary64 { bits: x.to_bits() }
}

#[test]
fn keeps_alphanumerics_and_dashes() {
    assert_eq!(sanitize_stream_id("abc-123_XYZ"), "abc-123_XYZ");
}

#[test]
fn neutralizes_path_traversal() {
    assert_eq!(sanitize_stream_id("../../etc/passwd"), "______etc_passwd");
    assert_eq!(sanitize_stream_id("/abs/path"), "_abs_path");
    assert_eq!(sanitize_stream_id(".."), "__");
}

#[test]
fn handles_empty_and_whitespace() {
    assert_eq!(sanitize_stream_id(""), "unnamed");
    assert_eq!(sanitize_stream_id("a b"), "a_b");
}

#[test]
fn truncates_long_ids() {
    assert_eq!(sanitize_stream_id(&"x".repeat(300)).len(), 128);
}

#[test]
fn sanitizes_every_byte_of_a_character() {
    assert_eq!(sanitize_stream_id("\u{e9}"), "__");
    let safe = sanitize_stream_id("a/../b\\c d\u{4e2d}");
    assert!(safe.chars().all(|c| c.is_ascii_alphanumeric() || c == '-' || c == '_'));
}

#[test]
fn segment_names() {
    assert_eq!(segment_filename(0), "segment_0000.ts");
    assert_eq!(segment_filename(42), "segment_0042.ts");
    assert_eq!(segment_filename(9999), "segment_9999.ts");
    assert_eq!(segment_filename(123456), "segment_123456.ts");
    assert_ne!(segment_filename(1), segment_filename(10));
    assert_eq!(segment_dir_prefix("cam"), "livestream-rs-segment-cam-");
    assert_eq!(artifacts_dir(), "livestream-rs-artifacts");
    assert_eq!(playlist_filename(), "index.m3u8");
}

#[test]
fn blank_cache_dir_is_the_system_one() {
    assert!(matches!(cache_root(&SegmentConfig::default()), CacheRoot::SystemTemp));
    let blank = SegmentConfig { cache_dir: " \t".into(), ..SegmentConfig::default() };
    assert!(matches!(cache_root(&blank), CacheRoot::SystemTemp));
    let named = SegmentConfig { cache_dir: "/var/cache".into(), ..SegmentConfig::default() };
    match cache_root(&named) {
        CacheRoot::Directory(d) => assert_eq!(d, "/var/cache"),
        other => panic!("{:?}", other),
    }
}

#[test]
fn playlist_text() {
    let mut playlist = PlaylistState::new(&segment_config(2, 5));
    assert_eq!(
        playlist.render(false),
        "#EXTM3U\n#EXT-X-VERSION:3\n#EXT-X-TARGETDURATION:1\n#EXT-X-MEDIA-SEQUENCE:0\n"
    );
    playlist.push_segment("segment_0000.ts", 2000);
    playlist.push_segment("segment_0001.ts", 3005);
    assert_eq!(
        playlist.render(true),
        "#EXTM3U\n#EXT-X-VERSION:3\n#EXT-X-TARGETDURATION:4\n#EXT-X-MEDIA-SEQUENCE:0\n\
         #EXTINF:2.000,\nsegment_0000.ts\n#EXTINF:3.005,\nsegment_0001.ts\n#EXT-X-ENDLIST\n"
    );
}

#[test]
fn playlist_lists_the_newest() {
    let mut playlist = PlaylistState::new(&segment_config(2, 2));
    for i in 0..5 {
        playlist.push_segment(&segment_filename(i), 1000);
    }
    let text = playlist.render(false);
    assert!(text.contains("#EXT-X-MEDIA-SEQUENCE:3\n"));
    assert!(!text.contains("segment_0002.ts"));
    assert!(text.ends_with("#EXTINF:1.000,\nsegment_0003.ts\n#EXTINF:1.000,\nsegment_0004.ts\n"));
}

#[test]
fn unlimited_playlist_keeps_all() {
    let mut playlist = PlaylistState::new(&segment_config(2, 0));
    for i in 0..12 {
        playlist.push_segment(&segment_filename(i), 1000);
    }
    let text = playlist.render(false);
    assert!(text.contains("#EXT-X-MEDIA-SEQUENCE:0\n"));
    assert_eq!(text.matches("#EXTINF").count(), 12);
}

fn frame(pts_ms: i64, key: bool) -> EncodedPacket {
    let mut pkt = EncodedPacket::new_video_keyframe(Bytes::from_static(&[1]), pts_ms, pts_ms, 0);
    pkt.is_keyframe = key;
    pkt
}

#[test]
fn timestamps_increase() {
    let mut seg = HlsSegmenter::new("cam", &segment_config(2, 5));
    assert_eq!(seg.on_packet(&frame(0, true), 0), WriteStep::Write(1));
    assert_eq!(seg.on_packet(&frame(10, false), 900), WriteStep::Write(900));
    assert_eq!(seg.on_packet(&frame(5, false), 450), WriteStep::Write(901));
    assert_eq!(seg.on_packet(&frame(10, false), 900), WriteStep::Write(902));
    assert_eq!(seg.last_dts(), 902);
    let header = EncodedPacket::new_avc_sequence_header(&[1], &[2], 0);
    assert_eq!(seg.on_packet(&header, 5000), WriteStep::Skip);
    assert_eq!(seg.last_dts(), 902);
}

#[test]
fn segments_end_before_keyframes() {
    let mut seg = HlsSegmenter::new("cam", &segment_config(2, 5));
    // A keyframe cuts nothing off where nothing was muxed yet.
    assert_eq!(seg.cut_before(&frame(5000, true)), None);
    assert_eq!(seg.on_packet(&frame(0, true), 0), WriteStep::Write(1));
    seg.on_muxed();
    assert_eq!(seg.on_packet(&frame(1000, true), 90_000), WriteStep::Write(90_000));
    assert_eq!(seg.on_packet(&frame(2500, false), 225_000), WriteStep::Write(225_000));
    assert_eq!(seg.cut_before(&frame(2600, false)), None);
    assert_eq!(seg.cut_before(&frame(1999, true)), None);
    assert_eq!(seg.cut_before(&frame(2000, true)), Some(2000));
    assert_eq!(seg.cut_before(&frame(-1, true)), None);
    assert_eq!(seg.on_packet(&frame(2600, true), 234_000), WriteStep::CutBefore(2600));
    // The keyframe is not part of the segment that it ends.
    assert_eq!(seg.last_dts(), 225_000);
    assert_eq!(seg.elapsed_or_zero(), 2500);

    let sequence = seg.take_sequence();
    assert_eq!(sequence, 0);
    seg.on_muxer_restarted();
    let segment =
        seg.finish_segment(sequence, "/tmp/segment_0000.ts".to_string(), 2600, Some(2600));
    assert_eq!(segment.filename, "segment_0000.ts");
    assert_eq!(segment.path, "/tmp/segment_0000.ts");
    assert_eq!(segment.duration, Duration::from_millis(2600));
    assert!(!segment.is_final);
    assert_eq!(seg.next_sequence(), 1);
    // It is the first of the next one.
    assert_eq!(seg.take_in(Some(2600), 234_000), 234_000);
    assert_eq!(seg.elapsed_or_zero(), 0);
    let _ = seg.on_packet(&frame(3000, false), 270_000);
    assert_eq!(seg.elapsed_or_zero(), 400);

    let sequence = seg.take_sequence();
    let last = seg.finish_stream(sequence, "/tmp/segment_0001.ts".to_string(), 400);
    assert!(last.is_final);
    assert_eq!(last.filename, "segment_0001.ts");
    let text = seg.render_playlist(true);
    assert!(text.contains("#EXTINF:2.600,\nsegment_0000.ts\n#EXTINF:0.400,\nsegment_0001.ts\n"));
    assert!(text.ends_with("#EXT-X-ENDLIST\n"));
}

#[test]
fn failed_muxer_is_replaced() {
    let mut seg = HlsSegmenter::new("cam", &segment_config(2, 5));
    let _ = seg.on_packet(&frame(0, true), 0);
    let _ = seg.on_packet(&frame(500, false), 45_000);
    seg.on_write_error();
    assert_eq!(seg.elapsed_or_zero(), 0);
    assert_eq!(seg.last_dts(), 0);
    assert_eq!(seg.on_packet(&frame(600, false), 54_000), WriteStep::NoMuxer);
    seg.on_muxer_restarted();
    assert_eq!(seg.on_packet(&frame(700, true), 63_000), WriteStep::Write(63_000));
    assert!(seg.should_process());
    assert_eq!(seg.name(), "hls-segmenter");
    assert_eq!(seg.stream_id(), "cam");
}

/// Feeds a packet whose muxing succeeds, and returns what is asked for then.
fn mux(flow: &mut SegmentFlow, pts_ms: i64, key: bool) -> FlowAction {
    assert!(flow.is_idle());
    match flow.on_packet(&frame(pts_ms, key), pts_ms * 90) {
        FlowAction::Mux(_) => flow.on_outcome(FlowOutcome::Muxed(true)),
        other => panic!("{:?}", other),
    }
}

#[test]
fn rollover_publishes_before_the_keyframe() {
    let mut flow = SegmentFlow::new("cam", &segment_config(2, 5));
    assert!(matches!(mux(&mut flow, 0, true), FlowAction::Wait));
    assert!(matches!(mux(&mut flow, 2500, false), FlowAction::Wait));
    assert!(matches!(flow.on_packet(&frame(2600, true), 234_000), FlowAction::EndMuxer));
    // What was not asked for changes nothing.
    assert!(matches!(flow.on_outcome(FlowOutcome::Muxed(true)), FlowAction::Wait));
    assert!(matches!(flow.on_outcome(FlowOutcome::Published), FlowAction::Wait));
    assert!(matches!(flow.on_outcome(FlowOutcome::MuxerEnded(true)), FlowAction::ReplaceMuxer));
    assert!(matches!(flow.on_outcome(FlowOutcome::MuxerReplaced(true)), FlowAction::Store(0)));
    assert!(!flow.is_idle());
    match flow.on_outcome(FlowOutcome::Stored(Some("/tmp/segment_0000.ts".to_string()))) {
        FlowAction::Publish { segment, playlist } => {
            assert_eq!(segment.filename, "segment_0000.ts");
            assert_eq!(segment.path, "/tmp/segment_0000.ts");
            assert_eq!(segment.duration, Duration::from_millis(2600));
            assert!(!segment.is_final);
            assert!(playlist.ends_with("#EXTINF:2.600,\nsegment_0000.ts\n"));
        }
        other => panic!("{:?}", other),
    }
    assert!(!flow.is_idle());
    assert_eq!(flow.rules().last_dts(), 0);
    assert!(matches!(flow.on_outcome(FlowOutcome::Published), FlowAction::Mux(234_000)));
    assert!(matches!(flow.on_outcome(FlowOutcome::Muxed(true)), FlowAction::Wait));
    assert!(flow.is_idle());

    assert!(matches!(mux(&mut flow, 3000, false), FlowAction::Wait));
    assert!(matches!(flow.on_close(), FlowAction::EndMuxer));
    assert!(matches!(flow.on_outcome(FlowOutcome::MuxerEnded(true)), FlowAction::ReplaceMuxer));
    assert!(matches!(flow.on_outcome(FlowOutcome::MuxerReplaced(true)), FlowAction::Store(1)));
    match flow.on_outcome(FlowOutcome::Stored(Some("/tmp/b".to_string()))) {
        FlowAction::Publish { segment, playlist } => {
            assert!(segment.is_final);
            assert_eq!(segment.duration, Duration::from_millis(400));
            assert!(playlist.ends_with("segment_0001.ts\n#EXT-X-ENDLIST\n"));
        }
        other => panic!("{:?}", other),
    }
    assert!(matches!(flow.on_outcome(FlowOutcome::Published), FlowAction::Wait));
    assert!(flow.is_idle());
}

/// The presentation times and keyframe marks of the packets of each segment that is
/// published, where all work succeeds.
fn record(packets: &[(i64, bool)], duration_secs: u64) -> Vec<Vec<(i64, bool)>> {
    let mut flow = SegmentFlow::new("cam", &segment_config(duration_secs, 5));
    let mut current = Vec::new();
    let mut taken = Vec::new();
    let mut published = Vec::new();
    for step in 0..packets.len() + 1 {
        let mut action = match packets.get(step) {
            Some((pts_ms, key)) => flow.on_packet(&frame(*pts_ms, *key), pts_ms * 90),
            None => flow.on_close(),
        };
        loop {
            let outcome = match action {
                FlowAction::Wait => break,
                FlowAction::Fail => panic!("failed"),
                FlowAction::Mux(_) => {
                    current.push(packets[step]);
                    FlowOutcome::Muxed(true)
                }
                FlowAction::EndMuxer => {
                    taken = current.clone();
                    FlowOutcome::MuxerEnded(true)
                }
                FlowAction::ReplaceMuxer => {
                    current.clear();
                    FlowOutcome::MuxerReplaced(true)
                }
                FlowAction::Store(n) => FlowOutcome::Stored(Some(segment_filename(n))),
                FlowAction::Publish { segment, .. } => {
                    assert_eq!(segment.sequence as usize, published.len());
                    published.push(taken.clone());
                    FlowOutcome::Published
                }
            };
            action = flow.on_outcome(outcome);
        }
        assert!(flow.is_idle());
    }
    published
}

#[test]
fn segments_start_at_keyframes() {
    let packets = [
        (0, true),
        (900, false),
        (1000, true),
        (2500, false),
        (2600, true),
        (2700, false),
        (4700, true),
        (4800, false),
    ];
    let segments = record(&packets, 2);
    assert_eq!(segments.len(), 3);
    assert_eq!(segments[0], packets[0..4]);
    assert_eq!(segments[1], packets[4..6]);
    assert_eq!(segments[2], packets[6..8]);
    // Without a target duration every keyframe begins a segment, and none is empty.
    let segments = record(&packets, 0);
    assert_eq!(segments.len(), 4);
    assert!(segments.iter().all(|s| s[0].1 && s.iter().skip(1).all(|p| !p.1)));
}

#[test]
fn flow_recovers_from_muxer_failures() {
    let mut flow = SegmentFlow::new("cam", &segment_config(2, 5));
    assert!(matches!(flow.on_packet(&frame(0, true), 0), FlowAction::Mux(1)));
    assert!(matches!(flow.on_outcome(FlowOutcome::Muxed(false)), FlowAction::ReplaceMuxer));
    assert!(matches!(flow.on_outcome(FlowOutcome::MuxerReplaced(false)), FlowAction::Wait));
    // Without a muxer the next packet asks for one again.
    assert!(matches!(flow.on_packet(&frame(40, false), 3600), FlowAction::ReplaceMuxer));
    assert!(matches!(flow.on_outcome(FlowOutcome::MuxerReplaced(true)), FlowAction::Wait));
    assert!(matches!(flow.on_packet(&frame(80, false), 7200), FlowAction::Mux(7200)));
}

#[test]
fn flow_reports_failed_rollovers() {
    let failures = [
        vec![FlowOutcome::MuxerEnded(false)],
        vec![FlowOutcome::MuxerEnded(true), FlowOutcome::MuxerReplaced(false)],
        vec![
            FlowOutcome::MuxerEnded(true),
            FlowOutcome::MuxerReplaced(true),
            FlowOutcome::Stored(None),
        ],
    ];
    for outcomes in failures {
        let mut flow = SegmentFlow::new("cam", &segment_config(2, 5));
        let mut action = flow.on_close();
        for outcome in outcomes {
            assert!(!matches!(action, FlowAction::Fail));
            action = flow.on_outcome(outcome);
        }
        assert!(matches!(action, FlowAction::Fail));
        assert!(flow.is_idle());
    }
}

#[test]
fn failed_rollovers_keep_the_keyframe() {
    // The segment cannot be ended: its muxer takes the keyframe.
    let mut flow = SegmentFlow::new("cam", &segment_config(2, 5));
    assert!(matches!(mux(&mut flow, 0, true), FlowAction::Wait));
    assert!(matches!(flow.on_packet(&frame(3000, true), 270_000), FlowAction::EndMuxer));
    assert!(matches!(flow.on_outcome(FlowOutcome::MuxerEnded(false)), FlowAction::Mux(270_000)));
    assert!(matches!(flow.on_outcome(FlowOutcome::Muxed(true)), FlowAction::Fail));
    assert_eq!(flow.rules().elapsed_or_zero(), 3000);

    // The file cannot be stored: the new muxer takes it.
    assert!(matches!(flow.on_packet(&frame(6000, true), 540_000), FlowAction::EndMuxer));
    assert!(matches!(flow.on_outcome(FlowOutcome::MuxerEnded(true)), FlowAction::ReplaceMuxer));
    assert!(matches!(flow.on_outcome(FlowOutcome::MuxerReplaced(true)), FlowAction::Store(0)));
    assert!(matches!(flow.on_outcome(FlowOutcome::Stored(None)), FlowAction::Mux(540_000)));
    assert!(matches!(flow.on_outcome(FlowOutcome::Muxed(false)), FlowAction::ReplaceMuxer));
    assert!(matches!(flow.on_outcome(FlowOutcome::MuxerReplaced(true)), FlowAction::Fail));
    assert!(flow.is_idle());

    // No muxer can be had: the next packet asks for one.
    assert!(matches!(mux(&mut flow, 6100, true), FlowAction::Wait));
    assert!(matches!(flow.on_packet(&frame(9000, true), 810_000), FlowAction::EndMuxer));
    assert!(matches!(flow.on_outcome(FlowOutcome::MuxerEnded(true)), FlowAction::ReplaceMuxer));
    assert!(matches!(flow.on_outcome(FlowOutcome::MuxerReplaced(false)), FlowAction::Fail));
    assert!(matches!(flow.on_packet(&frame(9100, false), 819_000), FlowAction::ReplaceMuxer));
}

#[test]
fn segment_span() {
    let mut state = SegmentState { first_pts: Some(100), last_pts: Some(350) };
    assert_eq!(state.elapsed(), Some(250));
    assert_eq!(SegmentState { first_pts: Some(5), last_pts: Some(5) }.elapsed(), None);
    assert_eq!(SegmentState { first_pts: Some(9), last_pts: Some(5) }.elapsed(), None);
    assert_eq!(SegmentState { first_pts: None, last_pts: Some(5) }.elapsed(), None);
    let widest = SegmentState { first_pts: Some(i64::MIN), last_pts: Some(i64::MAX) };
    assert_eq!(widest.elapsed(), Some(u64::MAX));
    state.reset();
    assert_eq!(state.elapsed(), None);
}

#[test]
fn object_keys() {
    let sink = MinIoSink::new("test-stream", "hls");
    assert_eq!(sink.segment_key("segment_0000.ts"), "hls/test-stream/segment_0000.ts");
    assert_eq!(sink.playlist_key(), "hls/test-stream/index.m3u8");
    assert_eq!(sink.protocol(), Protocol::Hls);
    assert_eq!(sink.name(), "minio-sink");
    let hostile = MinIoSink::new("../x", "hls");
    assert_eq!(hostile.segment_key("a.ts"), "hls/___x/a.ts");
}

#[test]
fn uploads_are_retried_twice() {
    let mut attempts = UploadAttempts::new();
    assert_eq!(attempts.on_attempt(false), UploadAction::RetryAfter(200));
    assert_eq!(attempts.on_attempt(false), UploadAction::RetryAfter(500));
    assert_eq!(attempts.on_attempt(false), UploadAction::GiveUp);

    let mut attempts = UploadAttempts::new();
    assert_eq!(attempts.on_attempt(false), UploadAction::RetryAfter(200));
    assert_eq!(attempts.on_attempt(true), UploadAction::Finish);
}

#[test]
fn defaults_are_valid() {
    let cfg = app_config();
    assert_eq!(cfg.validate(), Ok(()));
    assert_eq!(cfg.transport.rtmp.port, 1935);
    assert_eq!(cfg.transport.rtmp.app_name, "lives");
    assert_eq!(cfg.transport.rtsp.port, 8554);
    assert_eq!(cfg.services.grpc.port, 50051);
    assert_eq!(cfg.services.grpc.auth_token, None);
    assert_eq!(cfg.services.http_flv.port, 8080);
    assert!(!cfg.services.http_flv.enabled);
    assert_eq!(cfg.storage.segment.duration_secs, 10);
    assert_eq!(cfg.storage.segment.playlist_size, 5);
    assert_eq!(cfg.storage.segment.minio_prefix, "hls");
    assert_eq!(cfg.queue.rtmp_forward, 8192);
    assert_eq!(f64::from_bits(cfg.transcode.gop_secs.bits), 2.0);
    assert_eq!(cfg.transcode.preset, "veryfast");
    assert_eq!(cfg.transcode.bitrate_kbps, 1024);
    assert_eq!(GrpcConfig::default().port, 50051);
    assert_eq!(HttpFlvConfig::default().max_connections, 2000);
}

#[test]
fn transport_faults() {
    let rtmp = RtmpConfig { session_ttl_secs: 0, ..RtmpConfig::default() };
    assert_eq!(rtmp.validate(), Err(ConfigError::RtmpSessionTtl(0)));
    let rtmp = RtmpConfig { session_ttl_secs: 86_401, port: 0, ..RtmpConfig::default() };
    assert_eq!(rtmp.validate(), Err(ConfigError::RtmpSessionTtl(86_401)));
    let rtmp = RtmpConfig { port: 0, ..RtmpConfig::default() };
    assert_eq!(rtmp.validate(), Err(ConfigError::RtmpPort));
    let rtsp = RtspConfig { session_ttl_secs: 100_000, ..RtspConfig::default() };
    assert_eq!(rtsp.validate(), Err(ConfigError::RtspSessionTtl(100_000)));
    let mut cfg = app_config();
    cfg.transport.rtsp.port = 0;
    assert_eq!(cfg.validate(), Err(ConfigError::RtspPort));
}

#[test]
fn storage_and_queue_faults() {
    let mut cfg = app_config();
    cfg.queue.event = 0;
    assert_eq!(cfg.validate(), Err(ConfigError::QueueCapacity));
    cfg.storage.segment.cache_dir = " .. ".into();
    assert_eq!(cfg.validate(), Err(ConfigError::SegmentCacheDir));
    cfg.storage.segment.duration_secs = 0;
    assert_eq!(cfg.validate(), Err(ConfigError::SegmentDuration));
}

#[test]
fn transcode_faults() {
    let cfg = TranscodeConfig { bitrate_kbps: 0, ..TranscodeConfig::default() };
    assert_eq!(cfg.validate(), Err(ConfigError::TranscodeBitrate));
    for bad in [0.0, -0.0, -1.5, f64::NEG_INFINITY] {
        let cfg = TranscodeConfig { gop_secs: number(bad), ..TranscodeConfig::default() };
        assert_eq!(cfg.validate(), Err(ConfigError::TranscodeGop));
        let cfg = TranscodeConfig { fps: Some(number(bad)), ..TranscodeConfig::default() };
        assert_eq!(cfg.validate(), Err(ConfigError::TranscodeFps));
    }
    // No number is not at most zero.
    for good in [0.5, f64::INFINITY, f64::NAN, -f64::NAN] {
        let cfg = TranscodeConfig { gop_secs: number(good), ..TranscodeConfig::default() };
        assert_eq!(cfg.validate(), Ok(()));
        assert!(!(good <= 0.0));
    }
    let cfg = TranscodeConfig { preset: String::new(), ..TranscodeConfig::default() };
    assert_eq!(cfg.validate(), Err(ConfigError::TranscodePreset));
}

#[test]
fn fault_texts() {
    assert_eq!(
        ConfigError::RtmpSessionTtl(0).message(),
        "RTMP session TTL must be in 1..=86400 seconds, got 0"
    );
    assert_eq!(
        ConfigError::RtspSessionTtl(100_000).message(),
        "RTSP session TTL must be in 1..=86400 seconds, got 100000"
    );
    assert_eq!(ConfigError::RtmpPort.message(), "RTMP port must be non-zero");
    assert_eq!(
        ConfigError::TranscodeFps.message(),
        "transcode.fps must be greater than 0 when set"
    );
}

#[test]
fn older_variables_override() {
    let overrides = legacy_env_overrides();
    assert_eq!(overrides.len(), 4);
    assert_eq!(overrides[0].key, "minio.uri");
    assert_eq!(overrides[0].variable, "MINIO_URI");
    assert_eq!(overrides[3].key, "minio.bucket");
    assert_eq!(overrides[3].variable, "MINIO_BUCKET");
}
