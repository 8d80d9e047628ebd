//! Transcoding, deferred HLS, wiring, graphs, shutdown, probes and telemetry.
use bytes::Bytes;
use livestream::codec::nal_data::NalData;
use livestream::codec::packet::EncodedPacket;
use livestream::config::SegmentConfig;
use livestream::deferred::{
    codec_params_from_sequence_header, record_sequence_header, DeferredHls, DeferredStep,
};
use livestream::engine::{
    drain_totals, shutdown_action, state_after, DrainCounts, LifecycleEvent, ShutdownAction,
    ShutdownProgress, TaskEnd,
};
use livestream::factory::{
    chain_params, deferred_tasks, encoded_chain_tasks, feeds, has_mjpeg, hls_start, rtsp_feeds,
    rtsp_pipeline_tasks, ChainTask, HlsStart, PipelineFactory,
};
use livestream::flv::mux::FlvMux;
use livestream::flv::tag::FlvTag;
use livestream::frame_flow::{
    decode_action, DecodeAction, DecodeEvent, EncodeAction, EncodeFlow, EncodeOutcome, EncodeStage,
};
use livestream::graph::{Edge, NodeKind, PipelineBuilder, PipelineGraph};
use livestream::media::packet::{PacketFields, NO_TIMESTAMP};
use livestream::media::stream::Rational;
use livestream::otel::OTelProbe;
use livestream::rtp_depack::{DemuxedStream, RtpDemuxProcessor};
use livestream::seq_cache::SeqCacheProbe;
use livestream::telemetry::{
    endpoint_variables, eq_ignore_ascii_case, exporter_variables, otlp_enabled,
    otlp_exporter_selected, service_name, telemetry_mode, OtlpEnvironment, TelemetryMode,
};
use livestream::text::{trim, trim_end};
use livestream::traits::{Node, PipelineState};
use livestream::transcode::{
    encoded_packet, plan_frame, FramePlan, FrameStep, HeaderOutcome, InvalidDimensions, NoMjpegStream,
    Processed, Route, TranscodeProcessor,
};
use livestream::types::{Codec, CodecParams, MediaType};
use std::sync::Arc;

fn mjpeg() -> CodecParams {
    CodecParams::new_video(Codec::Mjpeg, 90000, None)
}

fn make_processor(frame_interval_ms: Option<i64>) -> TranscodeProcessor {
    TranscodeProcessor::new("test-live", &[mjpeg()], 1024, "veryfast", 60, frame_interval_ms)
        .expect("processor should construct")
}

fn h264_keyframe() -> EncodedPacket {
    EncodedPacket::new_video_keyframe(
        Bytes::from_static(&[
            0, 0, 0, 1, 0x67, 0x42, 0x00, 0x1F, 0, 0, 0, 1, 0x68, 0xCE, 0, 0, 0, 1, 0x65, 0x88,
        ]),
        0,
        0,
        0,
    )
}

#[test]
fn builder_chain_and_sink_compile() {
    let graph: PipelineGraph<u32, &str> =
        PipelineBuilder::new(0, "encoded", "source".to_string())
            .chain(1, "encoded", "probe".to_string())
            .sink(2, "none", "sink".to_string());
    assert_eq!(graph.node_count(), 3);
}

#[test]
fn branches_leave_the_main_chain() {
    let graph: PipelineGraph<u32, &str> =
        PipelineBuilder::new(0, "encoded", "source".to_string())
            .chain(1, "encoded", "probe".to_string())
            .branch()
            .chain(2, "ts", "segmenter".to_string())
            .sink(3, "none", "upload".to_string())
            .chain(4, "flv", "mux".to_string())
            .sink(5, "none", "flv".to_string());
    assert!(graph.validate().is_ok());
    assert_eq!(graph.node_count(), 6);
    let edges = [(0, 1), (1, 2), (2, 3), (1, 4), (4, 5)]
        .map(|(from_node, to_node)| Edge { from_node, from_pad: 0, to_node });
    assert_eq!(graph.edges(), &edges[..]);
    assert_eq!(graph.node(0).unwrap().kind, NodeKind::Source);
    assert_eq!(graph.node(4).unwrap().name, "mux");
    assert_eq!(graph.node(4).unwrap().output_type, "flv");
    assert_eq!(graph.node(5).unwrap().kind, NodeKind::Sink);
    assert!(graph.node(6).is_none());
}

#[test]
fn graphs_grow_behind_their_tail() {
    let mut graph: PipelineGraph<u32, &str> = PipelineGraph::new(0, "a", "source".to_string());
    assert_eq!(graph.push_processor(1, "b", "one".to_string()), 1);
    graph.push_sink(2, "none", "sink".to_string());
    assert_eq!(graph.push_processor(3, "c", "two".to_string()), 3);
    assert_eq!(graph.edges()[2], Edge { from_node: 1, from_pad: 0, to_node: 3 });
    assert!(graph.validate().is_ok());
    let held: Vec<u32> = graph.into_nodes().into_iter().map(|n| n.node).collect();
    assert_eq!(held, vec![0, 1, 2, 3]);
}

#[test]
fn passthrough_non_mjpeg() {
    let proc = make_processor(None);
    let pkt = EncodedPacket::new_audio(Bytes::copy_from_slice(&[0xFF, 0xF1]), 0, 1);
    assert_eq!(proc.route(&pkt), Route::PassThrough);
    let out = match proc.process(pkt.clone()) {
        Processed::Done(out) => out,
        Processed::Transcode(_) => panic!("audio is not transcoded"),
    };
    assert_eq!(out.len(), 1);
    assert_eq!(out[0].codec, Codec::Aac);
    assert_eq!(out[0].data.as_bytes(), pkt.data.as_bytes());
}

#[test]
fn mjpeg_is_transcoded() {
    let proc = make_processor(None);
    let mut pkt = EncodedPacket::new_video_keyframe(Bytes::from_static(&[0xFF, 0xD8]), 0, 0, 0);
    pkt.codec = Codec::Mjpeg;
    assert_eq!(proc.route(&pkt), Route::Transcode);
    pkt.is_sequence_header = true;
    assert_eq!(proc.route(&pkt), Route::Drop);
    assert!(matches!(proc.process(pkt.clone()), Processed::Done(out) if out.is_empty()));
    pkt.is_sequence_header = false;
    assert!(matches!(proc.process(pkt), Processed::Transcode(_)));
    assert!(proc.should_process());
    assert_eq!(proc.name(), "transcode");
    assert_eq!(proc.stream_id(), "test-live");
    assert_eq!(proc.mjpeg_params().codec, Codec::Mjpeg);
}

#[test]
fn transcoding_needs_an_mjpeg_stream() {
    let audio = [CodecParams::new_audio(Codec::Aac, 44100, None)];
    assert_eq!(
        TranscodeProcessor::new("x", &audio, 1024, "fast", 60, None).err(),
        Some(NoMjpegStream)
    );
}

#[test]
fn sequence_header_is_emitted_once() {
    let mut proc = make_processor(None);
    let mut nothing: Vec<EncodedPacket> = Vec::new();
    assert_eq!(proc.maybe_emit_sequence_header(&mut nothing), HeaderOutcome::NotDue);
    assert!(proc.output_codec().is_empty());

    let mut out = vec![h264_keyframe()];
    assert_eq!(proc.maybe_emit_sequence_header(&mut out), HeaderOutcome::Emitted);
    assert_eq!(out.len(), 2);
    let header = &out[0];
    assert!(header.is_sequence_header);
    assert_eq!(header.codec, Codec::H264);
    let ext = header.extradata.as_ref().unwrap();
    assert_eq!(ext[0], 0x01);
    assert_eq!(ext[5] & 0x1F, 1);
    assert_eq!(
        ext.as_ref(),
        &[1, 0x42, 0, 0x1F, 0xFF, 0xE1, 0, 4, 0x67, 0x42, 0, 0x1F, 1, 0, 2, 0x68, 0xCE]
    );
    assert!(out[1].is_keyframe);
    let params = proc.output_codec();
    assert_eq!(params.len(), 1);
    assert_eq!(params[0].clock_rate, 90000);
    assert_eq!(
        params[0].extradata,
        Some(Bytes::from_static(&[0x67, 0x42, 0, 0x1F, 0x68, 0xCE]))
    );

    let mut later = vec![h264_keyframe()];
    assert_eq!(proc.maybe_emit_sequence_header(&mut later), HeaderOutcome::NotDue);
    assert_eq!(later.len(), 1);
}

#[test]
fn keyframe_without_sets_skips_the_header() {
    let mut proc = make_processor(None);
    let bare = EncodedPacket::new_video_keyframe(Bytes::from_static(&[0, 0, 1, 0x65]), 0, 0, 0);
    let mut out = vec![bare];
    assert_eq!(proc.maybe_emit_sequence_header(&mut out), HeaderOutcome::Skipped);
    assert_eq!(out.len(), 1);
    let mut later = vec![h264_keyframe()];
    assert_eq!(proc.maybe_emit_sequence_header(&mut later), HeaderOutcome::NotDue);
}

#[test]
fn rate_limit_keeps_one_frame_per_slot() {
    let mut proc = make_processor(Some(100));
    // Until a frame was encoded every frame is kept.
    assert!(proc.should_keep_frame(10));
    assert!(proc.should_keep_frame(20));
    proc.on_encoded(true);
    assert_eq!(proc.frames_encoded_count(), 1);
    assert!(!proc.should_keep_frame(99));
    assert!(proc.should_keep_frame(100));
    assert!(!proc.should_keep_frame(150));
    assert!(proc.should_keep_frame(999));
    // Times before the start lie in slots of their own.
    let mut early = make_processor(Some(100));
    assert!(early.should_keep_frame(-50));
    early.on_encoded(true);
    assert!(early.should_keep_frame(50));
    // Without a limit all frames are kept.
    let mut free = make_processor(None);
    free.on_encoded(true);
    assert!(free.should_keep_frame(1) && free.should_keep_frame(1));
}

#[test]
fn rates_above_the_clock_keep_every_frame() {
    // Above 1000 frames per second the interval rounds to nothing.
    for interval_ms in [0, -1, i64::MIN] {
        let mut proc = make_processor(Some(interval_ms));
        proc.on_encoded(true);
        assert!(proc.should_keep_frame(5));
        assert!(proc.should_keep_frame(5));
        assert!(proc.should_keep_frame(4));
    }
}

#[test]
fn slow_sources_keep_every_frame() {
    let mut proc = make_processor(Some(40));
    for n in 0..20 {
        assert_eq!(proc.on_frame(Some(n * 40)), FrameStep::Encode(n * 40));
        proc.on_encoded(true);
    }
    assert_eq!(proc.frames_encoded_count(), 20);
}

#[test]
fn frames_are_timed_limited_and_counted() {
    let mut proc = make_processor(Some(100));
    // Frames that fail do not count, so the next one is the first again.
    assert_eq!(proc.on_frame(Some(250)), FrameStep::Encode(250));
    proc.on_encoded(false);
    assert_eq!(proc.frames_encoded_count(), 0);
    assert_eq!(proc.on_frame(Some(210)), FrameStep::Encode(210));
    proc.on_encoded(true);
    assert_eq!(proc.frames_encoded_count(), 1);
    // A frame that is dropped sets the time all the same.
    assert_eq!(proc.on_frame(Some(280)), FrameStep::Drop);
    assert_eq!(proc.last_pts(), 280);
    assert_eq!(proc.on_frame(None), FrameStep::Encode(313));
    proc.on_encoded(false);
    // A frame that fails takes its slot.
    assert_eq!(proc.on_frame(Some(390)), FrameStep::Drop);
    assert_eq!(proc.on_frame(Some(400)), FrameStep::Encode(400));
    proc.on_encoded(true);
    assert_eq!(proc.frames_encoded_count(), 2);
}

#[test]
fn frames_without_a_time_advance() {
    let mut proc = make_processor(None);
    assert_eq!(proc.frame_time(None), 33);
    assert_eq!(proc.frame_time(Some(100)), 100);
    assert_eq!(proc.frame_time(None), 133);
    assert_eq!(proc.last_pts(), 133);
}

#[test]
fn frame_plans() {
    assert_eq!(
        plan_frame(1921, 1080, true),
        Ok(FramePlan { width: 1920, height: 1080, direct: false })
    );
    assert_eq!(
        plan_frame(640, 480, true),
        Ok(FramePlan { width: 640, height: 480, direct: true })
    );
    assert_eq!(
        plan_frame(640, 480, false),
        Ok(FramePlan { width: 640, height: 480, direct: false })
    );
    assert_eq!(plan_frame(0, 480, true), Err(InvalidDimensions { width: 0, height: 480 }));
}

fn actions_until_receive(flow: &mut EncodeFlow) -> Vec<EncodeAction> {
    let mut actions = Vec::new();
    loop {
        let action = flow.next_action();
        actions.push(action);
        if matches!(
            action,
            EncodeAction::Receive | EncodeAction::Finish | EncodeAction::Drop
        ) {
            return actions;
        }
        flow.report(EncodeOutcome::Done);
    }
}

#[test]
fn encoding_steps() {
    let direct = FramePlan { width: 2, height: 2, direct: true };
    let mut first = EncodeFlow::new(direct, false, false, false);
    assert_eq!(
        actions_until_receive(&mut first),
        vec![EncodeAction::CreateEncoder, EncodeAction::SendFrame, EncodeAction::Receive]
    );
    // Packets are taken until there is none.
    first.report(EncodeOutcome::Done);
    assert_eq!(first.next_action(), EncodeAction::Receive);
    first.report(EncodeOutcome::NoPacket);
    assert_eq!(first.next_action(), EncodeAction::Finish);
    assert_eq!(first.stage, EncodeStage::Encoded);

    let scaled = FramePlan { direct: false, ..direct };
    let mut second = EncodeFlow::new(scaled, true, false, false);
    assert_eq!(
        actions_until_receive(&mut second),
        vec![
            EncodeAction::CreateScaler,
            EncodeAction::CreateTarget,
            EncodeAction::Scale,
            EncodeAction::SendTarget,
            EncodeAction::Receive
        ]
    );
    let mut third = EncodeFlow::new(scaled, true, true, true);
    assert_eq!(
        actions_until_receive(&mut third),
        vec![EncodeAction::Scale, EncodeAction::SendTarget, EncodeAction::Receive]
    );
}

#[test]
fn failure_drops_the_frame_only() {
    let plan = FramePlan { width: 2, height: 2, direct: false };
    let mut flow = EncodeFlow::new(plan, false, false, false);
    flow.report(EncodeOutcome::Done);
    assert_eq!(flow.next_action(), EncodeAction::CreateScaler);
    flow.report(EncodeOutcome::Failed);
    assert_eq!(flow.next_action(), EncodeAction::Drop);
    // What was made stays for the frames to come.
    assert!(flow.has_encoder && !flow.has_scaler);
}

#[test]
fn decoder_steps() {
    let next = decode_action;
    assert_eq!(next(DecodeEvent::Packet { has_decoder: true }), DecodeAction::Send);
    assert_eq!(next(DecodeEvent::Packet { has_decoder: false }), DecodeAction::Rebuild);
    assert_eq!(next(DecodeEvent::Rebuilt(true)), DecodeAction::Send);
    assert_eq!(next(DecodeEvent::Rebuilt(false)), DecodeAction::Stop);
    assert_eq!(next(DecodeEvent::Sent(true)), DecodeAction::Receive);
    assert_eq!(next(DecodeEvent::Sent(false)), DecodeAction::RebuildAndStop);
    assert_eq!(next(DecodeEvent::Frame), DecodeAction::Collect);
    assert_eq!(next(DecodeEvent::NoFrame), DecodeAction::Stop);
    assert_eq!(next(DecodeEvent::Failed), DecodeAction::RebuildAndStop);
}

#[test]
fn encoder_settings() {
    let settings = make_processor(None).encoder_settings(640, 480);
    assert_eq!(settings.bit_rate, 1_024_000);
    assert_eq!(settings.time_base, Rational { num: 1, den: 1000 });
    assert_eq!(settings.gop_frames, 60);
    assert_eq!(settings.preset, "veryfast");
    assert_eq!(settings.tune, "zerolatency");
    assert_eq!((settings.width, settings.height), (640, 480));
}

#[test]
fn encoded_frames_become_packets() {
    let fields = PacketFields {
        data: Bytes::from_static(&[0, 0, 0, 1, 0x65]),
        pts: 40,
        dts: NO_TIMESTAMP,
        stream_index: 3,
        key_frame: true,
    };
    let pkt = encoded_packet(&fields);
    assert_eq!(pkt.codec, Codec::H264);
    assert_eq!(pkt.stream_index, 0);
    assert_eq!(pkt.pts_ms, Some(40));
    assert_eq!(pkt.dts_ms, Some(40));
    assert!(pkt.is_keyframe);
    let none = encoded_packet(&PacketFields { pts: NO_TIMESTAMP, ..fields });
    assert_eq!(none.dts_ms, None);
}

fn aac_header() -> EncodedPacket {
    EncodedPacket::new_aac_sequence_header(&[0x12, 0x10], 1)
}

fn avc_header() -> EncodedPacket {
    EncodedPacket::new_avc_sequence_header(&[0x67, 1], &[0x68], 0)
}

#[test]
fn headers_announce_codecs() {
    let (kind, params) = codec_params_from_sequence_header(&avc_header()).unwrap();
    assert_eq!(kind, MediaType::Video);
    assert_eq!(params.codec, Codec::H264);
    assert_eq!(params.clock_rate, 90000);
    assert_eq!(params.extradata, Some(Bytes::from_static(&[0x67, 1, 0x68])));
    // The data stands in for missing extradata.
    let mut raw = EncodedPacket::new_audio(Bytes::from_static(&[0x11, 0x90]), 0, 1);
    raw.is_sequence_header = true;
    let (kind, params) = codec_params_from_sequence_header(&raw).unwrap();
    assert_eq!(kind, MediaType::Audio);
    assert_eq!(params.extradata, Some(Bytes::from_static(&[0x11, 0x90])));
    // Without either nothing is announced.
    let empty = EncodedPacket::new_aac_sequence_header(&[], 1);
    assert!(codec_params_from_sequence_header(&empty).is_none());
}

#[test]
fn both_headers_are_recorded() {
    let (mut video, mut audio) = (None, None);
    assert!(!record_sequence_header(&avc_header(), &mut video, &mut audio));
    assert!(record_sequence_header(&aac_header(), &mut video, &mut audio));
    let later = EncodedPacket::new_aac_sequence_header(&[0x13, 0x90], 1);
    assert!(record_sequence_header(&later, &mut video, &mut audio));
    assert_eq!(audio.unwrap().extradata, Some(Bytes::from_static(&[0x12, 0x10])));
    assert_eq!(video.unwrap().codec, Codec::H264);
}

fn wait(step: DeferredStep) -> DeferredHls {
    match step {
        DeferredStep::Wait(d) => d,
        other => panic!("{:?}", other),
    }
}

fn build(step: DeferredStep) -> Vec<Codec> {
    match step {
        DeferredStep::Build(params) => params.iter().map(|p| p.codec).collect(),
        other => panic!("{:?}", other),
    }
}

#[test]
fn branch_waits_for_both_codecs() {
    let d = wait(DeferredHls::new().on_packet(&aac_header()));
    assert_eq!(build(d.on_packet(&avc_header())), vec![Codec::H264, Codec::Aac]);
}

#[test]
fn single_codec_starts_with_media() {
    let media = EncodedPacket::new_audio(Bytes::from_static(&[1]), 0, 1);
    let d = wait(DeferredHls::new().on_packet(&media));
    let d = wait(d.on_packet(&aac_header()));
    assert_eq!(build(d.on_packet(&media)), vec![Codec::Aac]);
}

#[test]
fn chains_by_codec() {
    let h264 = [CodecParams::new_video(Codec::H264, 90000, None)];
    assert!(!has_mjpeg(&h264) && has_mjpeg(&[mjpeg()]));
    assert_eq!(chain_params(&h264).len(), 1);
    assert!(chain_params(&[mjpeg()]).is_empty());
    assert_eq!(hls_start(&h264), HlsStart::Immediate);
    assert_eq!(hls_start(&[]), HlsStart::Deferred);
    assert_eq!(
        encoded_chain_tasks(HlsStart::Immediate, true),
        vec![
            ChainTask::OtelProbe,
            ChainTask::SeqCacheProbe,
            ChainTask::FlvMux,
            ChainTask::FlvSink,
            ChainTask::HlsSegmenter,
            ChainTask::MinIoSink
        ]
    );
    // Where HLS cannot be built, FLV is served all the same.
    assert_eq!(encoded_chain_tasks(HlsStart::Immediate, false).len(), 4);
    // A deferred branch waits beside the chain.
    assert_eq!(encoded_chain_tasks(HlsStart::Deferred, true).len(), 4);
    assert_eq!(deferred_tasks(HlsStart::Deferred), vec![ChainTask::DeferredHls]);
    assert!(deferred_tasks(HlsStart::Immediate).is_empty());
    assert_eq!(
        rtsp_pipeline_tasks(&[mjpeg()], true),
        vec![
            ChainTask::RtpDemux,
            ChainTask::Transcode,
            ChainTask::OtelProbe,
            ChainTask::SeqCacheProbe,
            ChainTask::FlvMux,
            ChainTask::FlvSink
        ]
    );
    assert_eq!(rtsp_pipeline_tasks(&h264, true).len(), 7);
    assert_eq!(rtsp_pipeline_tasks(&h264, true)[1], ChainTask::OtelProbe);
}

#[test]
fn tasks_feed_each_other() {
    let fed = |task: ChainTask| feeds(task, HlsStart::Immediate, true);
    assert_eq!(fed(ChainTask::OtelProbe), vec![ChainTask::SeqCacheProbe]);
    assert_eq!(
        fed(ChainTask::SeqCacheProbe),
        vec![ChainTask::FlvMux, ChainTask::HlsSegmenter]
    );
    assert_eq!(fed(ChainTask::FlvMux), vec![ChainTask::FlvSink]);
    assert_eq!(fed(ChainTask::HlsSegmenter), vec![ChainTask::MinIoSink]);
    assert!(fed(ChainTask::FlvSink).is_empty() && fed(ChainTask::MinIoSink).is_empty());
    assert_eq!(
        feeds(ChainTask::SeqCacheProbe, HlsStart::Immediate, false),
        vec![ChainTask::FlvMux]
    );
    assert_eq!(
        feeds(ChainTask::SeqCacheProbe, HlsStart::Deferred, false),
        vec![ChainTask::FlvMux, ChainTask::DeferredHls]
    );
    let h264 = [CodecParams::new_video(Codec::H264, 90000, None)];
    assert_eq!(rtsp_feeds(ChainTask::RtpDemux, &h264, true), vec![ChainTask::OtelProbe]);
    assert_eq!(rtsp_feeds(ChainTask::RtpDemux, &[mjpeg()], true), vec![ChainTask::Transcode]);
    assert_eq!(rtsp_feeds(ChainTask::Transcode, &[mjpeg()], true), vec![ChainTask::OtelProbe]);
    assert_eq!(
        rtsp_feeds(ChainTask::SeqCacheProbe, &[mjpeg()], true),
        vec![ChainTask::FlvMux, ChainTask::DeferredHls]
    );
}

#[test]
fn every_task_is_fed_once() {
    for (start, built) in [
        (HlsStart::Immediate, true),
        (HlsStart::Immediate, false),
        (HlsStart::Deferred, false),
    ] {
        let mut tasks = encoded_chain_tasks(start, built);
        tasks.extend(deferred_tasks(start));
        let mut fed: Vec<ChainTask> = vec![ChainTask::OtelProbe];
        for task in &tasks {
            fed.extend(feeds(*task, start, built));
        }
        assert_eq!(fed.len(), tasks.len());
        assert!(tasks.iter().all(|t| fed.contains(t)));
    }
}

#[test]
fn factory_holds_its_dependencies() {
    let factory = PipelineFactory::new(SegmentConfig::default(), Arc::new("uploader"));
    assert_eq!(factory.segment_cfg().duration_secs, 10);
    assert_eq!(**factory.minio(), "uploader");
}

#[test]
fn life_cycle() {
    assert_eq!(state_after(LifecycleEvent::Started), PipelineState::Running);
    assert_eq!(state_after(LifecycleEvent::StopRequested), PipelineState::Draining);
    assert_eq!(state_after(LifecycleEvent::TasksGone), PipelineState::Terminated);
    for state in [
        PipelineState::Initializing,
        PipelineState::Running,
        PipelineState::Draining,
        PipelineState::Terminated,
    ] {
        assert_eq!(PipelineState::from_u8(state.as_u8()), Some(state));
    }
    assert_eq!(PipelineState::from_u8(4), None);
}

#[test]
fn shutdown_steps() {
    assert_eq!(shutdown_action(ShutdownProgress::Requested), ShutdownAction::StopAndTake);
    assert_eq!(shutdown_action(ShutdownProgress::TasksTaken(0)), ShutdownAction::Terminate);
    assert_eq!(shutdown_action(ShutdownProgress::TasksTaken(3)), ShutdownAction::Drain);
    assert_eq!(shutdown_action(ShutdownProgress::Drained), ShutdownAction::AbortLate);
    assert_eq!(shutdown_action(ShutdownProgress::LateTasksAborted), ShutdownAction::Terminate);
}

#[test]
fn every_task_is_accounted_for() {
    let ends =
        [TaskEnd::Completed, TaskEnd::TimedOut, TaskEnd::Panicked, TaskEnd::DeadlinePassed];
    assert_eq!(drain_totals(&ends), DrainCounts { finished: 2, aborted: 2 });
    let mut counts = DrainCounts::new();
    assert!(!counts.record(TaskEnd::Completed));
    assert!(counts.record(TaskEnd::TimedOut));
}

#[test]
fn caches_video_seq_header() {
    let mut probe = SeqCacheProbe::new();
    assert!(probe.snapshot().is_empty());
    probe.video_seq_header = Some(EncodedPacket::new_avc_sequence_header(&[0x67], &[0x68], 0));
    assert_eq!(probe.snapshot().len(), 1);
}

#[test]
fn snapshot_order() {
    let mut probe = SeqCacheProbe::new();
    let mut script = EncodedPacket::new_video_keyframe(Bytes::from_static(&[0x00]), 0, 0, 0);
    script.is_script_data = true;
    probe.script_data = Some(script);
    probe.video_seq_header = Some(EncodedPacket::new_avc_sequence_header(&[0x67], &[0x68], 0));

    let snap = probe.snapshot();
    assert_eq!(snap.len(), 2);
    assert!(snap[0].is_script_data);
}

#[test]
fn late_subscriber_gets_the_newest() {
    let mut probe = SeqCacheProbe::new();
    assert_eq!(probe.process(aac_header()).len(), 1);
    let _ = probe.process(EncodedPacket::new_avc_sequence_header(&[1], &[2], 0));
    let _ = probe.process(avc_header());
    let _ = probe.process(h264_keyframe());
    let _ = probe.process(EncodedPacket::new_audio(Bytes::from_static(&[5]), 0, 1));
    let mut script = EncodedPacket::new_audio(Bytes::from_static(&[6]), 0, 1);
    script.is_script_data = true;
    let _ = probe.process(script);
    let snap = probe.snapshot();
    assert_eq!(snap.len(), 4);
    assert!(snap[0].is_script_data);
    assert_eq!(snap[1].extradata, Some(Bytes::from_static(&[0x67, 1, 0x68])));
    assert_eq!(snap[2].codec, Codec::Aac);
    assert!(snap[3].is_keyframe && !snap[3].is_sequence_header);
    assert!(probe.should_process());
    assert_eq!(probe.name(), "seq-cache-probe");
}

#[test]
fn otel_probe_passthrough() {
    let probe = OTelProbe::new("test-stream");
    assert_eq!(probe.name(), "otel-probe");
    assert!(probe.should_process());
    assert_eq!(probe.stream_id(), "test-stream");
    let (metrics, out) = probe.process(h264_keyframe());
    assert_eq!(metrics.size, 20);
    assert!(metrics.keyframe);
    assert_eq!(out.len(), 1);
    assert_eq!(out[0].data, h264_keyframe().data);
}

#[test]
fn demuxer_sends_headers_once() {
    let mut demux = RtpDemuxProcessor::new();
    let streams = [
        DemuxedStream { codec: Some(Codec::H264), extradata: None },
        DemuxedStream { codec: None, extradata: Some(Bytes::from_static(&[1])) },
        DemuxedStream { codec: Some(Codec::Aac), extradata: Some(Bytes::from_static(&[2, 3])) },
    ];
    let headers = demux.take_headers(&streams);
    assert_eq!(headers.len(), 1);
    assert_eq!(headers[0].stream_index, 2);
    assert_eq!(headers[0].codec, Codec::Aac);
    assert!(headers[0].is_sequence_header && headers[0].is_keyframe);
    assert_eq!(headers[0].extradata, Some(Bytes::from_static(&[2, 3])));
    assert_eq!(headers[0].data, NalData::AnnexB(Bytes::new()));
    assert!(demux.take_headers(&streams).is_empty());
    assert!(demux.should_process());
    assert_eq!(demux.name(), "rtp-demux");
}

#[test]
fn headers_precede_the_first_frames() {
    let streams =
        [DemuxedStream { codec: Some(Codec::H264), extradata: Some(Bytes::from_static(&[1])) }];
    let mut demux = RtpDemuxProcessor::new();
    let first: Result<Vec<EncodedPacket>, i32> = Ok(vec![h264_keyframe()]);
    let out = demux.process(&streams, first).unwrap();
    assert_eq!(out.len(), 2);
    assert!(out[0].is_sequence_header && !out[1].is_sequence_header);
    assert_eq!(out[1].data, h264_keyframe().data);
    let later: Result<Vec<EncodedPacket>, i32> = Ok(vec![h264_keyframe()]);
    let out = demux.process(&streams, later).unwrap();
    assert_eq!(out.len(), 1);
    assert!(!out[0].is_sequence_header);
    assert_eq!(demux.process(&streams, Err(-5)).err(), Some(-5));
    let nothing: Result<Vec<EncodedPacket>, i32> = Ok(Vec::new());
    assert!(demux.process(&streams, nothing).unwrap().is_empty());
}

fn environment() -> OtlpEnvironment {
    OtlpEnvironment {
        endpoints_set: vec![false, false, false, false],
        exporters: vec![None, None, None],
        protocol_set: false,
    }
}

#[test]
fn export_must_be_asked_for() {
    assert!(!otlp_enabled(&environment()));
    let by_endpoint =
        OtlpEnvironment { endpoints_set: vec![false, true], ..environment() };
    assert!(otlp_enabled(&by_endpoint) && !otlp_exporter_selected(&by_endpoint));
    let by_name = OtlpEnvironment { exporters: vec![None, Some(" OTLP ".into())], ..environment() };
    assert!(otlp_enabled(&by_name));
    let other = OtlpEnvironment { exporters: vec![Some("console".into())], ..environment() };
    assert!(!otlp_enabled(&other));
    let by_protocol = OtlpEnvironment { protocol_set: true, ..environment() };
    assert!(otlp_enabled(&by_protocol));
}

#[test]
fn telemetry_variables() {
    assert_eq!(endpoint_variables().len(), 4);
    assert_eq!(endpoint_variables()[0], "OTEL_EXPORTER_OTLP_ENDPOINT");
    assert_eq!(exporter_variables().len(), 3);
    assert_eq!(exporter_variables()[2], "OTEL_LOGS_EXPORTER");
}

#[test]
fn telemetry_is_best_effort() {
    assert_eq!(telemetry_mode(true, true), TelemetryMode::Otlp);
    assert_eq!(telemetry_mode(true, false), TelemetryMode::Console);
    assert_eq!(telemetry_mode(false, true), TelemetryMode::Console);
    assert_eq!(service_name(Some("edge".into()), "livestream-rs"), "edge");
    assert_eq!(service_name(None, "livestream-rs"), "livestream-rs");
}

#[test]
fn text_rules() {
    assert!(eq_ignore_ascii_case("OtLp", "otlp"));
    assert!(!eq_ignore_ascii_case("otl", "otlp"));
    assert!(!eq_ignore_ascii_case("\u{c9}", "\u{e9}"));
    assert_eq!(trim("\u{2003} a b\u{a0}\n"), "a b");
    assert_eq!(trim_end("  a\t"), "  a");
    assert_eq!(trim(" \u{3000} "), "");
}

/// Takes packets through the FLV path.
fn flv_path(packets: Vec<EncodedPacket>) -> Vec<FlvTag> {
    let otel = OTelProbe::new("test");
    let mut cache = SeqCacheProbe::new();
    let mut mux = FlvMux::new("test");
    let mut tags = Vec::new();
    for pkt in packets {
        for observed in otel.process(pkt).1 {
            for cached in cache.process(observed) {
                tags.extend(mux.process(cached));
            }
        }
    }
    tags
}

#[test]
fn test_flv_pipeline_one_video_keyframe() {
    let keyframe = EncodedPacket::new_video_keyframe(Bytes::from_static(&[0u8; 100]), 0, 0, 0);
    let tags = flv_path(vec![keyframe]);
    assert_eq!(tags.len(), 1, "expected exactly 1 FLV tag");
    assert!(matches!(tags[0], FlvTag::Video { .. }));
}

#[test]
fn test_no_hls_when_codec_params_empty() {
    let keyframe = EncodedPacket::new_video_keyframe(Bytes::from_static(&[0u8; 100]), 0, 0, 0);
    let tasks = encoded_chain_tasks(hls_start(&[]), false);
    assert_eq!(tasks.len(), 4, "expected 4 futures (no HLS branch), got {}", tasks.len());
    assert_eq!(
        tasks,
        vec![
            ChainTask::OtelProbe,
            ChainTask::SeqCacheProbe,
            ChainTask::FlvMux,
            ChainTask::FlvSink
        ]
    );
    let tags = flv_path(vec![keyframe]);
    assert!(!tags.is_empty(), "expected at least one FLV tag even without HLS");
}

#[test]
fn test_seq_cache_snapshot_order() {
    let code = [0x00, 0x00, 0x00, 0x01];
    let tags = flv_path(vec![
        EncodedPacket::new_avc_sequence_header(&code, &code, 0),
        EncodedPacket::new_aac_sequence_header(&[0x12, 0x10], 1),
        EncodedPacket::new_video_keyframe(Bytes::from_static(&[0u8; 200]), 0, 0, 0),
        EncodedPacket::new_audio(Bytes::from_static(&[0u8; 50]), 0, 1),
    ]);
    assert!(tags.len() >= 2);
    assert!(tags.iter().any(|t| matches!(t, FlvTag::Video { .. })));
    assert!(tags.iter().any(|t| matches!(t, FlvTag::Audio { .. })));
}
