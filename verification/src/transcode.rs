//! Server-side transcoding of MJPEG to H.264.
//!
//! MJPEG can be carried neither by FLV nor by the HLS muxer, so each frame is
//! decoded and re-encoded before it reaches the encoded chain. Decoding, scaling
//! and encoding are the caller's part; what is decided around them stands here.
use crate::buffer::{bytes_as_slice, bytes_from_vec, bytes_of};
use crate::bits::push_slice;
use crate::codec::annexb::{extract_sps_pps, parameter_sets};
use crate::codec::avcc::{avcc_record, build_avcc_record, law_record_gives_sets_back, raw_parameter_sets};
use crate::codec::nal_data::{NalData, NalView};
use crate::codec::packet::{packet_views, EncodedPacket, PacketView};
use crate::media::packet::{known_timestamp, PacketFields};
use crate::media::stream::Rational;
use crate::traits::Node;
use crate::types::{Codec, CodecParams, CodecParamsView, MediaType};
use bytes::Bytes;
use vstd::prelude::*;

verus! {

/// Milliseconds that a frame without a timestamp advances.
pub const FRAME_ADVANCE_MS: i64 = 33;

/// What is to be done with a packet.
#[derive(Clone, Copy, Debug, PartialEq, Eq, Structural)]
pub enum Route {
    /// Hand it on untouched.
    PassThrough,
    /// Drop it: MJPEG has no sequence headers.
    Drop,
    /// Decode and re-encode it.
    Transcode,
}

/// How a decoded frame is encoded.
#[derive(Clone, Copy, Debug, PartialEq, Eq, Structural)]
pub struct FramePlan {
    /// Width of the encoded picture, even.
    pub width: i32,
    /// Height of the encoded picture, even.
    pub height: i32,
    /// Whether the frame goes to the encoder as it is; else it is scaled first.
    pub direct: bool,
}

/// A decoded frame without a positive size.
#[derive(Clone, Copy, Debug, PartialEq, Eq, Structural)]
pub struct InvalidDimensions {
    pub width: i32,
    pub height: i32,
}

/// What became of a packet.
#[derive(Debug)]
pub enum Processed {
    /// It was dealt with: these packets are handed on.
    Done(Vec<EncodedPacket>),
    /// It is to be decoded and re-encoded.
    Transcode(EncodedPacket),
}

/// No MJPEG stream among those announced.
#[derive(Clone, Copy, Debug, PartialEq, Eq, Structural)]
pub struct NoMjpegStream;

/// What became of the sequence header.
#[derive(Clone, Copy, Debug, PartialEq, Eq, Structural)]
pub enum HeaderOutcome {
    /// Nothing was due: it was handled before, or there is no keyframe yet.
    NotDue,
    /// It was put before the packets.
    Emitted,
    /// The keyframe lacks parameter sets; no header will be emitted.
    Skipped,
}

/// What is to be done with a decoded frame.
#[derive(Clone, Copy, Debug, PartialEq, Eq, Structural)]
pub enum FrameStep {
    /// Nothing: the rate limit drops it.
    Drop,
    /// Encode it at this time, and report how that went.
    Encode(i64),
}

/// Settings of the encoder.
#[derive(Clone, Debug)]
pub struct EncoderSettings {
    pub width: i32,
    pub height: i32,
    pub time_base: Rational,
    /// Bits per second.
    pub bit_rate: i64,
    pub gop_frames: i32,
    pub preset: String,
    pub tune: String,
}

/// Transcoding of one stream.
#[derive(Debug)]
pub struct TranscodeProcessor {
    stream_id: String,
    /// Parameters of the MJPEG stream, to open the decoder with.
    mjpeg_params: CodecParams,
    bitrate_kbps: u64,
    preset: String,
    /// Keyframe interval in frames.
    gop_frames: i32,
    /// Milliseconds per output frame, where a rate is set. 0 stands for a rate of
    /// more than one frame per millisecond.
    frame_interval_ms: Option<i64>,
    last_pts: i64,
    /// Frames encoded so far; the first is kept by the rate limit.
    frames_encoded: u64,
    /// Time slot of the last frame that was kept.
    last_kept_slot: i64,
    emitted_seq_header: bool,
    output_params: Vec<CodecParams>,
}

/// The state of a `TranscodeProcessor`.
#[verifier::ext_equal]
pub struct TranscodeView {
    pub mjpeg_params: CodecParamsView,
    pub bitrate_kbps: u64,
    pub preset: Seq<char>,
    pub gop_frames: i32,
    pub frame_interval_ms: Option<i64>,
    pub last_pts: i64,
    pub frames_encoded: u64,
    pub last_kept_slot: i64,
    pub emitted_seq_header: bool,
    pub output_params: Seq<CodecParamsView>,
}

/// The first MJPEG stream of those announced.
pub open spec fn mjpeg_stream(params: Seq<CodecParams>) -> Option<CodecParamsView>
    decreases params.len(),
{
    if params.len() == 0 {
        None
    } else if params[0].codec == Codec::Mjpeg {
        Some(params[0]@)
    } else {
        mjpeg_stream(params.skip(1))
    }
}

/// The route of a packet.
pub open spec fn route_of(pkt: PacketView) -> Route {
    if pkt.codec != Codec::Mjpeg {
        Route::PassThrough
    } else if pkt.is_sequence_header {
        Route::Drop
    } else {
        Route::Transcode
    }
}

/// Position of the first keyframe that is no sequence header.
pub open spec fn first_keyframe(pkts: Seq<PacketView>) -> Option<int>
    decreases pkts.len(),
{
    if pkts.len() == 0 {
        None
    } else {
        match first_keyframe(pkts.drop_last()) {
            Some(i) => Some(i),
            None => if pkts.last().is_keyframe && !pkts.last().is_sequence_header {
                Some(pkts.len() - 1)
            } else {
                None
            },
        }
    }
}

/// The sequence header packet of a pair of parameter sets.
pub open spec fn header_packet(sps: Seq<u8>, pps: Seq<u8>) -> PacketView {
    PacketView {
        codec: Codec::H264,
        stream_index: 0,
        data: NalView::AnnexB(Seq::empty()),
        pts_ms: None,
        dts_ms: None,
        is_keyframe: true,
        is_sequence_header: true,
        is_script_data: false,
        extradata: Some(avcc_record(sps, pps)),
    }
}

/// The output parameters of a pair of parameter sets.
pub open spec fn header_params(sps: Seq<u8>, pps: Seq<u8>) -> CodecParamsView {
    CodecParamsView {
        codec: Codec::H264,
        media_type: MediaType::Video,
        clock_rate: 90000,
        extradata: Some(sps + pps),
    }
}

impl TranscodeView {
    /// The time of a frame: its own, or a fixed step after the last one.
    pub open spec fn frame_time(self, pts: Option<i64>) -> int {
        match pts {
            Some(p) => p as int,
            None => self.last_pts + 33,
        }
    }

    /// The time slot of a frame, where the rate is limited.
    pub open spec fn slot(self, pts: i64) -> int {
        pts as int / self.frame_interval_ms->0 as int
    }

    /// Whether frames are limited: an interval of less than a millisecond leaves
    /// room for every frame.
    pub open spec fn is_limited(self) -> bool {
        self.frame_interval_ms matches Some(i) && i > 0
    }

    /// Whether the rate limit keeps a frame: the first one, then those that reach
    /// a later time slot. Without a limit every frame is kept.
    pub open spec fn keeps(self, pts: i64) -> bool {
        !self.is_limited() || self.frames_encoded == 0 || self.slot(pts)
            > self.last_kept_slot
    }

    /// A frame was kept by the rate limit.
    pub open spec fn kept(self, pts: i64) -> TranscodeView {
        if self.is_limited() {
            TranscodeView { last_kept_slot: self.slot(pts) as i64, ..self }
        } else {
            self
        }
    }

    /// A frame was decoded: it gets its time, then the rate limit has it encoded at
    /// that time or drops it.
    pub open spec fn frame(self, pts: Option<i64>) -> (TranscodeView, FrameStep) {
        let time = self.frame_time(pts) as i64;
        let timed = TranscodeView { last_pts: time, ..self };
        if timed.keeps(time) {
            (timed.kept(time), FrameStep::Encode(time))
        } else {
            (timed, FrameStep::Drop)
        }
    }

    /// A frame was encoded, or failed to be.
    pub open spec fn encoded(self, succeeded: bool) -> TranscodeView {
        if succeeded {
            TranscodeView { frames_encoded: (self.frames_encoded + 1) as u64, ..self }
        } else {
            self
        }
    }

    /// Packets and state after the sequence header was dealt with: it is
    /// synthesized from the first keyframe and put before the packets, once.
    pub open spec fn with_header(self, pkts: Seq<PacketView>) -> (
        TranscodeView,
        Seq<PacketView>,
        HeaderOutcome,
    ) {
        if self.emitted_seq_header {
            (self, pkts, HeaderOutcome::NotDue)
        } else {
            match first_keyframe(pkts) {
                None => (self, pkts, HeaderOutcome::NotDue),
                Some(k) => match parameter_sets(pkts[k].data.raw()) {
                    Some((sps, pps)) => (
                        TranscodeView {
                            emitted_seq_header: true,
                            output_params: seq![header_params(sps, pps)],
                            ..self
                        },
                        seq![header_packet(sps, pps)] + pkts,
                        HeaderOutcome::Emitted,
                    ),
                    None => (
                        TranscodeView { emitted_seq_header: true, ..self },
                        pkts,
                        HeaderOutcome::Skipped,
                    ),
                },
            }
        }
    }
}

/// The views of a run of codec parameters.
pub open spec fn params_views(s: Seq<CodecParams>) -> Seq<CodecParamsView> {
    Seq::new(s.len(), |i: int| s[i]@)
}

impl View for TranscodeProcessor {
    type V = TranscodeView;

    closed spec fn view(&self) -> TranscodeView {
        TranscodeView {
            mjpeg_params: self.mjpeg_params@,
            bitrate_kbps: self.bitrate_kbps,
            preset: self.preset@,
            gop_frames: self.gop_frames,
            frame_interval_ms: self.frame_interval_ms,
            last_pts: self.last_pts,
            frames_encoded: self.frames_encoded,
            last_kept_slot: self.last_kept_slot,
            emitted_seq_header: self.emitted_seq_header,
            output_params: params_views(self.output_params@),
        }
    }
}

/// The quotient rounded down.
fn floor_div(a: i64, b: i64) -> (r: i64)
    requires
        b > 0,
    ensures
        r == a as int / b as int,
{
    if a >= 0 {
        let q: u64 = a as u64 / b as u64;
        proof {
            vstd::arithmetic::div_mod::lemma_div_is_ordered_by_denominator(a as int, 1, b as int);
        }
        q as i64
    } else {
        let m: u64 = (-1 - a) as u64;
        let q: u64 = m / b as u64;
        proof {
            let x = a as int;
            let y = b as int;
            vstd::arithmetic::div_mod::lemma_div_is_ordered_by_denominator(m as int, 1, y);
            vstd::arithmetic::div_mod::lemma_fundamental_div_mod(m as int, y);
            let rest = m as int % y;
            assert(x == (-(q as int) - 1) * y + (y - 1 - rest)) by (nonlinear_arith)
                requires
                    m == -1 - x,
                    m as int == y * (q as int) + rest,
            ;
            vstd::arithmetic::div_mod::lemma_fundamental_div_mod_converse(
                x,
                y,
                -(q as int) - 1,
                y - 1 - rest,
            );
        }
        -1 - (q as i64)
    }
}

/// How a frame of a size is encoded.
pub open spec fn planned_frame(width: i32, height: i32, is_yuv420p: bool) -> Result<
    FramePlan,
    InvalidDimensions,
> {
    if width <= 0 || height <= 0 {
        Err(InvalidDimensions { width, height })
    } else {
        Ok(
            FramePlan {
                width: (width - width % 2) as i32,
                height: (height - height % 2) as i32,
                direct: is_yuv420p && width % 2 == 0 && height % 2 == 0,
            },
        )
    }
}

/// Plans the encoding of a frame: the encoder takes even sizes only, and a frame
/// in its own format and size goes to it unscaled.
pub fn plan_frame(width: i32, height: i32, is_yuv420p: bool) -> (r: Result<
    FramePlan,
    InvalidDimensions,
>)
    ensures
        r == planned_frame(width, height, is_yuv420p),
{
    if width <= 0 || height <= 0 {
        return Err(InvalidDimensions { width, height });
    }
    let even_width: i32 = width - width % 2;
    let even_height: i32 = height - height % 2;
    let direct = is_yuv420p && width == even_width && height == even_height;
    Ok(FramePlan { width: even_width, height: even_height, direct })
}

/// The packet of an encoded frame: H.264 in Annex B, the PTS standing in for a
/// missing DTS.
pub fn encoded_packet(pkt: &PacketFields) -> (r: EncodedPacket)
    ensures
        r@ == (PacketView {
            codec: Codec::H264,
            stream_index: 0,
            data: NalView::AnnexB(bytes_of(pkt.data)),
            pts_ms: known_timestamp(pkt.pts),
            dts_ms: if known_timestamp(pkt.dts) is Some {
                known_timestamp(pkt.dts)
            } else {
                known_timestamp(pkt.pts)
            },
            is_keyframe: pkt.key_frame,
            is_sequence_header: false,
            is_script_data: false,
            extradata: None,
        }),
{
    let pts_ms = pkt.pts();
    let dts_ms = match pkt.dts() {
        Some(d) => Some(d),
        None => pts_ms,
    };
    EncodedPacket {
        codec: Codec::H264,
        stream_index: 0,
        data: NalData::AnnexB(pkt.data.clone()),
        pts_ms,
        dts_ms,
        is_keyframe: pkt.is_key_frame(),
        is_sequence_header: false,
        is_script_data: false,
        extradata: None,
    }
}

impl TranscodeProcessor {
    /// The stream being transcoded.
    pub closed spec fn id(&self) -> Seq<char> {
        self.stream_id@
    }

    /// Transcoding of the first MJPEG stream announced.
    pub fn new(
        stream_id: &str,
        input_codec_params: &[CodecParams],
        bitrate_kbps: u64,
        preset: &str,
        gop_frames: i32,
        frame_interval_ms: Option<i64>,
    ) -> (r: Result<Self, NoMjpegStream>)
        ensures
            match mjpeg_stream(input_codec_params@) {
                None => r is Err,
                Some(mjpeg_params) => r matches Ok(p) && p.id() == stream_id@ && p@ == (
                TranscodeView {
                    mjpeg_params,
                    bitrate_kbps,
                    preset: preset@,
                    gop_frames,
                    frame_interval_ms,
                    last_pts: 0,
                    frames_encoded: 0,
                    last_kept_slot: i64::MIN,
                    emitted_seq_header: false,
                    output_params: Seq::empty(),
                }),
            },
    {
        let mut i: usize = 0;
        assert(input_codec_params@.skip(0) =~= input_codec_params@);
        while i < input_codec_params.len()
            invariant
                i <= input_codec_params@.len(),
                mjpeg_stream(input_codec_params@.skip(i as int)) == mjpeg_stream(
                    input_codec_params@,
                ),
            decreases input_codec_params@.len() - i,
        {
            let p: &CodecParams = &input_codec_params[i];
            if p.codec == Codec::Mjpeg {
                let r = TranscodeProcessor {
                    stream_id: stream_id.to_owned(),
                    mjpeg_params: p.clone(),
                    bitrate_kbps,
                    preset: preset.to_owned(),
                    gop_frames,
                    frame_interval_ms,
                    last_pts: 0,
                    frames_encoded: 0,
                    last_kept_slot: i64::MIN,
                    emitted_seq_header: false,
                    output_params: Vec::new(),
                };
                assert(r@.output_params =~= Seq::empty());
                return Ok(r);
            }
            assert(input_codec_params@.skip(i as int).skip(1) =~= input_codec_params@.skip(i + 1));
            i = i + 1;
        }
        Err(NoMjpegStream)
    }

    /// The stream being transcoded, for log messages.
    pub fn stream_id(&self) -> (r: &str)
        ensures
            r@ == self.id(),
    {
        self.stream_id.as_str()
    }

    /// Parameters of the MJPEG stream.
    pub fn mjpeg_params(&self) -> (r: &CodecParams)
        ensures
            r@ == self@.mjpeg_params,
    {
        &self.mjpeg_params
    }

    /// What is to be done with a packet.
    pub fn route(&self, pkt: &EncodedPacket) -> (r: Route)
        ensures
            r == route_of(pkt@),
    {
        if pkt.codec != Codec::Mjpeg {
            Route::PassThrough
        } else if pkt.is_sequence_header {
            Route::Drop
        } else {
            Route::Transcode
        }
    }

    /// Takes a packet in: one that is not MJPEG is handed on untouched, a sequence
    /// header of MJPEG is dropped, and a frame is to be transcoded.
    pub fn process(&self, pkt: EncodedPacket) -> (r: Processed)
        ensures
            match route_of(pkt@) {
                Route::PassThrough => r matches Processed::Done(out) && out@ == seq![pkt],
                Route::Drop => r matches Processed::Done(out) && out@.len() == 0,
                Route::Transcode => r == Processed::Transcode(pkt),
            },
    {
        let mut out: Vec<EncodedPacket> = Vec::new();
        match self.route(&pkt) {
            Route::PassThrough => {
                out.push(pkt);
                assert(out@ =~= seq![pkt]);
                Processed::Done(out)
            },
            Route::Drop => Processed::Done(out),
            Route::Transcode => Processed::Transcode(pkt),
        }
    }

    /// The time of a decoded frame; a frame without one advances by a fixed step.
    pub fn frame_time(&mut self, pts: Option<i64>) -> (r: i64)
        requires
            old(self)@.frame_time(pts) <= i64::MAX,
        ensures
            final(self).id() == old(self).id(),
            r == old(self)@.frame_time(pts),
            final(self)@ == (TranscodeView { last_pts: r, ..old(self)@ }),
    {
        let time: i64 = match pts {
            Some(p) => p,
            None => self.last_pts + FRAME_ADVANCE_MS,
        };
        self.last_pts = time;
        time
    }

    /// The last frame time.
    pub fn last_pts(&self) -> (r: i64)
        ensures
            r == self@.last_pts,
    {
        self.last_pts
    }

    /// Whether the rate limit keeps a frame. It only drops frames: a source below
    /// the target rate keeps every one.
    pub fn should_keep_frame(&mut self, pts: i64) -> (r: bool)
        ensures
            final(self).id() == old(self).id(),
            r == old(self)@.keeps(pts),
            final(self)@ == if r {
                old(self)@.kept(pts)
            } else {
                old(self)@
            },
    {
        match self.frame_interval_ms {
            None => true,
            Some(interval) => {
                if interval <= 0 {
                    return true;
                }
                let slot: i64 = floor_div(pts, interval);
                if self.frames_encoded > 0 && slot <= self.last_kept_slot {
                    return false;
                }
                self.last_kept_slot = slot;
                true
            },
        }
    }

    /// Takes a decoded frame in: it gets its time, and the rate limit drops it or has
    /// it encoded.
    pub fn on_frame(&mut self, pts: Option<i64>) -> (r: FrameStep)
        requires
            old(self)@.frame_time(pts) <= i64::MAX,
        ensures
            final(self).id() == old(self).id(),
            (final(self)@, r) == old(self)@.frame(pts),
    {
        let time: i64 = self.frame_time(pts);
        if self.should_keep_frame(time) {
            FrameStep::Encode(time)
        } else {
            FrameStep::Drop
        }
    }

    /// Takes in whether a frame was encoded; one that failed does not count.
    pub fn on_encoded(&mut self, succeeded: bool)
        requires
            succeeded ==> old(self)@.frames_encoded < u64::MAX,
        ensures
            final(self).id() == old(self).id(),
            final(self)@ == old(self)@.encoded(succeeded),
    {
        if succeeded {
            self.frames_encoded = self.frames_encoded + 1;
        }
    }

    /// How many frames were encoded.
    pub fn frames_encoded_count(&self) -> (r: u64)
        ensures
            r == self@.frames_encoded,
    {
        self.frames_encoded
    }

    /// Settings of the encoder for a picture size: milliseconds as time base, and
    /// tuned so that each frame is emitted at once.
    pub fn encoder_settings(&self, width: i32, height: i32) -> (r: EncoderSettings)
        requires
            self@.bitrate_kbps * 1000 <= u64::MAX,
        ensures
            r.width == width,
            r.height == height,
            r.time_base == (Rational { num: 1, den: 1000 }),
            r.bit_rate == (self@.bitrate_kbps * 1000) as i64,
            r.gop_frames == self@.gop_frames,
            r.preset@ == self@.preset,
            r.tune@ == "zerolatency"@,
    {
        EncoderSettings {
            width,
            height,
            time_base: Rational { num: 1, den: 1000 },
            bit_rate: #[verifier::truncate]
            ((self.bitrate_kbps * 1000) as i64),
            gop_frames: self.gop_frames,
            preset: self.preset.clone(),
            tune: "zerolatency".to_owned(),
        }
    }

    /// Puts a synthesized H.264 sequence header before the first keyframe's
    /// output, and records the output parameters.
    ///
    /// Where the keyframe lacks parameter sets no header is emitted, then or
    /// later.
    pub fn maybe_emit_sequence_header(&mut self, out: &mut Vec<EncodedPacket>) -> (r: HeaderOutcome)
        ensures
            final(self).id() == old(self).id(),
            (final(self)@, packet_views(final(out)@), r) == old(self)@.with_header(
                packet_views(old(out)@),
            ),
    {
        if self.emitted_seq_header {
            return HeaderOutcome::NotDue;
        }
        let ghost pkts = packet_views(out@);
        let found = find_keyframe(out);
        match found {
            None => HeaderOutcome::NotDue,
            Some(k) => {
                proof {
                    lemma_first_keyframe(pkts);
                }
                assert(pkts[k as int] == out@[k as int]@);
                let sets = extract_sps_pps(bytes_as_slice(out[k].data.as_bytes()));
                self.emitted_seq_header = true;
                match sets {
                    Some((sps, pps)) => {
                        let record: Vec<u8> = build_avcc_record(sps.as_slice(), pps.as_slice());
                        let mut sps_pps: Vec<u8> = Vec::new();
                        push_slice(&mut sps_pps, sps.as_slice());
                        push_slice(&mut sps_pps, pps.as_slice());
                        assert(sps_pps@ =~= sps@ + pps@);
                        let header = EncodedPacket {
                            codec: Codec::H264,
                            stream_index: 0,
                            data: NalData::AnnexB(Bytes::new()),
                            pts_ms: None,
                            dts_ms: None,
                            is_keyframe: true,
                            is_sequence_header: true,
                            is_script_data: false,
                            extradata: Some(bytes_from_vec(record)),
                        };
                        let ghost before = out@;
                        out.insert(0, header);
                        let mut params: Vec<CodecParams> = Vec::new();
                        params.push(
                            CodecParams::new_video(
                                Codec::H264,
                                90000,
                                Some(bytes_from_vec(sps_pps)),
                            ),
                        );
                        self.output_params = params;
                        proof {
                            assert(packet_views(out@) =~= seq![header_packet(sps@, pps@)] + pkts);
                            assert(self@.output_params =~= seq![header_params(sps@, pps@)]);
                            assert(self@ =~= old(self)@.with_header(pkts).0);
                        }
                        HeaderOutcome::Emitted
                    },
                    None => HeaderOutcome::Skipped,
                }
            },
        }
    }

    /// The output parameters, empty until the sequence header was emitted.
    pub fn output_codec(&self) -> (r: &[CodecParams])
        ensures
            params_views(r@) == self@.output_params,
    {
        self.output_params.as_slice()
    }

    /// Whether packets are taken in: always, since no subscriber asks this stage
    /// for its output.
    pub fn should_process(&self) -> (r: bool)
        ensures
            r,
    {
        true
    }
}

impl Node for TranscodeProcessor {
    fn name(&self) -> (r: &str)
        ensures
            r@ == "transcode"@,
    {
        "transcode"
    }
}

proof fn lemma_first_keyframe(pkts: Seq<PacketView>)
    ensures
        match first_keyframe(pkts) {
            Some(i) => 0 <= i < pkts.len() && pkts[i].is_keyframe && !pkts[i].is_sequence_header,
            None => forall|k: int|
                0 <= k < pkts.len() ==> !((#[trigger] pkts[k]).is_keyframe
                    && !pkts[k].is_sequence_header),
        },
    decreases pkts.len(),
{
    if pkts.len() > 0 {
        let front = pkts.drop_last();
        lemma_first_keyframe(front);
        if first_keyframe(front) is None {
            assert forall|k: int| 0 <= k < pkts.len() - 1 implies !((
            #[trigger] pkts[k]).is_keyframe && !pkts[k].is_sequence_header) by {
                assert(front[k] == pkts[k]);
            }
        }
    }
}

proof fn lemma_first_keyframe_prefix(pkts: Seq<PacketView>, n: int)
    requires
        0 <= n <= pkts.len(),
        first_keyframe(pkts.take(n)) is Some,
    ensures
        first_keyframe(pkts) == first_keyframe(pkts.take(n)),
    decreases pkts.len() - n,
{
    if n < pkts.len() {
        assert(pkts.take(n + 1).drop_last() =~= pkts.take(n));
        lemma_first_keyframe_prefix(pkts, n + 1);
    } else {
        assert(pkts.take(n) =~= pkts);
    }
}

/// Finds the first keyframe that is no sequence header.
fn find_keyframe(out: &Vec<EncodedPacket>) -> (r: Option<usize>)
    ensures
        match first_keyframe(packet_views(out@)) {
            Some(i) => r matches Some(x) && x == i,
            None => r is None,
        },
{
    let ghost pkts = packet_views(out@);
    let mut i: usize = 0;
    assert(pkts.take(0) =~= Seq::empty());
    while i < out.len()
        invariant
            i <= out@.len(),
            pkts == packet_views(out@),
            first_keyframe(pkts.take(i as int)) is None,
        decreases out@.len() - i,
    {
        proof {
            assert(pkts.take(i + 1).drop_last() =~= pkts.take(i as int));
            assert(pkts.take(i + 1).last() == out@[i as int]@);
        }
        if out[i].is_keyframe && !out[i].is_sequence_header {
            proof {
                lemma_first_keyframe_prefix(pkts, i + 1);
            }
            return Some(i);
        }
        i = i + 1;
    }
    assert(pkts.take(i as int) =~= pkts);
    None
}

/// The sequence header is emitted at most once: after one was emitted or skipped,
/// later packets are left as they are.
pub proof fn law_header_is_emitted_once(
    s: TranscodeView,
    first: Seq<PacketView>,
    later: Seq<PacketView>,
)
    requires
        s.with_header(first).2 != HeaderOutcome::NotDue,
    ensures
        s.with_header(first).0.with_header(later).1 == later,
        s.with_header(first).0.with_header(later).2 == HeaderOutcome::NotDue,
{
}

/// What the header packet carries reads as the output parameters say: the raw
/// parameter sets of its record are the extradata of the output. Both sets must
/// fit the record's 16-bit lengths.
pub proof fn law_header_matches_output_params(sps: Seq<u8>, pps: Seq<u8>)
    requires
        4 <= sps.len() < 0x1_0000,
        pps.len() < 0x1_0000,
    ensures
        header_packet(sps, pps).extradata is Some,
        Some(raw_parameter_sets(Codec::H264, header_packet(sps, pps).extradata->0))
            == header_params(sps, pps).extradata,
{
    law_record_gives_sets_back(sps, pps);
}

/// A source at or below the target rate loses no frame: frames that lie an interval
/// or more apart are all kept, and so is every frame where the interval is less than
/// a millisecond.
pub proof fn law_slow_sources_keep_every_frame(s: TranscodeView, first: i64, later: i64)
    requires
        s.frame_interval_ms matches Some(i) && later - first >= i,
        s.last_kept_slot == s.slot(first) || s.frames_encoded == 0 || !s.is_limited(),
    ensures
        s.keeps(later),
{
    if s.is_limited() {
        let i = s.frame_interval_ms->0 as int;
        vstd::arithmetic::div_mod::lemma_fundamental_div_mod(first as int, i);
        vstd::arithmetic::div_mod::lemma_fundamental_div_mod(later as int, i);
        let a = s.slot(first);
        let b = s.slot(later);
        assert(b > a) by (nonlinear_arith)
            requires
                first == i * a + first as int % i,
                later == i * b + later as int % i,
                0 <= first as int % i < i,
                0 <= later as int % i < i,
                i > 0,
                later - first >= i,
        ;
    }
}

/// The slot of a time is a time itself.
proof fn lemma_slot_fits(s: TranscodeView, pts: i64)
    requires
        s.is_limited(),
    ensures
        i64::MIN <= s.slot(pts) <= i64::MAX,
{
    let i = s.frame_interval_ms->0 as int;
    vstd::arithmetic::div_mod::lemma_fundamental_div_mod(pts as int, i);
    let a = s.slot(pts);
    assert(-0x8000_0000_0000_0000 <= a <= 0x7fff_ffff_ffff_ffff) by (nonlinear_arith)
        requires
            pts == i * a + pts as int % i,
            0 <= pts as int % i < i,
            i > 0,
            -0x8000_0000_0000_0000 <= pts <= 0x7fff_ffff_ffff_ffff,
    ;
}

/// A later slot is later in time.
proof fn lemma_slots_order_times(s: TranscodeView, first: i64, later: i64)
    requires
        s.is_limited(),
        s.slot(later) > s.slot(first),
    ensures
        later > first,
{
    let i = s.frame_interval_ms->0 as int;
    vstd::arithmetic::div_mod::lemma_fundamental_div_mod(first as int, i);
    vstd::arithmetic::div_mod::lemma_fundamental_div_mod(later as int, i);
    let a = s.slot(first);
    let b = s.slot(later);
    assert(later > first) by (nonlinear_arith)
        requires
            first == i * a + first as int % i,
            later == i * b + later as int % i,
            0 <= first as int % i < i,
            0 <= later as int % i < i,
            i > 0,
            b > a,
    ;
}

/// A decoded frame: its own time, and whether it can be encoded.
pub struct Decoded {
    pub pts: Option<i64>,
    pub encodes: bool,
}

impl TranscodeView {
    /// A frame is worked off.
    pub open spec fn worked(self, f: Decoded) -> TranscodeView {
        let (taken, step) = self.frame(f.pts);
        if step is Encode {
            taken.encoded(f.encodes)
        } else {
            taken
        }
    }

    /// Frames are worked off one after the other.
    pub open spec fn worked_all(self, frames: Seq<Decoded>) -> TranscodeView
        decreases frames.len(),
    {
        if frames.len() == 0 {
            self
        } else {
            self.worked_all(frames.drop_last()).worked(frames.last())
        }
    }

    /// Whether all times and the count of a run of frames fit their 64 bits.
    pub open spec fn has_room_for(self, frames: Seq<Decoded>) -> bool
        decreases frames.len(),
    {
        frames.len() == 0 || {
            let before = self.worked_all(frames.drop_last());
            &&& self.has_room_for(frames.drop_last())
            &&& before.frame_time(frames.last().pts) <= i64::MAX
            &&& before.frames_encoded < u64::MAX
        }
    }

    /// The times of the frames of a run that were encoded.
    pub open spec fn encoded_times(self, frames: Seq<Decoded>) -> Seq<i64>
        decreases frames.len(),
    {
        if frames.len() == 0 {
            Seq::empty()
        } else {
            let front = self.encoded_times(frames.drop_last());
            match self.worked_all(frames.drop_last()).frame(frames.last().pts).1 {
                FrameStep::Encode(time) if frames.last().encodes => front.push(time),
                _ => front,
            }
        }
    }
}

/// Every frame encoded is counted, and no other. Until one was, every frame is to be
/// encoded.
pub proof fn law_encoded_frames_are_counted(s: TranscodeView, frames: Seq<Decoded>)
    requires
        s.has_room_for(frames),
    ensures
        s.worked_all(frames).frames_encoded == s.frames_encoded + s.encoded_times(frames).len(),
        forall|pts: Option<i64>|
            s.worked_all(frames).frames_encoded == 0 ==> (#[trigger] s.worked_all(frames).frame(
                pts,
            )).1 is Encode,
    decreases frames.len(),
{
    if frames.len() > 0 {
        law_encoded_frames_are_counted(s, frames.drop_last());
    }
}

/// The rate limit spaces frames out: of the frames of a run that are encoded, each
/// lies in a later time slot than those before it, and is later in time. A frame that
/// fails to be encoded changes nothing of that.
pub proof fn law_encoded_frames_advance(s: TranscodeView, frames: Seq<Decoded>)
    requires
        s.is_limited(),
        s.has_room_for(frames),
    ensures
        forall|i: int, j: int|
            0 <= i < j < s.encoded_times(frames).len() ==> s.slot(
                #[trigger] s.encoded_times(frames)[i],
            ) < s.slot(#[trigger] s.encoded_times(frames)[j]) && s.encoded_times(frames)[i]
                < s.encoded_times(frames)[j],
        s.worked_all(frames).frame_interval_ms == s.frame_interval_ms,
        forall|i: int|
            0 <= i < s.encoded_times(frames).len() ==> s.slot(
                #[trigger] s.encoded_times(frames)[i],
            ) <= s.worked_all(frames).last_kept_slot,
    decreases frames.len(),
{
    if frames.len() > 0 {
        let front = frames.drop_last();
        law_encoded_frames_advance(s, front);
        law_encoded_frames_are_counted(s, front);
        let before = s.worked_all(front);
        let time = before.frame_time(frames.last().pts) as i64;
        lemma_slot_fits(before, time);
        let old_times = s.encoded_times(front);
        let times = s.encoded_times(frames);
        assert forall|i: int, j: int| 0 <= i < j < times.len() implies s.slot(
            #[trigger] times[i],
        ) < s.slot(#[trigger] times[j]) && times[i] < times[j] by {
            assert(times[i] == old_times[i]);
            if j < old_times.len() {
                assert(times[j] == old_times[j]);
            } else {
                assert(times[j] == time);
                assert(before.frames_encoded > 0);
                lemma_slots_order_times(s, times[i], times[j]);
            }
        }
        assert forall|i: int| 0 <= i < times.len() implies s.slot(#[trigger] times[i])
            <= s.worked_all(frames).last_kept_slot by {
            if i < old_times.len() {
                assert(times[i] == old_times[i]);
                assert(before.frames_encoded > 0);
            }
        }
    }
}

/// The encoder's sizes are even and at most one less than the frame's. A frame goes to
/// it unscaled where it has the encoder's format and size; one without a positive size
/// is refused with the size it has.
pub proof fn law_frames_are_trimmed_to_even_sizes(width: i32, height: i32, is_yuv420p: bool)
    ensures
        match planned_frame(width, height, is_yuv420p) {
            Ok(plan) => {
                &&& width > 0 && height > 0
                &&& plan.width % 2 == 0 && plan.height % 2 == 0
                &&& width - 1 <= plan.width <= width
                &&& height - 1 <= plan.height <= height
                &&& plan.direct <==> is_yuv420p && plan.width == width && plan.height == height
            },
            Err(e) => (width <= 0 || height <= 0) && e.width == width && e.height == height,
        },
{
}

/// Of the streams announced, the first that is MJPEG is transcoded; where there is none
/// there is nothing to transcode.
pub proof fn law_first_mjpeg_stream_is_taken(params: Seq<CodecParams>)
    ensures
        match mjpeg_stream(params) {
            Some(p) => exists|i: int|
                0 <= i < params.len() && (#[trigger] params[i]).codec == Codec::Mjpeg && params[i]@
                    == p && forall|k: int|
                    0 <= k < i ==> (#[trigger] params[k]).codec != Codec::Mjpeg,
            None => forall|k: int|
                0 <= k < params.len() ==> (#[trigger] params[k]).codec != Codec::Mjpeg,
        },
    decreases params.len(),
{
    if params.len() > 0 && params[0].codec != Codec::Mjpeg {
        let tail = params.skip(1);
        law_first_mjpeg_stream_is_taken(tail);
        match mjpeg_stream(tail) {
            Some(p) => {
                let i = choose|i: int|
                    0 <= i < tail.len() && (#[trigger] tail[i]).codec == Codec::Mjpeg && tail[i]@
                        == p && forall|k: int|
                        0 <= k < i ==> (#[trigger] tail[k]).codec != Codec::Mjpeg;
                assert(params[i + 1] == tail[i]);
                assert forall|k: int| 0 <= k < i + 1 implies (#[trigger] params[k]).codec
                    != Codec::Mjpeg by {
                    if k > 0 {
                        assert(tail[k - 1] == params[k]);
                    }
                }
            },
            None => {
                assert forall|k: int| 0 <= k < params.len() implies (#[trigger] params[k]).codec
                    != Codec::Mjpeg by {
                    if k > 0 {
                        assert(tail[k - 1] == params[k]);
                    }
                }
            },
        }
    }
}

/// Only MJPEG is touched: other packets are handed on, alone and unchanged. A sequence
/// header of MJPEG leaves nothing, and every other MJPEG packet is to be transcoded.
pub proof fn law_only_mjpeg_is_transcoded(p: TranscodeProcessor, pkt: EncodedPacket, r: Processed)
    requires
        call_ensures(TranscodeProcessor::process, (&p, pkt), r),
    ensures
        pkt.codec != Codec::Mjpeg <==> (r matches Processed::Done(out) && out@.len() == 1 && out@[0]
            == pkt),
        pkt.codec == Codec::Mjpeg && pkt.is_sequence_header <==> (r matches Processed::Done(out)
            && out@.len() == 0),
        pkt.codec == Codec::Mjpeg && !pkt.is_sequence_header <==> r == Processed::Transcode(pkt),
{
}

/// A frame keeps its own time; one without a time comes 33 milliseconds after the frame
/// before it, whether that one was dropped or not.
pub proof fn law_frames_without_time_advance(s: TranscodeView, p: Option<i64>, q: Option<i64>)
    requires
        s.frame_time(p) <= i64::MAX,
        s.frame(p).0.frame_time(q) <= i64::MAX,
    ensures
        p is Some ==> s.frame(p).0.last_pts == p->0,
        p is None ==> s.frame(p).0.last_pts == s.last_pts + 33,
        q is None ==> s.frame(p).0.frame(q).0.last_pts == s.frame(p).0.last_pts + 33,
        s.frame(p).1 matches FrameStep::Encode(time) ==> time == s.frame(p).0.last_pts,
        s.frame(p).0.frames_encoded == s.frames_encoded,
        s.frame(p).0.emitted_seq_header == s.emitted_seq_header,
        s.frame(p).0.output_params == s.output_params,
{
}

/// Time slots are an interval long, starting at time zero.
pub proof fn law_slots_are_an_interval_long(s: TranscodeView, pts: i64)
    requires
        s.is_limited(),
    ensures
        ({
            let i = s.frame_interval_ms->0;
            &&& i > 0
            &&& i * s.slot(pts) <= pts
            &&& pts < i * s.slot(pts) + i
        }),
{
    vstd::arithmetic::div_mod::lemma_fundamental_div_mod(
        pts as int,
        s.frame_interval_ms->0 as int,
    );
}

/// Within an interval one frame is kept: after a frame was kept and encoded, another of
/// the same slot or of one before it is dropped, and one of a later slot is kept.
/// Without an interval of a millisecond or more none is dropped.
pub proof fn law_one_frame_is_kept_per_slot(s: TranscodeView, first: i64, later: i64)
    requires
        s.frames_encoded < u64::MAX,
        s.frame(Some(first)).1 is Encode,
    ensures
        ({
            let after = s.frame(Some(first)).0.encoded(true);
            let step = after.frame(Some(later)).1;
            match s.frame_interval_ms {
                Some(i) if i > 0 => step == FrameStep::Drop <==> later as int / i as int
                    <= first as int / i as int,
                _ => step == FrameStep::Encode(later),
            }
        }),
{
    if s.is_limited() {
        lemma_slot_fits(s, first);
    }
}

/// An encoded frame is an H.264 packet with the encoder's bytes and times, its PTS
/// standing in for a missing DTS. It is a keyframe where the encoder says so, and no
/// header.
pub proof fn law_encoded_packets_are_the_encoders(pkt: PacketFields, r: EncodedPacket)
    requires
        call_ensures(encoded_packet, (&pkt,), r),
    ensures
        r@.codec == Codec::H264,
        r@.data.raw() == bytes_of(pkt.data),
        r@.data is AnnexB,
        r@.pts_ms is None <==> pkt.pts == i64::MIN,
        pkt.pts != i64::MIN ==> r@.pts_ms == Some(pkt.pts),
        pkt.dts != i64::MIN ==> r@.dts_ms == Some(pkt.dts),
        pkt.dts == i64::MIN ==> r@.dts_ms == r@.pts_ms,
        r@.is_keyframe <==> pkt.key_frame,
        !r@.is_sequence_header && !r@.is_script_data && r@.extradata is None,
        r@.stream_index == 0,
{
}

/// The encoder is set up for the picture's size, in milliseconds, with the bits per
/// second of the configured kilobits, and tuned for low latency.
pub proof fn law_encoder_is_set_up_as_configured(
    p: TranscodeProcessor,
    width: i32,
    height: i32,
    r: EncoderSettings,
)
    requires
        p@.bitrate_kbps * 1000 <= i64::MAX,
        call_ensures(TranscodeProcessor::encoder_settings, (&p, width, height), r),
    ensures
        r.width == width && r.height == height,
        r.time_base.den == 1000 * r.time_base.num && r.time_base.num == 1,
        r.bit_rate == 1000 * p@.bitrate_kbps,
        r.gop_frames == p@.gop_frames,
        r.preset@ == p@.preset,
        r.tune@ == "zerolatency"@,
{
}

/// The header comes with the first keyframe, before all packets, which follow it
/// unchanged. It is a keyframe and a sequence header without data or time; its record
/// holds the keyframe's parameter sets, and the output is announced with the same sets.
pub proof fn law_header_comes_first(s: TranscodeView, pkts: Seq<PacketView>, k: int)
    requires
        !s.emitted_seq_header,
        0 <= k < pkts.len(),
        pkts[k].is_keyframe && !pkts[k].is_sequence_header,
        forall|j: int|
            0 <= j < k ==> !((#[trigger] pkts[j]).is_keyframe && !pkts[j].is_sequence_header),
    ensures
        s.with_header(pkts).0.emitted_seq_header,
        match parameter_sets(pkts[k].data.raw()) {
            Some((sps, pps)) => {
                let (after, out, outcome) = s.with_header(pkts);
                &&& outcome == HeaderOutcome::Emitted
                &&& out.len() == pkts.len() + 1
                &&& out.skip(1) == pkts
                &&& out[0].codec == Codec::H264
                &&& out[0].stream_index == 0
                &&& out[0].data.raw().len() == 0
                &&& out[0].is_keyframe && out[0].is_sequence_header && !out[0].is_script_data
                &&& out[0].pts_ms is None && out[0].dts_ms is None
                &&& out[0].extradata == Some(avcc_record(sps, pps))
                &&& after.output_params.len() == 1
                &&& after.output_params[0].codec == Codec::H264
                &&& after.output_params[0].media_type == MediaType::Video
                &&& after.output_params[0].clock_rate == 90000
                &&& after.output_params[0].extradata == Some(sps + pps)
            },
            None => s.with_header(pkts).1 == pkts && s.with_header(pkts).2
                == HeaderOutcome::Skipped && s.with_header(pkts).0.output_params
                == s.output_params,
        },
{
    lemma_first_keyframe_at(pkts, k);
    let out = s.with_header(pkts).1;
    if s.with_header(pkts).2 == HeaderOutcome::Emitted {
        assert(out.skip(1) =~= pkts);
    }
}

proof fn lemma_first_keyframe_at(pkts: Seq<PacketView>, k: int)
    requires
        0 <= k < pkts.len(),
        pkts[k].is_keyframe && !pkts[k].is_sequence_header,
        forall|j: int|
            0 <= j < k ==> !((#[trigger] pkts[j]).is_keyframe && !pkts[j].is_sequence_header),
    ensures
        first_keyframe(pkts) == Some(k),
{
    let front = pkts.take(k);
    lemma_first_keyframe(front);
    if let Some(i) = first_keyframe(front) {
        assert(front[i] == pkts[i]);
    }
    assert(pkts.take(k + 1).drop_last() =~= front);
    assert(pkts.take(k + 1).last() == pkts[k]);
    lemma_first_keyframe_prefix(pkts, k + 1);
}

/// Until a keyframe comes packets are left as they are, and a header is still to come.
pub proof fn law_no_header_before_a_keyframe(s: TranscodeView, pkts: Seq<PacketView>)
    requires
        forall|j: int|
            0 <= j < pkts.len() ==> !((#[trigger] pkts[j]).is_keyframe
                && !pkts[j].is_sequence_header),
    ensures
        s.with_header(pkts) == (s, pkts, HeaderOutcome::NotDue),
{
    lemma_first_keyframe(pkts);
}

} // verus!
