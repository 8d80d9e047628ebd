//! FLV tags to packets of the codec library.
//!
//! The packetizer decides what becomes of a tag. Creating and running the
//! bitstream filter that turns AVCC into Annex B is the caller's part: a step
//! says when the filter is to be created and which packet goes through it.
use crate::bits::lemma_byte_fields;
use crate::buffer::{bytes_as_slice, bytes_of};
use crate::codec::packet::PacketView;
use crate::flv::mapping::{law_tags_belong_to_first_stream, mapping_of, FlvStreamMapping};
use crate::flv::mux::{audio_tag, audio_tag_payload, framed_media, tag_timestamp, video_dts_ms, video_tag, video_tag_payload};
use crate::flv::tag::{FlvTag, FlvTagView};
use crate::media::stream::{Rational, StaticStreamCollection, StaticStreamView};
use crate::text::{decimal, push_decimal};
use crate::types::{Codec, MediaType};
use bytes::Bytes;
use vstd::prelude::*;
use vstd::slice::{slice_subrange, slice_to_vec};

verus! {

/// A packet to be made of a tag: its timestamp, in milliseconds, is to be
/// rescaled to the stream's time base.
#[derive(Debug)]
pub struct PacketPlan {
    pub payload: Vec<u8>,
    pub timestamp_ms: u32,
    pub time_base: Rational,
    pub is_keyframe: bool,
    pub stream_index: usize,
}

/// `PacketPlan` with the payload as a sequence.
#[verifier::ext_equal]
pub struct PacketPlanView {
    pub payload: Seq<u8>,
    pub timestamp_ms: u32,
    pub time_base: Rational,
    pub is_keyframe: bool,
    pub stream_index: usize,
}

impl View for PacketPlan {
    type V = PacketPlanView;

    open spec fn view(&self) -> PacketPlanView {
        PacketPlanView {
            payload: self.payload@,
            timestamp_ms: self.timestamp_ms,
            time_base: self.time_base,
            is_keyframe: self.is_keyframe,
            stream_index: self.stream_index,
        }
    }
}

/// What a tag asks for.
#[derive(Debug)]
pub enum PacketizeStep {
    /// No packet.
    Nothing,
    /// Create the H.264 filter for this decoder configuration record.
    CreateFilter(Vec<u8>),
    /// Pass this packet through the H.264 filter.
    Filter(PacketPlan),
    /// Emit this packet.
    Emit(PacketPlan),
}

/// `PacketizeStep` with its contents as views.
#[verifier::ext_equal]
pub enum PacketizeStepView {
    Nothing,
    CreateFilter(Seq<u8>),
    Filter(PacketPlanView),
    Emit(PacketPlanView),
}

impl View for PacketizeStep {
    type V = PacketizeStepView;

    open spec fn view(&self) -> PacketizeStepView {
        match self {
            PacketizeStep::Nothing => PacketizeStepView::Nothing,
            PacketizeStep::CreateFilter(d) => PacketizeStepView::CreateFilter(d@),
            PacketizeStep::Filter(p) => PacketizeStepView::Filter(p@),
            PacketizeStep::Emit(p) => PacketizeStepView::Emit(p@),
        }
    }
}

/// Why a tag cannot be packetized.
#[derive(Clone, Copy, Debug, PartialEq, Eq, Structural)]
pub enum PacketizeError {
    VideoPayloadSize(usize),
    VideoCodec(u8),
    VideoPacketType(u8),
    MissingVideoHeader,
    NoVideoStream,
    AudioPayloadSize(usize),
    AacPacketType(u8),
    MissingAudioHeader,
    NoAudioStream,
    AudioConfigSize(usize),
    AudioObjectType,
}

/// The words of an error and the number they end in, if any.
pub open spec fn packetize_error_text(e: PacketizeError) -> (Seq<char>, Option<nat>) {
    match e {
        PacketizeError::VideoPayloadSize(n) => (
            "Invalid FLV video payload size: "@,
            Some(n as nat),
        ),
        PacketizeError::VideoCodec(n) => ("Unsupported FLV video codec id: "@, Some(n as nat)),
        PacketizeError::VideoPacketType(n) => ("Unsupported AVC packet type: "@, Some(n as nat)),
        PacketizeError::MissingVideoHeader => (
            "AVC sequence header missing before video frame"@,
            None,
        ),
        PacketizeError::NoVideoStream => ("Video stream not found in stream collection"@, None),
        PacketizeError::AudioPayloadSize(n) => (
            "Invalid FLV audio payload size: "@,
            Some(n as nat),
        ),
        PacketizeError::AacPacketType(n) => ("Unsupported AAC packet type: "@, Some(n as nat)),
        PacketizeError::MissingAudioHeader => (
            "AAC sequence header missing before raw frame"@,
            None,
        ),
        PacketizeError::NoAudioStream => ("Audio stream not found in stream collection"@, None),
        PacketizeError::AudioConfigSize(n) => (
            "AAC AudioSpecificConfig too short: "@,
            Some(n as nat),
        ),
        PacketizeError::AudioObjectType => ("Invalid AAC audio object type: 0"@, None),
    }
}

impl PacketizeError {
    /// The error as text.
    pub fn message(&self) -> (r: String)
        ensures
            r@ == match packetize_error_text(*self) {
                (words, Some(n)) => words + decimal(n),
                (words, None) => words,
            },
    {
        let (words, number): (&str, Option<u64>) = match self {
            PacketizeError::VideoPayloadSize(n) => (
                "Invalid FLV video payload size: ",
                Some(*n as u64),
            ),
            PacketizeError::VideoCodec(n) => ("Unsupported FLV video codec id: ", Some(*n as u64)),
            PacketizeError::VideoPacketType(n) => (
                "Unsupported AVC packet type: ",
                Some(*n as u64),
            ),
            PacketizeError::MissingVideoHeader => (
                "AVC sequence header missing before video frame",
                None,
            ),
            PacketizeError::NoVideoStream => ("Video stream not found in stream collection", None),
            PacketizeError::AudioPayloadSize(n) => (
                "Invalid FLV audio payload size: ",
                Some(*n as u64),
            ),
            PacketizeError::AacPacketType(n) => ("Unsupported AAC packet type: ", Some(*n as u64)),
            PacketizeError::MissingAudioHeader => (
                "AAC sequence header missing before raw frame",
                None,
            ),
            PacketizeError::NoAudioStream => ("Audio stream not found in stream collection", None),
            PacketizeError::AudioConfigSize(n) => (
                "AAC AudioSpecificConfig too short: ",
                Some(*n as u64),
            ),
            PacketizeError::AudioObjectType => ("Invalid AAC audio object type: 0", None),
        };
        let mut text: String = words.to_owned();
        if let Some(n) = number {
            push_decimal(&mut text, n);
        }
        text
    }
}

/// Turns FLV tags into packets.
///
/// Caches the AVC decoder configuration record and the AAC AudioSpecificConfig,
/// so that they can be applied to the output context.
#[derive(Debug)]
pub struct FlvTagPacketizer {
    avc_config_raw: Option<Vec<u8>>,
    aac_asc_raw: Option<Vec<u8>>,
    has_filter: bool,
    /// Built on the first tag and kept: the streams do not change.
    mapping: Option<FlvStreamMapping>,
}

/// The state of an `FlvTagPacketizer`.
#[verifier::ext_equal]
pub struct PacketizerView {
    pub avc_config: Option<Seq<u8>>,
    pub aac_config: Option<Seq<u8>>,
    pub has_filter: bool,
    pub mapping: Option<FlvStreamMapping>,
}

/// An outcome of packetizing: the state afterwards and the step or error.
pub struct PacketizeOutcome {
    pub state: PacketizerView,
    pub step: Result<PacketizeStepView, PacketizeError>,
}

/// Whether an AudioSpecificConfig is acceptable: two bytes at least and an
/// object type (the top five bits) other than 0.
pub open spec fn aac_config_check(data: Seq<u8>) -> Result<(), PacketizeError> {
    if data.len() < 2 {
        Err(PacketizeError::AudioConfigSize(data.len() as usize))
    } else if data[0] as int / 8 == 0 {
        Err(PacketizeError::AudioObjectType)
    } else {
        Ok(())
    }
}

impl PacketizerView {
    /// The mapping in force for a tag: the cached one, else the streams' own.
    pub open spec fn mapping_for(self, streams: Seq<StaticStreamView>) -> FlvStreamMapping {
        match self.mapping {
            Some(m) => m,
            None => mapping_of(streams),
        }
    }

    /// A video tag: a sequence header is cached, a frame goes through the filter,
    /// the end of the sequence is nothing.
    pub open spec fn video(
        self,
        timestamp: u32,
        payload: Seq<u8>,
        is_keyframe: bool,
        mapping: FlvStreamMapping,
    ) -> PacketizeOutcome {
        if payload.len() < 5 {
            PacketizeOutcome {
                state: self,
                step: Err(PacketizeError::VideoPayloadSize(payload.len() as usize)),
            }
        } else if payload[0] as int % 16 != 7 {
            PacketizeOutcome {
                state: self,
                step: Err(PacketizeError::VideoCodec((payload[0] as int % 16) as u8)),
            }
        } else if payload[1] == 0 {
            PacketizeOutcome {
                state: PacketizerView { avc_config: Some(payload.skip(5)), ..self },
                step: Ok(PacketizeStepView::CreateFilter(payload.skip(5))),
            }
        } else if payload[1] == 1 {
            PacketizeOutcome {
                state: self,
                step: match mapping.video {
                    None => Err(PacketizeError::NoVideoStream),
                    Some((stream_index, time_base)) => if self.has_filter {
                        Ok(
                            PacketizeStepView::Filter(
                                PacketPlanView {
                                    payload: payload.skip(5),
                                    timestamp_ms: timestamp,
                                    time_base,
                                    is_keyframe,
                                    stream_index,
                                },
                            ),
                        )
                    } else {
                        Err(PacketizeError::MissingVideoHeader)
                    },
                },
            }
        } else if payload[1] == 2 {
            PacketizeOutcome { state: self, step: Ok(PacketizeStepView::Nothing) }
        } else {
            PacketizeOutcome {
                state: self,
                step: Err(PacketizeError::VideoPacketType(payload[1])),
            }
        }
    }

    /// An AAC tag: the sequence header is checked and cached, a frame is emitted
    /// once the header is known.
    pub open spec fn aac(
        self,
        timestamp: u32,
        packet_type: u8,
        payload: Seq<u8>,
        mapping: FlvStreamMapping,
    ) -> PacketizeOutcome {
        if packet_type == 0 {
            match aac_config_check(payload) {
                Ok(_) => PacketizeOutcome {
                    state: PacketizerView { aac_config: Some(payload), ..self },
                    step: Ok(PacketizeStepView::Nothing),
                },
                Err(e) => PacketizeOutcome { state: self, step: Err(e) },
            }
        } else if packet_type == 1 {
            PacketizeOutcome {
                state: self,
                step: if self.aac_config is None {
                    Err(PacketizeError::MissingAudioHeader)
                } else {
                    audio_emission(timestamp, payload, mapping)
                },
            }
        } else {
            PacketizeOutcome { state: self, step: Err(PacketizeError::AacPacketType(packet_type)) }
        }
    }

    /// An audio tag: AAC by its packet type, other formats as they are.
    pub open spec fn audio(
        self,
        timestamp: u32,
        payload: Seq<u8>,
        mapping: FlvStreamMapping,
    ) -> PacketizeOutcome {
        if payload.len() < 2 {
            PacketizeOutcome {
                state: self,
                step: Err(PacketizeError::AudioPayloadSize(payload.len() as usize)),
            }
        } else if payload[0] as int / 16 == 10 {
            self.aac(timestamp, payload[1], payload.skip(2), mapping)
        } else {
            PacketizeOutcome {
                state: self,
                step: audio_emission(timestamp, payload.skip(1), mapping),
            }
        }
    }

    /// Any tag. The mapping is cached whatever becomes of the tag.
    pub open spec fn packetize(
        self,
        tag: FlvTagView,
        streams: Seq<StaticStreamView>,
    ) -> PacketizeOutcome {
        let mapping = self.mapping_for(streams);
        let cached = PacketizerView { mapping: Some(mapping), ..self };
        match tag {
            FlvTagView::Audio { timestamp, payload } => cached.audio(timestamp, payload, mapping),
            FlvTagView::Video { timestamp, payload, is_keyframe } => cached.video(
                timestamp,
                payload,
                is_keyframe,
                mapping,
            ),
            FlvTagView::ScriptData(_) => PacketizeOutcome {
                state: cached,
                step: Ok(PacketizeStepView::Nothing),
            },
        }
    }
}

/// An audio packet for the audio stream, if there is one.
pub open spec fn audio_emission(
    timestamp: u32,
    payload: Seq<u8>,
    mapping: FlvStreamMapping,
) -> Result<PacketizeStepView, PacketizeError> {
    match mapping.audio {
        None => Err(PacketizeError::NoAudioStream),
        Some((stream_index, time_base)) => Ok(
            PacketizeStepView::Emit(
                PacketPlanView {
                    payload,
                    timestamp_ms: timestamp,
                    time_base,
                    is_keyframe: false,
                    stream_index,
                },
            ),
        ),
    }
}

/// Whether a result is the one described.
pub open spec fn is_step(
    r: Result<PacketizeStep, PacketizeError>,
    v: Result<PacketizeStepView, PacketizeError>,
) -> bool {
    match v {
        Ok(step) => r matches Ok(s) && s@ == step,
        Err(e) => r matches Err(x) && x == e,
    }
}

/// Validates an AAC AudioSpecificConfig.
pub fn validate_aac_audio_config(data: &[u8]) -> (r: Result<(), PacketizeError>)
    ensures
        r == aac_config_check(data@),
{
    if data.len() < 2 {
        return Err(PacketizeError::AudioConfigSize(data.len()));
    }
    proof {
        lemma_byte_fields(data@[0]);
    }
    let audio_object_type: u8 = data[0] >> 3;
    if audio_object_type == 0 {
        return Err(PacketizeError::AudioObjectType);
    }
    Ok(())
}

fn emit_audio(timestamp: u32, payload: &[u8], mapping: &FlvStreamMapping) -> (r: Result<
    PacketizeStep,
    PacketizeError,
>)
    ensures
        is_step(r, audio_emission(timestamp, payload@, *mapping)),
{
    match mapping.audio {
        None => Err(PacketizeError::NoAudioStream),
        Some((stream_index, time_base)) => Ok(
            PacketizeStep::Emit(
                PacketPlan {
                    payload: slice_to_vec(payload),
                    timestamp_ms: timestamp,
                    time_base,
                    is_keyframe: false,
                    stream_index,
                },
            ),
        ),
    }
}

impl View for FlvTagPacketizer {
    type V = PacketizerView;

    closed spec fn view(&self) -> PacketizerView {
        PacketizerView {
            avc_config: match self.avc_config_raw {
                Some(v) => Some(v@),
                None => None,
            },
            aac_config: match self.aac_asc_raw {
                Some(v) => Some(v@),
                None => None,
            },
            has_filter: self.has_filter,
            mapping: self.mapping,
        }
    }
}

impl Default for FlvTagPacketizer {
    fn default() -> (r: Self)
        ensures
            r@ == (PacketizerView {
                avc_config: None,
                aac_config: None,
                has_filter: false,
                mapping: None,
            }),
    {
        FlvTagPacketizer {
            avc_config_raw: None,
            aac_asc_raw: None,
            has_filter: false,
            mapping: None,
        }
    }
}

impl FlvTagPacketizer {
    /// A packetizer that has seen nothing.
    pub fn new() -> (r: Self)
        ensures
            r@ == (PacketizerView {
                avc_config: None,
                aac_config: None,
                has_filter: false,
                mapping: None,
            }),
    {
        FlvTagPacketizer {
            avc_config_raw: None,
            aac_asc_raw: None,
            has_filter: false,
            mapping: None,
        }
    }

    /// Decides what becomes of one tag.
    ///
    /// Sequence headers are cached and give no packet. Video frames pass through
    /// the H.264 filter.
    pub fn packetize(&mut self, tag: &FlvTag, streams: &StaticStreamCollection) -> (r: Result<
        PacketizeStep,
        PacketizeError,
    >)
        ensures
            final(self)@ == old(self)@.packetize(tag@, streams@).state,
            is_step(r, old(self)@.packetize(tag@, streams@).step),
    {
        let mapping = match self.mapping {
            Some(m) => m,
            None => FlvStreamMapping::from_streams(streams),
        };
        self.mapping = Some(mapping);
        match tag {
            FlvTag::Audio { timestamp, payload } => self.packetize_audio(
                *timestamp,
                payload,
                &mapping,
            ),
            FlvTag::Video { timestamp, payload, is_keyframe } => self.packetize_video(
                *timestamp,
                payload,
                *is_keyframe,
                &mapping,
            ),
            FlvTag::ScriptData(_) => Ok(PacketizeStep::Nothing),
        }
    }

    /// Records that the filter asked for was created.
    pub fn filter_created(&mut self)
        ensures
            final(self)@ == (PacketizerView { has_filter: true, ..old(self)@ }),
    {
        self.has_filter = true;
    }

    /// The cached decoder configuration record, to be set on the video stream of
    /// an output context.
    pub fn video_extradata(&self) -> (r: Option<&[u8]>)
        ensures
            match self@.avc_config {
                Some(c) => r matches Some(s) && s@ == c,
                None => r is None,
            },
    {
        match &self.avc_config_raw {
            Some(v) => Some(v.as_slice()),
            None => None,
        }
    }

    /// The cached AudioSpecificConfig, to be set on the audio stream of an output
    /// context.
    pub fn audio_extradata(&self) -> (r: Option<&[u8]>)
        ensures
            match self@.aac_config {
                Some(c) => r matches Some(s) && s@ == c,
                None => r is None,
            },
    {
        match &self.aac_asc_raw {
            Some(v) => Some(v.as_slice()),
            None => None,
        }
    }

    fn packetize_video(
        &mut self,
        timestamp: u32,
        payload: &Bytes,
        is_keyframe: bool,
        mapping: &FlvStreamMapping,
    ) -> (r: Result<PacketizeStep, PacketizeError>)
        ensures
            final(self)@ == old(self)@.video(
                timestamp,
                bytes_of(*payload),
                is_keyframe,
                *mapping,
            ).state,
            is_step(
                r,
                old(self)@.video(timestamp, bytes_of(*payload), is_keyframe, *mapping).step,
            ),
    {
        let data: &[u8] = bytes_as_slice(payload);
        if data.len() < 5 {
            return Err(PacketizeError::VideoPayloadSize(data.len()));
        }
        proof {
            lemma_byte_fields(data@[0]);
        }
        let codec_id: u8 = data[0] & 0x0F;
        if codec_id != 7 {
            return Err(PacketizeError::VideoCodec(codec_id));
        }
        let avc_payload: &[u8] = slice_subrange(data, 5, data.len());
        assert(avc_payload@ =~= data@.skip(5));
        match data[1] {
            0 => {
                let record: Vec<u8> = slice_to_vec(avc_payload);
                self.avc_config_raw = Some(slice_to_vec(avc_payload));
                Ok(PacketizeStep::CreateFilter(record))
            },
            1 => match mapping.video {
                None => Err(PacketizeError::NoVideoStream),
                Some((stream_index, time_base)) => {
                    if !self.has_filter {
                        return Err(PacketizeError::MissingVideoHeader);
                    }
                    Ok(
                        PacketizeStep::Filter(
                            PacketPlan {
                                payload: slice_to_vec(avc_payload),
                                timestamp_ms: timestamp,
                                time_base,
                                is_keyframe,
                                stream_index,
                            },
                        ),
                    )
                },
            },
            2 => Ok(PacketizeStep::Nothing),
            x => Err(PacketizeError::VideoPacketType(x)),
        }
    }

    fn packetize_audio(&mut self, timestamp: u32, payload: &Bytes, mapping: &FlvStreamMapping) -> (r:
        Result<PacketizeStep, PacketizeError>)
        ensures
            final(self)@ == old(self)@.audio(timestamp, bytes_of(*payload), *mapping).state,
            is_step(r, old(self)@.audio(timestamp, bytes_of(*payload), *mapping).step),
    {
        let data: &[u8] = bytes_as_slice(payload);
        if data.len() < 2 {
            return Err(PacketizeError::AudioPayloadSize(data.len()));
        }
        proof {
            lemma_byte_fields(data@[0]);
        }
        let sound_format: u8 = data[0] >> 4;
        if sound_format == 10 {
            let aac_payload: &[u8] = slice_subrange(data, 2, data.len());
            assert(aac_payload@ =~= data@.skip(2));
            return self.packetize_aac(timestamp, data[1], aac_payload, mapping);
        }
        let raw_audio: &[u8] = slice_subrange(data, 1, data.len());
        assert(raw_audio@ =~= data@.skip(1));
        emit_audio(timestamp, raw_audio, mapping)
    }

    fn packetize_aac(
        &mut self,
        timestamp: u32,
        aac_packet_type: u8,
        aac_payload: &[u8],
        mapping: &FlvStreamMapping,
    ) -> (r: Result<PacketizeStep, PacketizeError>)
        ensures
            final(self)@ == old(self)@.aac(
                timestamp,
                aac_packet_type,
                aac_payload@,
                *mapping,
            ).state,
            is_step(
                r,
                old(self)@.aac(timestamp, aac_packet_type, aac_payload@, *mapping).step,
            ),
    {
        match aac_packet_type {
            0 => match validate_aac_audio_config(aac_payload) {
                Ok(_) => {
                    self.aac_asc_raw = Some(slice_to_vec(aac_payload));
                    Ok(PacketizeStep::Nothing)
                },
                Err(e) => Err(e),
            },
            1 => {
                if self.aac_asc_raw.is_none() {
                    return Err(PacketizeError::MissingAudioHeader);
                }
                emit_audio(timestamp, aac_payload, mapping)
            },
            x => Err(PacketizeError::AacPacketType(x)),
        }
    }
}

/// Packetizing undoes muxing: the tag of an H.264 packet gives back what went
/// into it. The header's record is handed to the filter; a frame, with the filter
/// in place, comes out with its framed data, its keyframe flag and its tag time.
pub proof fn law_packetize_inverts_video_mux(
    state: PacketizerView,
    avcc_framing: bool,
    pkt: PacketView,
    streams: Seq<StaticStreamView>,
)
    requires
        pkt.codec == Codec::H264,
        state.mapping_for(streams).video is Some,
    ensures
        ({
            let step = state.packetize(video_tag(avcc_framing, pkt), streams).step;
            if pkt.is_sequence_header {
                step == Ok::<_, PacketizeError>(
                    PacketizeStepView::CreateFilter(
                        match pkt.extradata {
                            Some(e) => e,
                            None => Seq::empty(),
                        },
                    ),
                )
            } else if state.has_filter {
                step matches Ok(PacketizeStepView::Filter(p)) && p.payload
                    == framed_media(avcc_framing, pkt.data.raw()) && p.is_keyframe
                    == pkt.is_keyframe && p.timestamp_ms == tag_timestamp(
                    video_dts_ms(pkt),
                )
            } else {
                step == Err::<PacketizeStepView, _>(PacketizeError::MissingVideoHeader)
            }
        }),
{
    let payload = video_tag_payload(avcc_framing, pkt);
    let body = if pkt.is_sequence_header {
        match pkt.extradata {
            Some(e) => e,
            None => Seq::empty(),
        }
    } else {
        framed_media(avcc_framing, pkt.data.raw())
    };
    assert(payload.skip(5) =~= body);
}

/// Packetizing undoes muxing for AAC: a frame comes back unchanged once a header
/// is known, and never before.
pub proof fn law_packetize_inverts_audio_mux(
    state: PacketizerView,
    pkt: PacketView,
    streams: Seq<StaticStreamView>,
)
    requires
        pkt.codec == Codec::Aac,
        !pkt.is_sequence_header,
        state.mapping_for(streams).audio is Some,
    ensures
        ({
            let step = state.packetize(audio_tag(pkt), streams).step;
            if state.aac_config is Some {
                step matches Ok(PacketizeStepView::Emit(p)) && p.payload == pkt.data.raw()
            } else {
                step == Err::<PacketizeStepView, _>(PacketizeError::MissingAudioHeader)
            }
        }),
{
    let payload = audio_tag_payload(pkt);
    assert(payload.skip(2) =~= pkt.data.raw());
}

/// What an AVC tag asks for is told by its second byte: 0 hands the rest to the filter
/// as the record to be cached, 1 sends the rest through the filter, 2 is nothing, and
/// any other is refused.
pub proof fn law_video_tags_by_packet_type(
    s: PacketizerView,
    timestamp: u32,
    payload: Seq<u8>,
    is_keyframe: bool,
    streams: Seq<StaticStreamView>,
)
    requires
        payload.len() >= 5,
        payload[0] % 16 == 7,
    ensures
        ({
            let out = s.packetize(
                FlvTagView::Video { timestamp, payload, is_keyframe },
                streams,
            );
            &&& payload[1] == 0 ==> out.step == Ok::<PacketizeStepView, PacketizeError>(
                PacketizeStepView::CreateFilter(payload.skip(5)),
            ) && out.state.avc_config == Some(payload.skip(5))
            &&& payload[1] != 0 ==> out.state.avc_config == s.avc_config
            &&& payload[1] == 2 ==> out.step == Ok::<PacketizeStepView, PacketizeError>(
                PacketizeStepView::Nothing,
            )
            &&& payload[1] > 2 ==> out.step == Err::<PacketizeStepView, PacketizeError>(
                PacketizeError::VideoPacketType(payload[1]),
            )
            &&& out.state.aac_config == s.aac_config && out.state.has_filter == s.has_filter
        }),
{
}

/// A frame goes to the video stream's index and time base at its tag's time; it needs
/// that stream and a filter.
pub proof fn law_frames_go_to_the_video_stream(
    s: PacketizerView,
    timestamp: u32,
    payload: Seq<u8>,
    is_keyframe: bool,
    streams: Seq<StaticStreamView>,
    i: int,
)
    requires
        payload.len() >= 5,
        payload[0] % 16 == 7,
        payload[1] == 1,
        s.mapping is None,
        0 <= i < streams.len(),
        streams[i].codec_params.media_type == MediaType::Video,
        forall|k: int|
            0 <= k < i ==> (#[trigger] streams[k]).codec_params.media_type != MediaType::Video,
    ensures
        ({
            let out = s.packetize(
                FlvTagView::Video { timestamp, payload, is_keyframe },
                streams,
            );
            &&& s.has_filter ==> out.step == Ok::<PacketizeStepView, PacketizeError>(
                PacketizeStepView::Filter(
                    PacketPlanView {
                        payload: payload.skip(5),
                        timestamp_ms: timestamp,
                        time_base: streams[i].time_base,
                        is_keyframe,
                        stream_index: streams[i].index,
                    },
                ),
            )
            &&& !s.has_filter ==> out.step == Err::<PacketizeStepView, PacketizeError>(
                PacketizeError::MissingVideoHeader,
            )
        }),
{
    law_tags_belong_to_first_stream(streams, i);
}

/// Audio frames go to the audio stream's index and time base at their tag's time: AAC
/// behind two bytes and once its header was seen, other formats behind one byte.
pub proof fn law_frames_go_to_the_audio_stream(
    s: PacketizerView,
    timestamp: u32,
    payload: Seq<u8>,
    streams: Seq<StaticStreamView>,
    i: int,
)
    requires
        payload.len() >= 2,
        s.mapping is None,
        0 <= i < streams.len(),
        streams[i].codec_params.media_type == MediaType::Audio,
        forall|k: int|
            0 <= k < i ==> (#[trigger] streams[k]).codec_params.media_type != MediaType::Audio,
    ensures
        ({
            let out = s.packetize(FlvTagView::Audio { timestamp, payload }, streams);
            let plan = |behind: int|
                Ok::<PacketizeStepView, PacketizeError>(
                    PacketizeStepView::Emit(
                        PacketPlanView {
                            payload: payload.skip(behind),
                            timestamp_ms: timestamp,
                            time_base: streams[i].time_base,
                            is_keyframe: false,
                            stream_index: streams[i].index,
                        },
                    ),
                );
            &&& !(0xA0 <= payload[0] <= 0xAF) ==> out.step == plan(1)
            &&& 0xA0 <= payload[0] <= 0xAF && payload[1] == 1 && s.aac_config is Some ==> out.step
                == plan(2)
            &&& 0xA0 <= payload[0] <= 0xAF && payload[1] == 1 && s.aac_config is None ==> out.step
                == Err::<PacketizeStepView, PacketizeError>(PacketizeError::MissingAudioHeader)
        }),
{
    law_tags_belong_to_first_stream(streams, i);
}

/// An AAC header is cached, and gives no packet, where it has two bytes at least and an
/// object type; otherwise it is refused and nothing is cached.
pub proof fn law_aac_headers_are_checked(
    s: PacketizerView,
    timestamp: u32,
    payload: Seq<u8>,
    streams: Seq<StaticStreamView>,
)
    requires
        payload.len() >= 2,
        0xA0 <= payload[0] <= 0xAF,
        payload[1] == 0,
    ensures
        ({
            let out = s.packetize(FlvTagView::Audio { timestamp, payload }, streams);
            &&& payload.len() >= 4 && payload[2] >= 8 ==> out.state.aac_config == Some(
                payload.skip(2),
            ) && out.step == Ok::<PacketizeStepView, PacketizeError>(PacketizeStepView::Nothing)
            &&& payload.len() < 4 ==> out.state.aac_config == s.aac_config && out.step == Err::<
                PacketizeStepView,
                PacketizeError,
            >(PacketizeError::AudioConfigSize((payload.len() - 2) as usize))
            &&& payload.len() >= 4 && payload[2] < 8 ==> out.state.aac_config == s.aac_config
                && out.step == Err::<PacketizeStepView, PacketizeError>(
                PacketizeError::AudioObjectType,
            )
        }),
{
}

/// What cannot be packetized is refused by what is wrong with it: a video tag of less
/// than five bytes or of another codec than H.264, an audio tag of less than two bytes,
/// an AAC tag of another type than 0 and 1. It changes no cached header.
pub proof fn law_bad_tags_are_refused(
    s: PacketizerView,
    timestamp: u32,
    payload: Seq<u8>,
    is_keyframe: bool,
    streams: Seq<StaticStreamView>,
)
    ensures
        ({
            let video = s.packetize(
                FlvTagView::Video { timestamp, payload, is_keyframe },
                streams,
            );
            let audio = s.packetize(FlvTagView::Audio { timestamp, payload }, streams);
            &&& payload.len() < 5 ==> video.step == Err::<PacketizeStepView, PacketizeError>(
                PacketizeError::VideoPayloadSize(payload.len() as usize),
            )
            &&& payload.len() >= 5 && payload[0] % 16 != 7 ==> video.step == Err::<
                PacketizeStepView,
                PacketizeError,
            >(PacketizeError::VideoCodec((payload[0] % 16) as u8))
            &&& payload.len() < 2 ==> audio.step == Err::<PacketizeStepView, PacketizeError>(
                PacketizeError::AudioPayloadSize(payload.len() as usize),
            )
            &&& payload.len() >= 2 && 0xA0 <= payload[0] <= 0xAF && payload[1] > 1 ==> audio.step
                == Err::<PacketizeStepView, PacketizeError>(
                PacketizeError::AacPacketType(payload[1]),
            )
            &&& video.step is Err ==> video.state.avc_config == s.avc_config
                && video.state.aac_config == s.aac_config
            &&& audio.step is Err ==> audio.state.avc_config == s.avc_config
                && audio.state.aac_config == s.aac_config
        }),
{
}

/// Streams are looked up once: whatever collection comes with later tags, the mapping of
/// the first one stays. Script data gives no packet.
pub proof fn law_mapping_is_kept(
    s: PacketizerView,
    tag: FlvTagView,
    streams: Seq<StaticStreamView>,
    later: Seq<StaticStreamView>,
)
    ensures
        s.mapping is Some ==> s.packetize(tag, streams).state.mapping == s.mapping,
        s.mapping is None ==> s.packetize(tag, streams).state.mapping == Some(mapping_of(streams)),
        s.packetize(tag, streams).state.mapping_for(later) == s.mapping_for(streams),
        tag is ScriptData ==> s.packetize(tag, streams).step == Ok::<
            PacketizeStepView,
            PacketizeError,
        >(PacketizeStepView::Nothing),
{
}

/// Every message says what is wrong with a tag, and ends in the number that is, where
/// there is one.
pub proof fn law_messages_say_what_is_wrong(e: PacketizeError, r: String)
    requires
        call_ensures(PacketizeError::message, (&e,), r),
    ensures
        e matches PacketizeError::VideoPayloadSize(n) ==> r@ == "Invalid FLV video payload size: "@
            + decimal(n as nat),
        e matches PacketizeError::VideoCodec(n) ==> r@ == "Unsupported FLV video codec id: "@
            + decimal(n as nat),
        e matches PacketizeError::VideoPacketType(n) ==> r@ == "Unsupported AVC packet type: "@
            + decimal(n as nat),
        e matches PacketizeError::AudioPayloadSize(n) ==> r@ == "Invalid FLV audio payload size: "@
            + decimal(n as nat),
        e matches PacketizeError::AacPacketType(n) ==> r@ == "Unsupported AAC packet type: "@
            + decimal(n as nat),
        e matches PacketizeError::AudioConfigSize(n) ==> r@
            == "AAC AudioSpecificConfig too short: "@ + decimal(n as nat),
        e is MissingVideoHeader ==> r@ == "AVC sequence header missing before video frame"@,
        e is MissingAudioHeader ==> r@ == "AAC sequence header missing before raw frame"@,
        e is NoVideoStream ==> r@ == "Video stream not found in stream collection"@,
        e is NoAudioStream ==> r@ == "Audio stream not found in stream collection"@,
        e is AudioObjectType ==> r@ == "Invalid AAC audio object type: 0"@,
{
}

} // verus!
