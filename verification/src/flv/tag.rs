//! FLV tag types: audio, video, script data.
use crate::bits::{be24_bytes, lemma_byte_fields};
use crate::buffer::{bytes_as_slice, bytes_mut_of, bytes_of, put_u8};
use crate::flv::script::{metadata_view, MetadataView};
use crate::time::Duration;
use crate::types::{CodecParams, MediaPacket};
use bytes::{Bytes, BytesMut};
use rml_rtmp::sessions::StreamMetadata;
use vstd::prelude::*;

verus! {

/// SoundFormat of AAC.
pub const FLV_AUDIO_CODEC_AAC: u8 = 10;

/// CodecID of AVC (H.264).
pub const FLV_VIDEO_CODEC_AVC: u8 = 7;

/// CodecID of HEVC (H.265).
pub const FLV_VIDEO_CODEC_HEVC: u8 = 12;

/// Packet type of a sequence header.
pub const FLV_PACKET_TYPE_SEQ_HEADER: u8 = 0;

/// An FLV tag: one frame of audio, video, or script data.
#[derive(Debug)]
pub enum FlvTag {
    Audio { timestamp: u32, payload: Bytes },
    Video { timestamp: u32, payload: Bytes, is_keyframe: bool },
    ScriptData(StreamMetadata),
}

/// `FlvTag` with its payload as a sequence.
#[verifier::ext_equal]
pub enum FlvTagView {
    Audio { timestamp: u32, payload: Seq<u8> },
    Video { timestamp: u32, payload: Seq<u8>, is_keyframe: bool },
    ScriptData(MetadataView),
}

impl View for FlvTag {
    type V = FlvTagView;

    open spec fn view(&self) -> FlvTagView {
        match self {
            FlvTag::Audio { timestamp, payload } => FlvTagView::Audio {
                timestamp: *timestamp,
                payload: bytes_of(*payload),
            },
            FlvTag::Video { timestamp, payload, is_keyframe } => FlvTagView::Video {
                timestamp: *timestamp,
                payload: bytes_of(*payload),
                is_keyframe: *is_keyframe,
            },
            FlvTag::ScriptData(m) => FlvTagView::ScriptData(metadata_view(*m)),
        }
    }
}

/// The views of a run of tags.
pub open spec fn tag_views(s: Seq<FlvTag>) -> Seq<FlvTagView> {
    Seq::new(s.len(), |i: int| s[i]@)
}

impl Clone for FlvTag {
    fn clone(&self) -> (r: Self)
        ensures
            r@ == self@,
    {
        match self {
            FlvTag::Audio { timestamp, payload } => FlvTag::Audio {
                timestamp: *timestamp,
                payload: payload.clone(),
            },
            FlvTag::Video { timestamp, payload, is_keyframe } => FlvTag::Video {
                timestamp: *timestamp,
                payload: payload.clone(),
                is_keyframe: *is_keyframe,
            },
            FlvTag::ScriptData(m) => FlvTag::ScriptData(m.clone()),
        }
    }
}

/// Whether an audio payload is a sequence header: AAC, packet type 0.
pub open spec fn audio_seq_header(payload: Seq<u8>) -> bool {
    payload.len() >= 2 && payload[0] as int / 16 == 10 && payload[1] == 0
}

/// Whether a video payload is a sequence header. In the enhanced form (top bit
/// set) the low nibble is the packet type; in the classic form it is the codec,
/// and the second byte is the packet type.
pub open spec fn video_seq_header(payload: Seq<u8>) -> bool {
    payload.len() >= 2 && if payload[0] >= 128 {
        payload[0] as int % 16 == 0
    } else {
        (payload[0] as int % 16 == 7 || payload[0] as int % 16 == 12) && payload[1] == 0
    }
}

/// Whether a video payload is a keyframe: FrameType (bits 4 to 6) is 1.
pub open spec fn video_keyframe(payload: Seq<u8>) -> bool {
    payload.len() > 0 && payload[0] as int / 16 % 8 == 1
}

impl FlvTagView {
    /// Length of the payload; script data has none.
    pub open spec fn payload_size(self) -> nat {
        match self {
            FlvTagView::Audio { payload, .. } => payload.len(),
            FlvTagView::Video { payload, .. } => payload.len(),
            FlvTagView::ScriptData(_) => 0,
        }
    }

    /// Whether the tag is a codec sequence header. Script data counts as one.
    pub open spec fn is_sequence_header(self) -> bool {
        match self {
            FlvTagView::Audio { payload, .. } => audio_seq_header(payload),
            FlvTagView::Video { payload, .. } => video_seq_header(payload),
            FlvTagView::ScriptData(_) => true,
        }
    }
}

/// Whether an audio payload is a sequence header.
pub fn is_audio_seq_header(payload: &[u8]) -> (r: bool)
    ensures
        r == audio_seq_header(payload@),
{
    if payload.len() == 0 {
        return false;
    }
    proof {
        lemma_byte_fields(payload@[0]);
    }
    let sound_format: u8 = payload[0] >> 4;
    payload.len() >= 2 && sound_format == FLV_AUDIO_CODEC_AAC && payload[1]
        == FLV_PACKET_TYPE_SEQ_HEADER
}

/// Whether a video payload is a sequence header.
pub fn is_video_seq_header(payload: &[u8]) -> (r: bool)
    ensures
        r == video_seq_header(payload@),
{
    if payload.len() == 0 {
        return false;
    }
    let first_byte: u8 = payload[0];
    proof {
        lemma_byte_fields(first_byte);
    }
    let is_ex_header = (first_byte & 0x80) != 0;
    if is_ex_header {
        payload.len() >= 2 && (first_byte & 0x0f) == FLV_PACKET_TYPE_SEQ_HEADER
    } else {
        let codec_id: u8 = first_byte & 0x0f;
        payload.len() >= 2 && (codec_id == FLV_VIDEO_CODEC_AVC || codec_id == FLV_VIDEO_CODEC_HEVC)
            && payload[1] == FLV_PACKET_TYPE_SEQ_HEADER
    }
}

/// Whether a video payload is a keyframe.
///
/// FrameType is bits 4-6 for both classic and enhanced (E-RTMP v1) headers.
pub fn is_video_keyframe(payload: &[u8]) -> (r: bool)
    ensures
        r == video_keyframe(payload@),
{
    if payload.len() == 0 {
        return false;
    }
    let first_byte: u8 = payload[0];
    proof {
        lemma_byte_fields(first_byte);
    }
    let frame_type: u8 = (first_byte & 0x70) >> 4;
    frame_type == 1
}

impl FlvTag {
    /// An audio tag.
    pub fn audio(timestamp: u32, payload: Bytes) -> (r: Self)
        ensures
            r@ == (FlvTagView::Audio { timestamp, payload: bytes_of(payload) }),
    {
        FlvTag::Audio { timestamp, payload }
    }

    /// A video tag; whether it is a keyframe is read from the payload.
    pub fn video(timestamp: u32, payload: Bytes) -> (r: Self)
        ensures
            r@ == (FlvTagView::Video {
                timestamp,
                payload: bytes_of(payload),
                is_keyframe: video_keyframe(bytes_of(payload)),
            }),
    {
        let is_keyframe = is_video_keyframe(bytes_as_slice(&payload));
        FlvTag::Video { timestamp, payload, is_keyframe }
    }

    /// A script data tag.
    pub fn script_data(metadata: StreamMetadata) -> (r: Self)
        ensures
            r == FlvTag::ScriptData(metadata),
    {
        FlvTag::ScriptData(metadata)
    }

    /// Length of the payload; script data has none.
    pub fn payload_size(&self) -> (r: usize)
        ensures
            r == self@.payload_size(),
    {
        match self {
            FlvTag::Audio { payload, .. } => payload.len(),
            FlvTag::Video { payload, .. } => payload.len(),
            FlvTag::ScriptData(_) => 0,
        }
    }

    /// Whether this tag is a codec sequence header.
    pub fn is_sequence_header(&self) -> (r: bool)
        ensures
            r == self@.is_sequence_header(),
    {
        match self {
            FlvTag::Audio { payload, .. } => is_audio_seq_header(bytes_as_slice(payload)),
            FlvTag::Video { payload, .. } => is_video_seq_header(bytes_as_slice(payload)),
            FlvTag::ScriptData(_) => true,
        }
    }
}

/// Appends the low 24 bits of a number, big-endian.
pub fn put_u24(buf: &mut BytesMut, value: u32)
    requires
        bytes_mut_of(*old(buf)).len() + 3 <= isize::MAX,
    ensures
        bytes_mut_of(*final(buf)) == bytes_mut_of(*old(buf)) + be24_bytes(value),
{
    put_u8(buf, (value / 0x1_0000 % 256) as u8);
    put_u8(buf, (value / 256 % 256) as u8);
    put_u8(buf, (value % 256) as u8);
    assert(bytes_mut_of(*buf) =~= bytes_mut_of(*old(buf)) + be24_bytes(value));
}

impl MediaPacket for FlvTag {
    fn codec_params(&self) -> (r: &[CodecParams])
        ensures
            r@.len() == 0,
    {
        &[]
    }

    fn is_keyframe(&self) -> (r: bool)
        ensures
            r == (self@ matches FlvTagView::Video { is_keyframe, .. } && is_keyframe),
    {
        match self {
            FlvTag::Video { is_keyframe, .. } => *is_keyframe,
            _ => false,
        }
    }

    fn byte_size(&self) -> (r: usize)
        ensures
            r == self@.payload_size(),
    {
        self.payload_size()
    }

    /// The tag's timestamp, which counts milliseconds; script data has none.
    fn timestamp(&self) -> (r: Option<Duration>)
        ensures
            match self@ {
                FlvTagView::Audio { timestamp, .. } => r matches Some(d) && d.wf()
                    && d.total_nanos() == timestamp * 1_000_000,
                FlvTagView::Video { timestamp, .. } => r matches Some(d) && d.wf()
                    && d.total_nanos() == timestamp * 1_000_000,
                FlvTagView::ScriptData(_) => r is None,
            },
    {
        match self {
            FlvTag::Audio { timestamp, .. } => Some(Duration::from_millis(*timestamp as u64)),
            FlvTag::Video { timestamp, .. } => Some(Duration::from_millis(*timestamp as u64)),
            FlvTag::ScriptData(_) => None,
        }
    }
}

/// What a payload is can be told from its first two bytes: the first half of an audio
/// payload's first byte is 10 for AAC; of a video payload's, behind the top bit, 1 for a
/// keyframe. The second byte is 0 for a sequence header. With the top bit set the low
/// half of the first byte is that type instead.
pub proof fn law_tag_kinds(first: u8, second: u8, rest: Seq<u8>)
    ensures
        ({
            let payload = seq![first, second] + rest;
            &&& audio_seq_header(payload) <==> 0xA0 <= first <= 0xAF && second == 0
            &&& video_keyframe(payload) <==> 0x10 <= first <= 0x1F || 0x90 <= first <= 0x9F
            &&& first < 0x80 ==> (video_seq_header(payload) <==> (first % 16 == 7 || first % 16
                == 12) && second == 0)
            &&& first >= 0x80 ==> (video_seq_header(payload) <==> first % 16 == 0)
        }),
        ({
            let payload = seq![first];
            &&& !audio_seq_header(payload) && !video_seq_header(payload)
            &&& video_keyframe(payload) <==> 0x10 <= first <= 0x1F || 0x90 <= first <= 0x9F
        }),
        !audio_seq_header(Seq::empty()) && !video_seq_header(Seq::empty()) && !video_keyframe(
            Seq::empty(),
        ),
{
}

/// A tag is as large as its payload, and script data counts as a sequence header of no
/// size.
pub proof fn law_tag_sizes(timestamp: u32, payload: Seq<u8>, is_keyframe: bool, m: MetadataView)
    ensures
        (FlvTagView::Audio { timestamp, payload }).payload_size() == payload.len(),
        (FlvTagView::Video { timestamp, payload, is_keyframe }).payload_size() == payload.len(),
        FlvTagView::ScriptData(m).payload_size() == 0,
        FlvTagView::ScriptData(m).is_sequence_header(),
        (FlvTagView::Audio { timestamp, payload }).is_sequence_header() == audio_seq_header(
            payload,
        ),
        (FlvTagView::Video { timestamp, payload, is_keyframe }).is_sequence_header()
            == video_seq_header(payload),
{
}

} // verus!
