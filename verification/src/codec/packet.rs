//! Encoded packets and finished transport-stream segments.
use crate::bits::push_slice;
use crate::buffer::{bytes_from_vec, bytes_of, clone_opt_bytes, opt_bytes};
use crate::codec::nal_data::{NalData, NalView};
use crate::time::Duration;
use crate::types::{Codec, CodecParams, MediaPacket};
use bytes::Bytes;
use vstd::prelude::*;

verus! {

/// An encoded media packet (compressed frame or sequence header).
///
/// The universal data carrier of the pipeline: all sources produce it, all
/// processors consume and produce it.
#[derive(Debug)]
pub struct EncodedPacket {
    /// Codec of this packet's data.
    pub codec: Codec,
    /// Stream index within the source (0 = first video, 1 = first audio, etc.).
    pub stream_index: usize,
    /// Encoded bitstream data (H.264 NAL units, AAC frames, etc.).
    pub data: NalData,
    /// Presentation timestamp in milliseconds since stream start.
    pub pts_ms: Option<i64>,
    /// Decode timestamp in milliseconds since stream start.
    pub dts_ms: Option<i64>,
    /// Whether this packet is a keyframe (IDR for H.264).
    pub is_keyframe: bool,
    /// Whether this packet is a sequence header (SPS/PPS for H.264, ASC for AAC).
    pub is_sequence_header: bool,
    /// Whether this packet is script data (onMetaData, cue points).
    pub is_script_data: bool,
    /// Codec-specific extradata (SPS+PPS for H.264, AudioSpecificConfig for AAC).
    pub extradata: Option<Bytes>,
}

/// `EncodedPacket` with its buffers as sequences.
#[verifier::ext_equal]
pub struct PacketView {
    pub codec: Codec,
    pub stream_index: usize,
    pub data: NalView,
    pub pts_ms: Option<i64>,
    pub dts_ms: Option<i64>,
    pub is_keyframe: bool,
    pub is_sequence_header: bool,
    pub is_script_data: bool,
    pub extradata: Option<Seq<u8>>,
}

impl PacketView {
    /// Whether the packet carries video of a container codec.
    pub open spec fn is_video(self) -> bool {
        self.codec == Codec::H264 || self.codec == Codec::H265 || self.codec == Codec::Av1
    }

    /// Whether the packet carries audio.
    pub open spec fn is_audio(self) -> bool {
        self.codec == Codec::Aac || self.codec == Codec::Opus || self.codec == Codec::Mp3
    }
}

impl View for EncodedPacket {
    type V = PacketView;

    open spec fn view(&self) -> PacketView {
        PacketView {
            codec: self.codec,
            stream_index: self.stream_index,
            data: self.data@,
            pts_ms: self.pts_ms,
            dts_ms: self.dts_ms,
            is_keyframe: self.is_keyframe,
            is_sequence_header: self.is_sequence_header,
            is_script_data: self.is_script_data,
            extradata: opt_bytes(self.extradata),
        }
    }
}

/// The views of a run of packets.
pub open spec fn packet_views(s: Seq<EncodedPacket>) -> Seq<PacketView> {
    Seq::new(s.len(), |i: int| s[i]@)
}

impl Clone for EncodedPacket {
    fn clone(&self) -> (r: Self)
        ensures
            r@ == self@,
    {
        EncodedPacket {
            codec: self.codec,
            stream_index: self.stream_index,
            data: self.data.clone(),
            pts_ms: self.pts_ms,
            dts_ms: self.dts_ms,
            is_keyframe: self.is_keyframe,
            is_sequence_header: self.is_sequence_header,
            is_script_data: self.is_script_data,
            extradata: clone_opt_bytes(&self.extradata),
        }
    }
}

impl EncodedPacket {
    /// A packet from an H.264 keyframe in Annex B format.
    pub fn new_video_keyframe(data: Bytes, pts_ms: i64, dts_ms: i64, stream_index: usize) -> (r:
        Self)
        ensures
            r@ == (PacketView {
                codec: Codec::H264,
                stream_index,
                data: NalView::AnnexB(bytes_of(data)),
                pts_ms: Some(pts_ms),
                dts_ms: Some(dts_ms),
                is_keyframe: true,
                is_sequence_header: false,
                is_script_data: false,
                extradata: None,
            }),
    {
        EncodedPacket {
            codec: Codec::H264,
            stream_index,
            data: NalData::AnnexB(data),
            pts_ms: Some(pts_ms),
            dts_ms: Some(dts_ms),
            is_keyframe: true,
            is_sequence_header: false,
            is_script_data: false,
            extradata: None,
        }
    }

    /// A packet from raw AAC audio data.
    pub fn new_audio(data: Bytes, pts_ms: i64, stream_index: usize) -> (r: Self)
        ensures
            r@ == (PacketView {
                codec: Codec::Aac,
                stream_index,
                data: NalView::AnnexB(bytes_of(data)),
                pts_ms: Some(pts_ms),
                dts_ms: None,
                is_keyframe: false,
                is_sequence_header: false,
                is_script_data: false,
                extradata: None,
            }),
    {
        EncodedPacket {
            codec: Codec::Aac,
            stream_index,
            data: NalData::AnnexB(data),
            pts_ms: Some(pts_ms),
            dts_ms: None,
            is_keyframe: false,
            is_sequence_header: false,
            is_script_data: false,
            extradata: None,
        }
    }

    /// An AVC sequence header (SPS + PPS).
    pub fn new_avc_sequence_header(sps: &[u8], pps: &[u8], stream_index: usize) -> (r: Self)
        ensures
            r@ == (PacketView {
                codec: Codec::H264,
                stream_index,
                data: NalView::AnnexB(Seq::empty()),
                pts_ms: None,
                dts_ms: None,
                is_keyframe: true,
                is_sequence_header: true,
                is_script_data: false,
                extradata: Some(sps@ + pps@),
            }),
    {
        let mut extradata: Vec<u8> = Vec::new();
        push_slice(&mut extradata, sps);
        push_slice(&mut extradata, pps);
        assert(extradata@ =~= sps@ + pps@);
        EncodedPacket {
            codec: Codec::H264,
            stream_index,
            data: NalData::AnnexB(Bytes::new()),
            pts_ms: None,
            dts_ms: None,
            is_keyframe: true,
            is_sequence_header: true,
            is_script_data: false,
            extradata: Some(bytes_from_vec(extradata)),
        }
    }

    /// An AAC sequence header (AudioSpecificConfig).
    pub fn new_aac_sequence_header(asc: &[u8], stream_index: usize) -> (r: Self)
        ensures
            r@ == (PacketView {
                codec: Codec::Aac,
                stream_index,
                data: NalView::AnnexB(Seq::empty()),
                pts_ms: None,
                dts_ms: None,
                is_keyframe: false,
                is_sequence_header: true,
                is_script_data: false,
                extradata: Some(asc@),
            }),
    {
        EncodedPacket {
            codec: Codec::Aac,
            stream_index,
            data: NalData::AnnexB(Bytes::new()),
            pts_ms: None,
            dts_ms: None,
            is_keyframe: false,
            is_sequence_header: true,
            is_script_data: false,
            extradata: Some(Bytes::copy_from_slice(asc)),
        }
    }

    /// Approximate byte size: the length of the data.
    pub fn byte_size(&self) -> (r: usize)
        ensures
            r == self@.data.raw().len(),
    {
        self.data.len()
    }

    /// Whether this is a video codec packet.
    pub fn is_video(&self) -> (r: bool)
        ensures
            r == self@.is_video(),
    {
        matches!(self.codec, Codec::H264 | Codec::H265 | Codec::Av1)
    }

    /// Whether this is an audio codec packet.
    pub fn is_audio(&self) -> (r: bool)
        ensures
            r == self@.is_audio(),
    {
        matches!(self.codec, Codec::Aac | Codec::Opus | Codec::Mp3)
    }
}

impl MediaPacket for EncodedPacket {
    fn codec_params(&self) -> (r: &[CodecParams])
        ensures
            r@.len() == 0,
    {
        &[]
    }

    fn is_keyframe(&self) -> (r: bool)
        ensures
            r == self.is_keyframe,
    {
        self.is_keyframe
    }

    fn byte_size(&self) -> (r: usize)
        ensures
            r == self@.data.raw().len(),
    {
        self.data.len()
    }

    /// The presentation timestamp, negative times clamped to the stream start.
    fn timestamp(&self) -> (r: Option<Duration>)
        ensures
            match self.pts_ms {
                Some(ms) => r matches Some(d) && d.wf() && d.total_nanos() == (if ms > 0 {
                    ms * 1_000_000
                } else {
                    0
                }),
                None => r is None,
            },
    {
        match self.pts_ms {
            Some(ms) => {
                let clamped: u64 = if ms > 0 {
                    ms as u64
                } else {
                    0
                };
                Some(Duration::from_millis(clamped))
            },
            None => None,
        }
    }
}

/// A completed MPEG-TS segment ready for upload.
#[derive(Debug)]
pub struct TsSegment {
    /// Path to the segment file on disk.
    pub path: String,
    /// Filename within the HLS playlist (e.g., "segment_0000.ts").
    pub filename: String,
    /// Sequence number in the HLS playlist (monotonically increasing).
    pub sequence: u64,
    /// Media duration of this segment.
    pub duration: Duration,
    /// Whether this is the final segment in the stream.
    pub is_final: bool,
}

/// `TsSegment` with its texts as sequences.
#[verifier::ext_equal]
pub struct TsSegmentView {
    pub path: Seq<char>,
    pub filename: Seq<char>,
    pub sequence: u64,
    pub duration: Duration,
    pub is_final: bool,
}

impl View for TsSegment {
    type V = TsSegmentView;

    open spec fn view(&self) -> TsSegmentView {
        TsSegmentView {
            path: self.path@,
            filename: self.filename@,
            sequence: self.sequence,
            duration: self.duration,
            is_final: self.is_final,
        }
    }
}

impl Clone for TsSegment {
    fn clone(&self) -> (r: Self)
        ensures
            r@ == self@,
    {
        TsSegment {
            path: self.path.clone(),
            filename: self.filename.clone(),
            sequence: self.sequence,
            duration: self.duration,
            is_final: self.is_final,
        }
    }
}

impl MediaPacket for TsSegment {
    fn codec_params(&self) -> (r: &[CodecParams])
        ensures
            r@.len() == 0,
    {
        &[]
    }

    /// Segments are cut before keyframes.
    fn is_keyframe(&self) -> (r: bool)
        ensures
            r,
    {
        true
    }

    /// The size on disk is not tracked.
    fn byte_size(&self) -> (r: usize)
        ensures
            r == 0,
    {
        0
    }

    /// The duration times the low 32 bits of the sequence number, or `None`
    /// where that is too long for a duration.
    fn timestamp(&self) -> (r: Option<Duration>)
        ensures
            match r {
                Some(d) => d.wf() && d.total_nanos() == self.duration.total_nanos() * (self.sequence
                    as nat % 0x1_0000_0000),
                None => self.duration.total_nanos() * (self.sequence as nat % 0x1_0000_0000)
                    >= 0x1_0000_0000_0000_0000 * 1_000_000_000,
            },
    {
        let low: u32 = (self.sequence % 0x1_0000_0000) as u32;
        self.duration.checked_mul(low)
    }
}

/// A packet is video of a container codec for H.264, H.265 and AV1, and audio for AAC,
/// MP3 and Opus.
pub proof fn law_packet_kinds(pkt: PacketView)
    ensures
        pkt.is_video() <==> pkt.codec == Codec::H264 || pkt.codec == Codec::H265 || pkt.codec
            == Codec::Av1,
        pkt.is_audio() <==> pkt.codec == Codec::Aac || pkt.codec == Codec::Mp3 || pkt.codec
            == Codec::Opus,
        !(pkt.is_video() && pkt.is_audio()),
{
}

/// What data holds does not depend on how it is framed.
pub proof fn law_data_is_kept(data: Seq<u8>)
    ensures
        NalView::Avcc(data).raw() == data,
        NalView::AnnexB(data).raw() == data,
{
}

/// The view of a packet is the packet, with its bytes as sequences.
pub proof fn law_view_is_the_packet(pkt: EncodedPacket)
    ensures
        pkt@.codec == pkt.codec,
        pkt@.stream_index == pkt.stream_index,
        pkt@.pts_ms == pkt.pts_ms,
        pkt@.dts_ms == pkt.dts_ms,
        pkt@.is_keyframe == pkt.is_keyframe,
        pkt@.is_sequence_header == pkt.is_sequence_header,
        pkt@.is_script_data == pkt.is_script_data,
        pkt@.data == pkt.data@,
        pkt@.extradata is Some <==> pkt.extradata is Some,
{
}

} // verus!
