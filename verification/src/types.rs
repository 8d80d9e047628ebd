//! Codecs, protocols and the parameters of a media stream.
use crate::buffer::{clone_opt_bytes, opt_bytes};
use crate::time::Duration;
use bytes::Bytes;
use vstd::prelude::*;

verus! {

/// Codec of an elementary stream.
#[derive(Clone, Copy, Debug, PartialEq, Eq, Hash, Structural)]
pub enum Codec {
    H264,
    H265,
    Aac,
    Mp3,
    Opus,
    Av1,
    Mjpeg,
}

impl Codec {
    /// Whether the pipeline handles the codec end to end.
    pub fn is_supported(&self) -> (r: bool)
        ensures
            r == (*self == Codec::H264 || *self == Codec::Aac),
    {
        matches!(self, Codec::H264 | Codec::Aac)
    }
}

/// Transport protocol of a stream.
#[derive(Clone, Copy, Debug, PartialEq, Eq, Hash, Structural)]
pub enum Protocol {
    Rtmp,
    Rtsp,
    Hls,
    HttpFlv,
}

impl Protocol {
    /// The protocol's display name.
    pub open spec fn display_name(self) -> Seq<char> {
        match self {
            Protocol::Rtmp => "RTMP"@,
            Protocol::Rtsp => "RTSP"@,
            Protocol::Hls => "HLS"@,
            Protocol::HttpFlv => "HTTP-FLV"@,
        }
    }

    /// The protocol as text.
    pub fn to_string(&self) -> (r: String)
        ensures
            r@ == self.display_name(),
    {
        let name = match self {
            Protocol::Rtmp => "RTMP",
            Protocol::Rtsp => "RTSP",
            Protocol::Hls => "HLS",
            Protocol::HttpFlv => "HTTP-FLV",
        };
        name.to_owned()
    }
}

/// Kind of a media stream.
#[derive(Clone, Copy, Debug, PartialEq, Eq, Structural)]
pub enum MediaType {
    Video,
    Audio,
}

/// The codec configuration of a media stream.
#[derive(Debug)]
pub struct CodecParams {
    pub codec: Codec,
    pub media_type: MediaType,
    /// Clock rate in Hz (e.g., 90000 for MPEG-TS video, 44100 for AAC audio).
    pub clock_rate: u32,
    /// Codec-specific initialization data (SPS+PPS for H.264, ASC for AAC).
    pub extradata: Option<Bytes>,
}

/// `CodecParams` with the extradata as a sequence.
#[verifier::ext_equal]
pub struct CodecParamsView {
    pub codec: Codec,
    pub media_type: MediaType,
    pub clock_rate: u32,
    pub extradata: Option<Seq<u8>>,
}

impl View for CodecParams {
    type V = CodecParamsView;

    open spec fn view(&self) -> CodecParamsView {
        CodecParamsView {
            codec: self.codec,
            media_type: self.media_type,
            clock_rate: self.clock_rate,
            extradata: opt_bytes(self.extradata),
        }
    }
}

impl Clone for CodecParams {
    fn clone(&self) -> (r: Self)
        ensures
            r@ == self@,
    {
        CodecParams {
            codec: self.codec,
            media_type: self.media_type,
            clock_rate: self.clock_rate,
            extradata: clone_opt_bytes(&self.extradata),
        }
    }
}

impl CodecParams {
    /// Parameters of a video stream.
    pub fn new_video(codec: Codec, clock_rate: u32, extradata: Option<Bytes>) -> (r: Self)
        ensures
            r@ == (CodecParamsView {
                codec,
                media_type: MediaType::Video,
                clock_rate,
                extradata: opt_bytes(extradata),
            }),
    {
        CodecParams { codec, media_type: MediaType::Video, clock_rate, extradata }
    }

    /// Parameters of an audio stream.
    pub fn new_audio(codec: Codec, clock_rate: u32, extradata: Option<Bytes>) -> (r: Self)
        ensures
            r@ == (CodecParamsView {
                codec,
                media_type: MediaType::Audio,
                clock_rate,
                extradata: opt_bytes(extradata),
            }),
    {
        CodecParams { codec, media_type: MediaType::Audio, clock_rate, extradata }
    }

    /// Whether the stream is video.
    pub fn is_video(&self) -> (r: bool)
        ensures
            r == (self.media_type == MediaType::Video),
    {
        matches!(self.media_type, MediaType::Video)
    }

    /// Whether the stream is audio.
    pub fn is_audio(&self) -> (r: bool)
        ensures
            r == (self.media_type == MediaType::Audio),
    {
        matches!(self.media_type, MediaType::Audio)
    }
}

/// Types that flow through the pipeline.
pub trait MediaPacket: Send + Sync + 'static {
    /// Codec parameters of this packet.
    fn codec_params(&self) -> &[CodecParams];

    /// Whether this packet is a keyframe (IDR for H.264).
    fn is_keyframe(&self) -> bool;

    /// Approximate byte size of the packet data.
    fn byte_size(&self) -> usize;

    /// Presentation timestamp relative to stream start.
    fn timestamp(&self) -> Option<Duration>;
}

} // verus!
