//! Codec identifiers of FLV and of the codec library.
use crate::text::{decimal, push_decimal};
use crate::types::Codec;
use vstd::prelude::*;

verus! {

/// A codec of the codec library.
#[derive(Clone, Copy, Debug, PartialEq, Eq, Structural)]
pub enum AvCodec {
    H264,
    Hevc,
    Aac,
    Mp3,
    Opus,
    Av1,
    Mjpeg,
    PcmAlaw,
    PcmMulaw,
}

/// The numbers that the codec library gives to the codecs FLV can carry.
#[derive(Clone, Copy, Debug, PartialEq, Eq, Structural)]
pub struct NativeCodecIds {
    pub h264: u32,
    pub hevc: u32,
    pub aac: u32,
    pub mp3: u32,
    pub pcm_alaw: u32,
    pub pcm_mulaw: u32,
}

/// A codec number that stands for no supported codec.
#[derive(Clone, Copy, Debug, PartialEq, Eq, Structural)]
pub enum UnsupportedCodecId {
    Video(u32),
    Audio(u32),
}

impl UnsupportedCodecId {
    /// The error as text.
    pub fn message(&self) -> (r: String)
        ensures
            r@ == match self {
                UnsupportedCodecId::Video(x) => "Unsupported FLV video codec id: "@ + decimal(
                    *x as nat,
                ),
                UnsupportedCodecId::Audio(x) => "Unsupported FLV audio codec id: "@ + decimal(
                    *x as nat,
                ),
            },
    {
        match self {
            UnsupportedCodecId::Video(x) => {
                let mut s: String = "Unsupported FLV video codec id: ".to_owned();
                push_decimal(&mut s, *x as u64);
                s
            },
            UnsupportedCodecId::Audio(x) => {
                let mut s: String = "Unsupported FLV audio codec id: ".to_owned();
                push_decimal(&mut s, *x as u64);
                s
            },
        }
    }
}

/// The codec of an FLV video codec number: FLV's own numbers first, then the
/// codec library's.
pub open spec fn video_codec_of(codec_id: u32, native: NativeCodecIds) -> Option<AvCodec> {
    if codec_id == 7 {
        Some(AvCodec::H264)
    } else if codec_id == 12 {
        Some(AvCodec::Hevc)
    } else if codec_id == native.h264 {
        Some(AvCodec::H264)
    } else if codec_id == native.hevc {
        Some(AvCodec::Hevc)
    } else {
        None
    }
}

/// The codec of an FLV sound format: FLV's own numbers first, then the codec
/// library's.
pub open spec fn audio_codec_of(codec_id: u32, native: NativeCodecIds) -> Option<AvCodec> {
    if codec_id == 2 || codec_id == 14 {
        Some(AvCodec::Mp3)
    } else if codec_id == 7 {
        Some(AvCodec::PcmAlaw)
    } else if codec_id == 8 {
        Some(AvCodec::PcmMulaw)
    } else if codec_id == 10 {
        Some(AvCodec::Aac)
    } else if codec_id == native.aac {
        Some(AvCodec::Aac)
    } else if codec_id == native.mp3 {
        Some(AvCodec::Mp3)
    } else if codec_id == native.pcm_alaw {
        Some(AvCodec::PcmAlaw)
    } else if codec_id == native.pcm_mulaw {
        Some(AvCodec::PcmMulaw)
    } else {
        None
    }
}

/// Maps an FLV video codec ID to a codec of the codec library.
pub fn flv_video_codec_id_to_av(codec_id: u32, native: &NativeCodecIds) -> (r: Result<
    AvCodec,
    UnsupportedCodecId,
>)
    ensures
        r == match video_codec_of(codec_id, *native) {
            Some(c) => Ok::<AvCodec, UnsupportedCodecId>(c),
            None => Err::<AvCodec, UnsupportedCodecId>(UnsupportedCodecId::Video(codec_id)),
        },
{
    if codec_id == 7 {
        Ok(AvCodec::H264)
    } else if codec_id == 12 {
        Ok(AvCodec::Hevc)
    } else if codec_id == native.h264 {
        Ok(AvCodec::H264)
    } else if codec_id == native.hevc {
        Ok(AvCodec::Hevc)
    } else {
        Err(UnsupportedCodecId::Video(codec_id))
    }
}

/// Maps an FLV audio codec ID (sound format) to a codec of the codec library.
pub fn flv_audio_codec_id_to_av(codec_id: u32, native: &NativeCodecIds) -> (r: Result<
    AvCodec,
    UnsupportedCodecId,
>)
    ensures
        r == match audio_codec_of(codec_id, *native) {
            Some(c) => Ok::<AvCodec, UnsupportedCodecId>(c),
            None => Err::<AvCodec, UnsupportedCodecId>(UnsupportedCodecId::Audio(codec_id)),
        },
{
    if codec_id == 2 || codec_id == 14 {
        Ok(AvCodec::Mp3)
    } else if codec_id == 7 {
        Ok(AvCodec::PcmAlaw)
    } else if codec_id == 8 {
        Ok(AvCodec::PcmMulaw)
    } else if codec_id == 10 {
        Ok(AvCodec::Aac)
    } else if codec_id == native.aac {
        Ok(AvCodec::Aac)
    } else if codec_id == native.mp3 {
        Ok(AvCodec::Mp3)
    } else if codec_id == native.pcm_alaw {
        Ok(AvCodec::PcmAlaw)
    } else if codec_id == native.pcm_mulaw {
        Ok(AvCodec::PcmMulaw)
    } else {
        Err(UnsupportedCodecId::Audio(codec_id))
    }
}

/// The codec library's codec for a stream codec.
pub open spec fn av_codec_of(codec: Codec) -> AvCodec {
    match codec {
        Codec::H264 => AvCodec::H264,
        Codec::H265 => AvCodec::Hevc,
        Codec::Aac => AvCodec::Aac,
        Codec::Mp3 => AvCodec::Mp3,
        Codec::Opus => AvCodec::Opus,
        Codec::Av1 => AvCodec::Av1,
        Codec::Mjpeg => AvCodec::Mjpeg,
    }
}

/// The stream codec for a codec of the codec library. What has none is taken as
/// H.264.
pub open spec fn stream_codec_of(id: Option<AvCodec>) -> Codec {
    match id {
        Some(AvCodec::H264) => Codec::H264,
        Some(AvCodec::Hevc) => Codec::H265,
        Some(AvCodec::Aac) => Codec::Aac,
        Some(AvCodec::Mp3) => Codec::Mp3,
        Some(AvCodec::Opus) => Codec::Opus,
        Some(AvCodec::Av1) => Codec::Av1,
        Some(AvCodec::Mjpeg) => Codec::Mjpeg,
        _ => Codec::H264,
    }
}

/// Maps a stream codec to a codec of the codec library.
pub fn codec_to_av_codec_id(codec: Codec) -> (r: AvCodec)
    ensures
        r == av_codec_of(codec),
{
    match codec {
        Codec::H264 => AvCodec::H264,
        Codec::H265 => AvCodec::Hevc,
        Codec::Aac => AvCodec::Aac,
        Codec::Mp3 => AvCodec::Mp3,
        Codec::Opus => AvCodec::Opus,
        Codec::Av1 => AvCodec::Av1,
        Codec::Mjpeg => AvCodec::Mjpeg,
    }
}

/// Maps a codec of the codec library to a stream codec; `None` stands for one
/// that is not listed here.
pub fn codec_id_to_codec(id: Option<AvCodec>) -> (r: Codec)
    ensures
        r == stream_codec_of(id),
{
    match id {
        Some(AvCodec::H264) => Codec::H264,
        Some(AvCodec::Hevc) => Codec::H265,
        Some(AvCodec::Aac) => Codec::Aac,
        Some(AvCodec::Mp3) => Codec::Mp3,
        Some(AvCodec::Opus) => Codec::Opus,
        Some(AvCodec::Av1) => Codec::Av1,
        Some(AvCodec::Mjpeg) => Codec::Mjpeg,
        _ => Codec::H264,
    }
}

/// Every stream codec survives the way through the codec library's numbering.
pub proof fn law_codec_ids_roundtrip(codec: Codec)
    ensures
        stream_codec_of(Some(av_codec_of(codec))) == codec,
{
}

/// FLV's own codec numbers mean the same whatever numbers the codec library has: 7 is
/// H.264 and 12 H.265 for video; 2 and 14 are MP3, 7 and 8 A-law and mu-law, 10 AAC for
/// audio.
pub proof fn law_flv_numbers_come_first(native: NativeCodecIds)
    ensures
        video_codec_of(7, native) == Some(AvCodec::H264),
        video_codec_of(12, native) == Some(AvCodec::Hevc),
        audio_codec_of(2, native) == Some(AvCodec::Mp3),
        audio_codec_of(14, native) == Some(AvCodec::Mp3),
        audio_codec_of(7, native) == Some(AvCodec::PcmAlaw),
        audio_codec_of(8, native) == Some(AvCodec::PcmMulaw),
        audio_codec_of(10, native) == Some(AvCodec::Aac),
{
}

/// Whether the codec library's numbers are all different.
pub open spec fn are_distinct(native: NativeCodecIds) -> bool {
    &&& native.h264 != native.hevc
    &&& native.aac != native.mp3 && native.aac != native.pcm_alaw && native.aac != native.pcm_mulaw
    &&& native.mp3 != native.pcm_alaw && native.mp3 != native.pcm_mulaw
    &&& native.pcm_alaw != native.pcm_mulaw
}

/// A number that is none of FLV's is understood exactly where it is the codec library's
/// number of a codec that FLV can carry, and stands for that codec.
pub proof fn law_native_numbers_are_understood(id: u32, native: NativeCodecIds)
    requires
        are_distinct(native),
    ensures
        id != 7 && id != 12 ==> {
            &&& video_codec_of(id, native) == Some(AvCodec::H264) <==> id == native.h264
            &&& video_codec_of(id, native) == Some(AvCodec::Hevc) <==> id == native.hevc
            &&& video_codec_of(id, native) is None <==> id != native.h264 && id != native.hevc
        },
        id != 2 && id != 7 && id != 8 && id != 10 && id != 14 ==> {
            &&& audio_codec_of(id, native) == Some(AvCodec::Aac) <==> id == native.aac
            &&& audio_codec_of(id, native) == Some(AvCodec::Mp3) <==> id == native.mp3
            &&& audio_codec_of(id, native) == Some(AvCodec::PcmAlaw) <==> id == native.pcm_alaw
            &&& audio_codec_of(id, native) == Some(AvCodec::PcmMulaw) <==> id == native.pcm_mulaw
            &&& audio_codec_of(id, native) is None <==> id != native.aac && id != native.mp3 && id
                != native.pcm_alaw && id != native.pcm_mulaw
        },
{
}

/// Codecs keep their names between the two numberings, and what the stream codecs do
/// not have is taken as H.264.
pub proof fn law_codecs_keep_their_names(id: Option<AvCodec>)
    ensures
        stream_codec_of(id) == Codec::H265 <==> id == Some(AvCodec::Hevc),
        stream_codec_of(id) == Codec::Aac <==> id == Some(AvCodec::Aac),
        stream_codec_of(id) == Codec::Mp3 <==> id == Some(AvCodec::Mp3),
        stream_codec_of(id) == Codec::Opus <==> id == Some(AvCodec::Opus),
        stream_codec_of(id) == Codec::Av1 <==> id == Some(AvCodec::Av1),
        stream_codec_of(id) == Codec::Mjpeg <==> id == Some(AvCodec::Mjpeg),
        stream_codec_of(id) == Codec::H264 <==> id is None || id == Some(AvCodec::H264) || id
            == Some(AvCodec::PcmAlaw) || id == Some(AvCodec::PcmMulaw),
{
}

} // verus!
