//! FLV stream mapping: which stream an audio or a video tag belongs to.
use crate::media::stream::{find_stream, first_stream, law_first_stream_is_found, lemma_first_stream, Rational, StaticStreamCollection, StaticStreamView};
use crate::types::MediaType;
use vstd::prelude::*;

verus! {

/// The audio and the video stream of a collection, by index and time base.
///
/// Either may be absent, as in an audio-only stream.
#[derive(Clone, Copy, Debug)]
pub struct FlvStreamMapping {
    pub audio: Option<(usize, Rational)>,
    pub video: Option<(usize, Rational)>,
}

/// Index and time base of the first stream of a media type.
pub open spec fn mapped_stream(streams: Seq<StaticStreamView>, media_type: MediaType) -> Option<
    (usize, Rational),
> {
    match first_stream(streams, media_type) {
        Some(i) => Some((streams[i].index, streams[i].time_base)),
        None => None,
    }
}

/// The mapping of a collection: its first audio and its first video stream.
pub open spec fn mapping_of(streams: Seq<StaticStreamView>) -> FlvStreamMapping {
    FlvStreamMapping {
        audio: mapped_stream(streams, MediaType::Audio),
        video: mapped_stream(streams, MediaType::Video),
    }
}

fn map_stream(streams: &StaticStreamCollection, media_type: MediaType) -> (r: Option<
    (usize, Rational),
>)
    ensures
        r == mapped_stream(streams@, media_type),
{
    proof {
        lemma_first_stream(streams@, media_type);
    }
    match find_stream(streams, media_type) {
        Some(i) => match streams.stream(i) {
            Some(s) => Some((s.index, s.time_base)),
            None => None,
        },
        None => None,
    }
}

impl FlvStreamMapping {
    /// The mapping of a collection.
    pub fn from_streams(streams: &StaticStreamCollection) -> (r: Self)
        ensures
            r == mapping_of(streams@),
    {
        FlvStreamMapping {
            audio: map_stream(streams, MediaType::Audio),
            video: map_stream(streams, MediaType::Video),
        }
    }
}

/// Tags of a kind belong to the first stream of that kind, by its own index and time
/// base, and to none where there is none.
pub proof fn law_tags_belong_to_first_stream(streams: Seq<StaticStreamView>, i: int)
    requires
        0 <= i < streams.len(),
        forall|k: int|
            0 <= k < i ==> (#[trigger] streams[k]).codec_params.media_type
                != streams[i].codec_params.media_type,
    ensures
        streams[i].codec_params.media_type == MediaType::Audio ==> mapping_of(streams).audio
            == Some((streams[i].index, streams[i].time_base)),
        streams[i].codec_params.media_type == MediaType::Video ==> mapping_of(streams).video
            == Some((streams[i].index, streams[i].time_base)),
{
    law_first_stream_is_found(streams, streams[i].codec_params.media_type, i);
}

/// Without a stream of a kind its tags belong to none.
pub proof fn law_missing_kinds_have_no_stream(streams: Seq<StaticStreamView>)
    ensures
        mapping_of(streams).audio is None <==> forall|k: int|
            0 <= k < streams.len() ==> (#[trigger] streams[k]).codec_params.media_type
                != MediaType::Audio,
        mapping_of(streams).video is None <==> forall|k: int|
            0 <= k < streams.len() ==> (#[trigger] streams[k]).codec_params.media_type
                != MediaType::Video,
{
    lemma_first_stream(streams, MediaType::Audio);
    lemma_first_stream(streams, MediaType::Video);
}

} // verus!
