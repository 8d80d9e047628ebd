//! Streams and their parameters.
use crate::buffer::{clone_opt_bytes, opt_bytes};
use crate::media::ids::{av_codec_of, codec_to_av_codec_id, AvCodec};
use crate::types::{Codec, CodecParams, CodecParamsView, MediaType};
use bytes::Bytes;
use vstd::prelude::*;

verus! {

/// A time base: one tick lasts `num / den` seconds.
#[derive(Clone, Copy, Debug, PartialEq, Eq, Structural)]
pub struct Rational {
    pub num: i32,
    pub den: i32,
}

/// Clock of video streams in Hz.
pub const VIDEO_CLOCK: i32 = 90000;

/// Codec parameters as the codec library takes them.
#[derive(Debug)]
pub struct StreamParameters {
    pub media_type: MediaType,
    pub codec: AvCodec,
    /// Sample rate of an audio stream.
    pub sample_rate: Option<i32>,
    pub extradata: Option<Bytes>,
}

/// `StreamParameters` with the extradata as a sequence.
#[verifier::ext_equal]
pub struct StreamParametersView {
    pub media_type: MediaType,
    pub codec: AvCodec,
    pub sample_rate: Option<i32>,
    pub extradata: Option<Seq<u8>>,
}

impl View for StreamParameters {
    type V = StreamParametersView;

    open spec fn view(&self) -> StreamParametersView {
        StreamParametersView {
            media_type: self.media_type,
            codec: self.codec,
            sample_rate: self.sample_rate,
            extradata: opt_bytes(self.extradata),
        }
    }
}

/// The media type that a codec belongs to.
pub open spec fn media_type_of(codec: Codec) -> MediaType {
    match codec {
        Codec::H264 | Codec::H265 | Codec::Av1 | Codec::Mjpeg => MediaType::Video,
        Codec::Aac | Codec::Opus | Codec::Mp3 => MediaType::Audio,
    }
}

/// The media type that a codec belongs to.
pub fn codec_media_type(codec: Codec) -> (r: MediaType)
    ensures
        r == media_type_of(codec),
{
    match codec {
        Codec::H264 | Codec::H265 | Codec::Av1 | Codec::Mjpeg => MediaType::Video,
        Codec::Aac | Codec::Opus | Codec::Mp3 => MediaType::Audio,
    }
}

/// The parameters that describe a stream to the codec library. Only audio has a
/// sample rate: the clock rate.
pub open spec fn described_stream(params: CodecParamsView) -> StreamParametersView {
    StreamParametersView {
        media_type: media_type_of(params.codec),
        codec: av_codec_of(params.codec),
        sample_rate: if media_type_of(params.codec) == MediaType::Audio {
            Some(params.clock_rate as i32)
        } else {
            None
        },
        extradata: params.extradata,
    }
}

impl StreamParameters {
    /// The parameters of a stream.
    pub fn from_codec_params(params: &CodecParams) -> (r: Self)
        ensures
            r@ == described_stream(params@),
    {
        let media_type = codec_media_type(params.codec);
        StreamParameters {
            media_type,
            codec: codec_to_av_codec_id(params.codec),
            sample_rate: match media_type {
                MediaType::Audio => Some(
                    #[verifier::truncate]
                    (params.clock_rate as i32),
                ),
                MediaType::Video => None,
            },
            extradata: clone_opt_bytes(&params.extradata),
        }
    }
}

impl Clone for StreamParameters {
    fn clone(&self) -> (r: Self)
        ensures
            r@ == self@,
    {
        StreamParameters {
            media_type: self.media_type,
            codec: self.codec,
            sample_rate: self.sample_rate,
            extradata: clone_opt_bytes(&self.extradata),
        }
    }
}

/// A single stream of a collection.
#[derive(Debug)]
pub struct StaticStream {
    pub index: usize,
    pub time_base: Rational,
    pub codec_params: StreamParameters,
}

/// `StaticStream` with its parameters as a view.
#[verifier::ext_equal]
pub struct StaticStreamView {
    pub index: usize,
    pub time_base: Rational,
    pub codec_params: StreamParametersView,
}

impl View for StaticStream {
    type V = StaticStreamView;

    open spec fn view(&self) -> StaticStreamView {
        StaticStreamView {
            index: self.index,
            time_base: self.time_base,
            codec_params: self.codec_params@,
        }
    }
}

impl Clone for StaticStream {
    fn clone(&self) -> (r: Self)
        ensures
            r@ == self@,
    {
        StaticStream {
            index: self.index,
            time_base: self.time_base,
            codec_params: self.codec_params.clone(),
        }
    }
}

/// A snapshot of the streams of a source, which may outlive the source.
#[derive(Debug)]
pub struct StaticStreamCollection {
    streams: Vec<StaticStream>,
}

impl View for StaticStreamCollection {
    type V = Seq<StaticStreamView>;

    closed spec fn view(&self) -> Seq<StaticStreamView> {
        Seq::new(self.streams@.len(), |i: int| self.streams@[i]@)
    }
}

/// The time base of a stream: 90 kHz for video, the sample rate for audio.
pub open spec fn stream_time_base(params: CodecParamsView) -> Rational {
    if params.media_type == MediaType::Video {
        Rational { num: 1, den: 90000 }
    } else {
        Rational { num: 1, den: params.clock_rate as i32 }
    }
}

/// The streams that codec parameters describe, in order.
pub open spec fn described_streams(params: Seq<CodecParams>) -> Seq<StaticStreamView> {
    Seq::new(
        params.len(),
        |i: int|
            StaticStreamView {
                index: i as usize,
                time_base: stream_time_base(params[i]@),
                codec_params: described_stream(params[i]@),
            },
    )
}

/// A stream with an explicit index and time base.
pub open spec fn explicit_stream(p: (usize, Rational, StreamParameters)) -> StaticStreamView {
    StaticStreamView { index: p.0, time_base: p.1, codec_params: p.2@ }
}

impl StaticStreamCollection {
    /// A collection of streams with explicit indices and time bases.
    pub fn from_owned_params(params: Vec<(usize, Rational, StreamParameters)>) -> (r: Self)
        ensures
            r@ == Seq::new(params@.len(), |i: int| explicit_stream(params@[i])),
    {
        let mut streams: Vec<StaticStream> = Vec::new();
        let mut i: usize = 0;
        while i < params.len()
            invariant
                i <= params@.len(),
                streams@.len() == i,
                forall|k: int| 0 <= k < i ==> (#[trigger] streams@[k])@ == explicit_stream(params@[k]),
            decreases params@.len() - i,
        {
            let p: &(usize, Rational, StreamParameters) = &params[i];
            streams.push(
                StaticStream { index: p.0, time_base: p.1, codec_params: p.2.clone() },
            );
            i = i + 1;
        }
        let r = StaticStreamCollection { streams };
        assert(r@ =~= Seq::new(params@.len(), |i: int| explicit_stream(params@[i])));
        r
    }

    /// A copy of another collection.
    pub fn from_streams(streams: &StaticStreamCollection) -> (r: Self)
        ensures
            r@ == streams@,
    {
        let mut copied: Vec<StaticStream> = Vec::new();
        let mut i: usize = 0;
        while i < streams.streams.len()
            invariant
                i <= streams.streams@.len(),
                copied@.len() == i,
                forall|k: int| 0 <= k < i ==> (#[trigger] copied@[k])@ == streams.streams@[k]@,
            decreases streams.streams@.len() - i,
        {
            copied.push(streams.streams[i].clone());
            i = i + 1;
        }
        let r = StaticStreamCollection { streams: copied };
        assert(r@ =~= streams@);
        r
    }

    /// The streams that a source's codec parameters describe. Video streams get
    /// a 90 kHz time base, audio streams the sample rate.
    pub fn from_codec_params(codec_params: &[CodecParams]) -> (r: Self)
        ensures
            r@ == described_streams(codec_params@),
    {
        let mut streams: Vec<StaticStream> = Vec::new();
        let mut i: usize = 0;
        while i < codec_params.len()
            invariant
                i <= codec_params@.len(),
                streams@.len() == i,
                forall|k: int|
                    0 <= k < i ==> (#[trigger] streams@[k])@ == described_streams(codec_params@)[k],
            decreases codec_params@.len() - i,
        {
            let p: &CodecParams = &codec_params[i];
            let time_base = if p.is_video() {
                Rational { num: 1, den: VIDEO_CLOCK }
            } else {
                Rational {
                    num: 1,
                    den: #[verifier::truncate]
                    (p.clock_rate as i32),
                }
            };
            streams.push(
                StaticStream {
                    index: i,
                    time_base,
                    codec_params: StreamParameters::from_codec_params(p),
                },
            );
            i = i + 1;
        }
        let r = StaticStreamCollection { streams };
        assert(r@ =~= described_streams(codec_params@));
        r
    }

    /// Number of streams.
    pub fn len(&self) -> (r: usize)
        ensures
            r == self@.len(),
    {
        self.streams.len()
    }

    /// Whether there are no streams.
    pub fn is_empty(&self) -> (r: bool)
        ensures
            r == (self@.len() == 0),
    {
        self.streams.len() == 0
    }

    /// Number of streams.
    pub fn stream_count(&self) -> (r: usize)
        ensures
            r == self@.len(),
    {
        self.streams.len()
    }

    /// The stream at a position.
    pub fn stream(&self, index: usize) -> (r: Option<&StaticStream>)
        ensures
            match r {
                Some(s) => index < self@.len() && s@ == self@[index as int],
                None => index >= self@.len(),
            },
    {
        if index < self.streams.len() {
            Some(&self.streams[index])
        } else {
            None
        }
    }

    /// The time base of the stream at a position.
    pub fn time_base(&self, index: usize) -> (r: Option<Rational>)
        ensures
            r == if index < self@.len() {
                Some(self@[index as int].time_base)
            } else {
                None::<Rational>
            },
    {
        match self.stream(index) {
            Some(s) => Some(s.time_base),
            None => None,
        }
    }
}

/// The streams of a collection, in order.
pub fn iter_streams(streams: &StaticStreamCollection) -> (r: Vec<&StaticStream>)
    ensures
        Seq::new(r@.len(), |i: int| r@[i]@) == streams@,
{
    let mut out: Vec<&StaticStream> = Vec::new();
    let mut i: usize = 0;
    while i < streams.streams.len()
        invariant
            i <= streams.streams@.len(),
            out@.len() == i,
            forall|k: int| 0 <= k < i ==> *(#[trigger] out@[k]) == streams.streams@[k],
        decreases streams.streams@.len() - i,
    {
        out.push(&streams.streams[i]);
        i = i + 1;
    }
    assert(Seq::new(out@.len(), |i: int| out@[i]@) =~= streams@);
    out
}

/// Size of a buffer for extradata with padding behind it, or `None` where it
/// leaves the address space.
pub fn padded_size(len: usize, padding: usize) -> (r: Option<usize>)
    ensures
        match r {
            Some(n) => n == len + padding,
            None => len + padding > usize::MAX,
        },
{
    len.checked_add(padding)
}

/// Position of the first stream of a media type, by the types of all streams;
/// `None` stands for a stream that is neither audio nor video.
pub fn first_of_type(types: &[Option<MediaType>], wanted: MediaType) -> (r: Option<usize>)
    ensures
        match r {
            Some(i) => i < types@.len() && types@[i as int] == Some(wanted) && forall|k: int|
                0 <= k < i ==> #[trigger] types@[k] != Some(wanted),
            None => forall|k: int| 0 <= k < types@.len() ==> #[trigger] types@[k] != Some(wanted),
        },
{
    let mut i: usize = 0;
    while i < types.len()
        invariant
            i <= types@.len(),
            forall|k: int| 0 <= k < i ==> #[trigger] types@[k] != Some(wanted),
        decreases types@.len() - i,
    {
        if let Some(t) = types[i] {
            if t == wanted {
                return Some(i);
            }
        }
        i = i + 1;
    }
    None
}

/// Position of the first stream of a media type.
pub open spec fn first_stream(streams: Seq<StaticStreamView>, media_type: MediaType) -> Option<int>
    decreases streams.len(),
{
    if streams.len() == 0 {
        None
    } else {
        match first_stream(streams.drop_last(), media_type) {
            Some(i) => Some(i),
            None => if streams.last().codec_params.media_type == media_type {
                Some(streams.len() - 1)
            } else {
                None
            },
        }
    }
}

/// The first stream of a media type is of that type, and none before it is.
pub proof fn lemma_first_stream(streams: Seq<StaticStreamView>, media_type: MediaType)
    ensures
        match first_stream(streams, media_type) {
            Some(i) => 0 <= i < streams.len() && streams[i].codec_params.media_type == media_type
                && forall|k: int|
                0 <= k < i ==> (#[trigger] streams[k]).codec_params.media_type != media_type,
            None => forall|k: int|
                0 <= k < streams.len() ==> (#[trigger] streams[k]).codec_params.media_type
                    != media_type,
        },
    decreases streams.len(),
{
    if streams.len() > 0 {
        let front = streams.drop_last();
        lemma_first_stream(front, media_type);
        match first_stream(front, media_type) {
            Some(i) => {
                assert forall|k: int| 0 <= k < i implies (
                #[trigger] streams[k]).codec_params.media_type != media_type by {
                    assert(front[k] == streams[k]);
                }
            },
            None => {
                assert forall|k: int| 0 <= k < streams.len() - 1 implies (
                #[trigger] streams[k]).codec_params.media_type != media_type by {
                    assert(front[k] == streams[k]);
                }
            },
        }
    }
}

/// Finds the first stream of a media type.
pub fn find_stream(streams: &StaticStreamCollection, media_type: MediaType) -> (r: Option<usize>)
    ensures
        match first_stream(streams@, media_type) {
            Some(i) => r matches Some(x) && x == i,
            None => r is None,
        },
{
    let mut i: usize = 0;
    assert(streams@.take(0) =~= Seq::empty());
    while i < streams.len()
        invariant
            i <= streams@.len(),
            first_stream(streams@.take(i as int), media_type) is None,
        decreases streams@.len() - i,
    {
        assert(streams@.take(i + 1).drop_last() =~= streams@.take(i as int));
        if streams.streams[i].codec_params.media_type == media_type {
            proof {
                lemma_first_stream_prefix(streams@, i + 1, media_type);
            }
            return Some(i);
        }
        i = i + 1;
    }
    assert(streams@.take(i as int) =~= streams@);
    None
}

/// A stream found in a prefix is the first of the whole.
proof fn lemma_first_stream_prefix(streams: Seq<StaticStreamView>, n: int, media_type: MediaType)
    requires
        0 <= n <= streams.len(),
        first_stream(streams.take(n), media_type) is Some,
    ensures
        first_stream(streams, media_type) == first_stream(streams.take(n), media_type),
    decreases streams.len() - n,
{
    if n < streams.len() {
        assert(streams.take(n + 1).drop_last() =~= streams.take(n));
        lemma_first_stream_prefix(streams, n + 1, media_type);
    } else {
        assert(streams.take(n) =~= streams);
    }
}

/// Every codec is video or audio: H.264, H.265, AV1 and MJPEG are video, AAC, MP3 and
/// Opus audio.
pub proof fn law_media_type_of_codecs(codec: Codec)
    ensures
        media_type_of(codec) == MediaType::Audio <==> codec == Codec::Aac || codec == Codec::Mp3
            || codec == Codec::Opus,
        media_type_of(codec) == MediaType::Video <==> codec == Codec::H264 || codec == Codec::H265
            || codec == Codec::Av1 || codec == Codec::Mjpeg,
{
}

/// A source's streams are described one for one and in order, each under its position,
/// with its own codec and extradata. A video stream counts 90000 ticks a second and has
/// no sample rate; an audio stream counts as many as its clock rate says, which is its
/// sample rate too. A clock rate fits 31 bits.
pub proof fn law_streams_are_described(params: Seq<CodecParams>, i: int)
    requires
        0 <= i < params.len() <= usize::MAX,
        params[i].clock_rate <= i32::MAX,
    ensures
        described_streams(params).len() == params.len(),
        ({
            let s = described_streams(params)[i];
            let p = params[i];
            &&& s.index == i
            &&& s.codec_params.codec == av_codec_of(p.codec)
            &&& s.codec_params.extradata == opt_bytes(p.extradata)
            &&& s.codec_params.media_type == media_type_of(p.codec)
            &&& p.media_type == MediaType::Video ==> s.time_base.num == 1 && s.time_base.den
                == 90000
            &&& p.media_type == MediaType::Audio ==> s.time_base.num == 1 && s.time_base.den
                == p.clock_rate
            &&& s.codec_params.sample_rate is Some <==> s.codec_params.media_type
                == MediaType::Audio
            &&& s.codec_params.sample_rate matches Some(rate) ==> rate == p.clock_rate
        }),
{
}

/// The first stream of a type is found where there is one: it is of the type, and no
/// stream before it is.
pub proof fn law_first_stream_is_found(
    streams: Seq<StaticStreamView>,
    media_type: MediaType,
    i: int,
)
    requires
        0 <= i < streams.len(),
        streams[i].codec_params.media_type == media_type,
        forall|k: int|
            0 <= k < i ==> (#[trigger] streams[k]).codec_params.media_type != media_type,
    ensures
        first_stream(streams, media_type) == Some(i),
{
    lemma_first_stream(streams, media_type);
    let f = first_stream(streams, media_type);
    assert(f is Some);
    if f->0 < i {
        assert(streams[f->0].codec_params.media_type != media_type);
    }
}

} // verus!
