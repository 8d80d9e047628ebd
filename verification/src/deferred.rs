//! Deferred start of the HLS branch.
//!
//! RTMP and transcoded sources announce their codecs in-band: SPS/PPS and
//! AudioSpecificConfig arrive as sequence headers after the pipeline was built.
//! The branch is built once both codecs are known, or once media arrives with one
//! of them known (audio-only and video-only streams send a single header).
use crate::buffer::{bytes_as_slice, bytes_from_vec};
use crate::codec::avcc::{
    avcc_record, hls_extradata, law_record_gives_sets_back, raw_parameter_sets,
};
use crate::codec::packet::{EncodedPacket, PacketView};
use crate::media::stream::{codec_media_type, media_type_of};
use crate::transcode::params_views;
use crate::types::{Codec, CodecParams, CodecParamsView, MediaType};
use vstd::prelude::*;

verus! {

/// Clock rate of parameters taken from a sequence header, in Hz.
pub const HEADER_CLOCK_RATE: u32 = 90000;

/// The initialization data of a sequence header: its extradata, else its data.
pub open spec fn header_data(pkt: PacketView) -> Option<Seq<u8>> {
    if pkt.extradata is Some && pkt.extradata->0.len() > 0 {
        pkt.extradata
    } else if pkt.data.raw().len() > 0 {
        Some(pkt.data.raw())
    } else {
        None
    }
}

/// The codec parameters that a sequence header announces.
pub open spec fn announced_params(pkt: PacketView) -> Option<CodecParamsView> {
    match header_data(pkt) {
        None => None,
        Some(data) => Some(
            CodecParamsView {
                codec: pkt.codec,
                media_type: media_type_of(pkt.codec),
                clock_rate: 90000,
                extradata: Some(raw_parameter_sets(pkt.codec, data)),
            },
        ),
    }
}

/// Codec parameters of a sequence header, or `None` where it carries no
/// initialization data.
pub fn codec_params_from_sequence_header(pkt: &EncodedPacket) -> (r: Option<
    (MediaType, CodecParams),
>)
    ensures
        match announced_params(pkt@) {
            Some(p) => r matches Some((t, params)) && t == p.media_type && params@ == p,
            None => r is None,
        },
{
    let own: &[u8] = bytes_as_slice(pkt.data.as_bytes());
    let source: &[u8] = match &pkt.extradata {
        Some(ext) => if !ext.is_empty() {
            bytes_as_slice(ext)
        } else {
            own
        },
        None => own,
    };
    if source.len() == 0 {
        return None;
    }
    let media_type = codec_media_type(pkt.codec);
    let params = CodecParams {
        codec: pkt.codec,
        media_type,
        clock_rate: HEADER_CLOCK_RATE,
        extradata: Some(bytes_from_vec(hls_extradata(pkt.codec, source))),
    };
    Some((media_type, params))
}

/// The view of optional codec parameters.
pub open spec fn opt_params(p: Option<CodecParams>) -> Option<CodecParamsView> {
    match p {
        Some(x) => Some(x@),
        None => None,
    }
}

/// Parameters known so far: those known before stay.
pub open spec fn first_known(
    known: Option<CodecParamsView>,
    new: Option<CodecParamsView>,
    media_type: MediaType,
) -> Option<CodecParamsView> {
    if known is None && new is Some && new->0.media_type == media_type {
        new
    } else {
        known
    }
}

/// Records the codec parameters of a sequence header, the first of each codec.
/// Returns `true` once both video and audio are known and the header announced
/// one of them.
pub fn record_sequence_header(
    pkt: &EncodedPacket,
    video_params: &mut Option<CodecParams>,
    audio_params: &mut Option<CodecParams>,
) -> (r: bool)
    ensures
        opt_params(*final(video_params)) == first_known(
            opt_params(*old(video_params)),
            announced_params(pkt@),
            MediaType::Video,
        ),
        opt_params(*final(audio_params)) == first_known(
            opt_params(*old(audio_params)),
            announced_params(pkt@),
            MediaType::Audio,
        ),
        r == (announced_params(pkt@) is Some && *final(video_params) is Some
            && *final(audio_params) is Some),
{
    let (media_type, params) = match codec_params_from_sequence_header(pkt) {
        Some(p) => p,
        None => {
            return false;
        },
    };
    match media_type {
        MediaType::Video => {
            if video_params.is_none() {
                *video_params = Some(params);
            }
        },
        MediaType::Audio => {
            if audio_params.is_none() {
                *audio_params = Some(params);
            }
        },
    }
    video_params.is_some() && audio_params.is_some()
}

/// An HLS branch waiting for its codecs.
#[derive(Debug)]
pub struct DeferredHls {
    video_params: Option<CodecParams>,
    audio_params: Option<CodecParams>,
}

/// What a waiting branch knows.
#[verifier::ext_equal]
pub struct DeferredView {
    pub video: Option<CodecParamsView>,
    pub audio: Option<CodecParamsView>,
}

/// What follows a packet.
#[derive(Debug)]
pub enum DeferredStep {
    /// Wait for the next packet.
    Wait(DeferredHls),
    /// Build the branch with these parameters and wait no more.
    Build(Vec<CodecParams>),
}

/// `DeferredStep` with its contents as views.
#[verifier::ext_equal]
pub enum DeferredStepView {
    Wait(DeferredView),
    Build(Seq<CodecParamsView>),
}

impl View for DeferredHls {
    type V = DeferredView;

    closed spec fn view(&self) -> DeferredView {
        DeferredView { video: opt_params(self.video_params), audio: opt_params(self.audio_params) }
    }
}

impl View for DeferredStep {
    type V = DeferredStepView;

    open spec fn view(&self) -> DeferredStepView {
        match self {
            DeferredStep::Wait(d) => DeferredStepView::Wait(d@),
            DeferredStep::Build(p) => DeferredStepView::Build(params_views(p@)),
        }
    }
}

/// Optional parameters as a sequence of at most one.
pub open spec fn as_seq(p: Option<CodecParamsView>) -> Seq<CodecParamsView> {
    match p {
        Some(x) => seq![x],
        None => Seq::empty(),
    }
}

impl DeferredView {
    /// What is known after a sequence header.
    pub open spec fn recorded(self, pkt: PacketView) -> DeferredView {
        DeferredView {
            video: first_known(self.video, announced_params(pkt), MediaType::Video),
            audio: first_known(self.audio, announced_params(pkt), MediaType::Audio),
        }
    }

    /// The parameters to build with: video, then audio.
    pub open spec fn params(self) -> Seq<CodecParamsView> {
        as_seq(self.video) + as_seq(self.audio)
    }

    /// What follows a packet.
    pub open spec fn step(self, pkt: PacketView) -> DeferredStepView {
        if pkt.is_sequence_header {
            let known = self.recorded(pkt);
            if announced_params(pkt) is Some && known.video is Some && known.audio is Some {
                DeferredStepView::Build(known.params())
            } else {
                DeferredStepView::Wait(known)
            }
        } else if self.video is Some || self.audio is Some {
            DeferredStepView::Build(self.params())
        } else {
            DeferredStepView::Wait(self)
        }
    }
}

impl DeferredHls {
    /// A branch that knows no codec.
    pub fn new() -> (r: Self)
        ensures
            r@ == (DeferredView { video: None, audio: None }),
    {
        DeferredHls { video_params: None, audio_params: None }
    }

    /// The parameters to build with: video, then audio.
    fn into_params(self) -> (r: Vec<CodecParams>)
        ensures
            params_views(r@) == self@.params(),
    {
        let mut params: Vec<CodecParams> = Vec::new();
        assert(params_views(params@) =~= Seq::empty());
        if let Some(p) = self.video_params {
            params.push(p);
        }
        assert(params_views(params@) =~= as_seq(self@.video));
        if let Some(p) = self.audio_params {
            params.push(p);
        }
        assert(params_views(params@) =~= self@.params());
        params
    }

    /// Decides what follows a packet. Waiting gives the branch back; building
    /// consumes it, so a branch is built at most once.
    pub fn on_packet(self, pkt: &EncodedPacket) -> (r: DeferredStep)
        ensures
            r@ == self@.step(pkt@),
    {
        let mut video_params = self.video_params;
        let mut audio_params = self.audio_params;
        if pkt.is_sequence_header {
            let complete = record_sequence_header(pkt, &mut video_params, &mut audio_params);
            let known = DeferredHls { video_params, audio_params };
            if complete {
                return DeferredStep::Build(known.into_params());
            }
            return DeferredStep::Wait(known);
        }
        let known = DeferredHls { video_params, audio_params };
        if known.video_params.is_some() || known.audio_params.is_some() {
            return DeferredStep::Build(known.into_params());
        }
        DeferredStep::Wait(known)
    }
}

/// A branch is never built without parameters.
pub proof fn law_build_has_params(d: DeferredView, pkt: PacketView)
    ensures
        d.step(pkt) matches DeferredStepView::Build(p) ==> 1 <= p.len() <= 2,
{
}

/// The branch waits for both codecs: a header of the one, then a header of the
/// other, and the branch is built with both, video first, whichever came first.
pub proof fn law_both_headers_build(video: PacketView, audio: PacketView)
    requires
        video.is_sequence_header,
        audio.is_sequence_header,
        media_type_of(video.codec) == MediaType::Video,
        media_type_of(audio.codec) == MediaType::Audio,
        announced_params(video) is Some,
        announced_params(audio) is Some,
    ensures
        ({
            let nothing = DeferredView { video: None, audio: None };
            let both = seq![announced_params(video)->0, announced_params(audio)->0];
            &&& nothing.step(video) matches DeferredStepView::Wait(d) && d.step(audio)
                == DeferredStepView::Build(both)
            &&& nothing.step(audio) matches DeferredStepView::Wait(d) && d.step(video)
                == DeferredStepView::Build(both)
        }),
{
    let both = DeferredView { video: announced_params(video), audio: announced_params(audio) };
    assert(both.params() =~= seq![announced_params(video)->0, announced_params(audio)->0]);
}

/// A stream with a single codec starts with its first media packet; media before
/// any header starts nothing.
pub proof fn law_single_codec_starts_with_media(d: DeferredView, media: PacketView)
    requires
        !media.is_sequence_header,
    ensures
        d.video is None && d.audio is None ==> d.step(media) == DeferredStepView::Wait(d),
        d.video is Some || d.audio is Some ==> d.step(media) == DeferredStepView::Build(d.params()),
{
}

/// The first header of a codec counts: a later one changes nothing of it.
pub proof fn law_first_header_counts(d: DeferredView, later: PacketView)
    requires
        later.is_sequence_header,
    ensures
        d.video is Some ==> d.recorded(later).video == d.video,
        d.audio is Some ==> d.recorded(later).audio == d.audio,
{
}

/// What an H.264 header announces is what the transport stream muxer needs: a decoder
/// configuration record gives its raw parameter sets, SPS then PPS, whether it comes as
/// extradata or, without any, as data. Both sets must fit the record's 16-bit lengths.
pub proof fn law_record_announces_raw_sets(pkt: PacketView, sps: Seq<u8>, pps: Seq<u8>)
    requires
        pkt.codec == Codec::H264,
        4 <= sps.len() < 0x1_0000,
        pps.len() < 0x1_0000,
        pkt.extradata == Some(avcc_record(sps, pps)) || (pkt.extradata is None && pkt.data.raw()
            == avcc_record(sps, pps)),
    ensures
        announced_params(pkt) is Some,
        announced_params(pkt)->0.codec == Codec::H264,
        announced_params(pkt)->0.media_type == MediaType::Video,
        announced_params(pkt)->0.clock_rate == 90000,
        announced_params(pkt)->0.extradata == Some(sps + pps),
{
    law_record_gives_sets_back(sps, pps);
}

/// A header of another codec announces its extradata as it is, or its data where it has
/// none, under its own codec.
pub proof fn law_other_headers_announce_their_data(pkt: PacketView)
    requires
        pkt.codec != Codec::H264,
    ensures
        pkt.extradata is Some && pkt.extradata->0.len() > 0 ==> announced_params(pkt) is Some
            && announced_params(pkt)->0.extradata == pkt.extradata,
        (pkt.extradata is None || pkt.extradata->0.len() == 0) && pkt.data.raw().len() > 0
            ==> announced_params(pkt) is Some && announced_params(pkt)->0.extradata == Some(
            pkt.data.raw(),
        ),
        announced_params(pkt) is Some ==> announced_params(pkt)->0.codec == pkt.codec
            && announced_params(pkt)->0.clock_rate == 90000 && (announced_params(pkt)->0.media_type
            == MediaType::Audio <==> pkt.codec == Codec::Aac || pkt.codec == Codec::Mp3 || pkt.codec
            == Codec::Opus),
{
}

/// A header announces nothing exactly where it carries no byte.
pub proof fn law_empty_headers_announce_nothing(pkt: PacketView)
    ensures
        announced_params(pkt) is None <==> (pkt.extradata is None || pkt.extradata->0.len() == 0)
            && pkt.data.raw().len() == 0,
{
}

/// A header counts for the kind of its codec, and for that kind alone; one that
/// announces nothing changes nothing and starts nothing. Until both kinds are known
/// headers are waited for.
pub proof fn law_headers_count_for_their_kind(d: DeferredView, header: PacketView)
    requires
        header.is_sequence_header,
    ensures
        announced_params(header) is None ==> d.step(header) == DeferredStepView::Wait(d),
        announced_params(header) is Some ==> {
            let new = announced_params(header);
            let is_video = new->0.media_type == MediaType::Video;
            let video = if is_video && d.video is None {
                new
            } else {
                d.video
            };
            let audio = if !is_video && d.audio is None {
                new
            } else {
                d.audio
            };
            match d.step(header) {
                DeferredStepView::Wait(after) => {
                    &&& video is None || audio is None
                    &&& after.video == video
                    &&& after.audio == audio
                },
                DeferredStepView::Build(params) => {
                    &&& video is Some && audio is Some
                    &&& params.len() == 2
                    &&& params[0] == video->0
                    &&& params[1] == audio->0
                },
            }
        },
{
}

/// A branch that starts with media is built with what is known, video before audio.
pub proof fn law_branch_is_built_with_what_is_known(d: DeferredView, media: PacketView)
    requires
        !media.is_sequence_header,
    ensures
        d.step(media) matches DeferredStepView::Build(params) ==> {
            &&& params.len() == (if d.video is Some {
                1int
            } else {
                0
            }) + (if d.audio is Some {
                1int
            } else {
                0
            })
            &&& d.video is Some ==> params[0] == d.video->0
            &&& d.audio is Some ==> params.last() == d.audio->0
        },
        d.step(media) is Wait <==> d.video is None && d.audio is None,
{
}

} // verus!
