//! FLV muxing: `EncodedPacket` to `FlvTag`.
use crate::bits::be24_bytes;
use crate::buffer::{bytes_as_slice, bytes_mut_of, bytes_of, opt_bytes, put_u8};
use crate::codec::annexb::{annexb_nals, lemma_units_fit};
use crate::codec::avcc::{annexb_to_avcc, avcc_join, avcc_nals, law_avcc_framing_is_lossless};
use crate::codec::packet::{EncodedPacket, PacketView};
use crate::flv::tag::{put_u24, tag_views, video_keyframe, FlvTag, FlvTagView};
use crate::traits::Node;
use crate::types::Codec;
use bytes::{Bytes, BytesMut};
use vstd::prelude::*;

verus! {

/// Largest CompositionTime of a video tag (24 bits).
pub const MAX_COMPOSITION_TIME: u32 = 0xFF_FFFF;

/// Muxes one stream into FLV tags.
pub struct FlvMux {
    stream_id: String,
    /// Whether this stream's H.264 sequence header carries an
    /// AVCDecoderConfigurationRecord. Such streams carry length-prefixed NALs in
    /// media tags; Annex B sources keep their framing untouched.
    avcc_framing: bool,
}

/// A timestamp with negative and missing times taken as 0.
pub open spec fn clamped_ms(t: Option<i64>) -> int {
    match t {
        Some(ms) => if ms > 0 {
            ms as int
        } else {
            0
        },
        None => 0,
    }
}

/// The presentation time of a video packet.
pub open spec fn video_pts_ms(pkt: PacketView) -> int {
    clamped_ms(pkt.pts_ms)
}

/// The decode time of a video packet: its PTS where it has no DTS.
pub open spec fn video_dts_ms(pkt: PacketView) -> int {
    if pkt.dts_ms is Some {
        clamped_ms(pkt.dts_ms)
    } else {
        video_pts_ms(pkt)
    }
}

/// A time as a tag timestamp, capped at 32 bits.
pub open spec fn tag_timestamp(ms: int) -> u32 {
    if ms > u32::MAX {
        u32::MAX
    } else {
        ms as u32
    }
}

/// CompositionTime: PTS - DTS, kept within 24 bits.
pub open spec fn composition_time(pkt: PacketView) -> u32 {
    let diff = video_pts_ms(pkt) - video_dts_ms(pkt);
    if diff < 0 {
        0
    } else if diff > 0xFF_FFFF {
        0xFF_FFFF
    } else {
        diff as u32
    }
}

/// Whether a packet announces length-prefixed media NALs: an H.264 sequence
/// header whose extradata is a decoder configuration record (version 1).
pub open spec fn announces_avcc(pkt: PacketView) -> bool {
    &&& pkt.is_sequence_header
    &&& pkt.codec == Codec::H264
    &&& pkt.extradata matches Some(e) && e.len() > 0 && e[0] == 1
}

/// Media data as it goes into a tag.
pub open spec fn framed_media(avcc_framing: bool, data: Seq<u8>) -> Seq<u8> {
    if avcc_framing {
        avcc_join(annexb_nals(data))
    } else {
        data
    }
}

/// First byte of a video tag: FrameType (1 key, 2 inter) and CodecID.
pub open spec fn video_tag_head(pkt: PacketView) -> u8 {
    ((if pkt.is_keyframe {
        16int
    } else {
        32
    }) + (if pkt.codec == Codec::H265 {
        12int
    } else {
        7
    })) as u8
}

/// Payload of a video tag. A sequence header carries the extradata, a media tag
/// the framed data behind its composition time.
pub open spec fn video_tag_payload(avcc_framing: bool, pkt: PacketView) -> Seq<u8> {
    if pkt.is_sequence_header {
        seq![video_tag_head(pkt), 0u8] + be24_bytes(0) + (match pkt.extradata {
            Some(e) => e,
            None => Seq::empty(),
        })
    } else {
        seq![video_tag_head(pkt), 1u8] + be24_bytes(composition_time(pkt)) + framed_media(
            avcc_framing,
            pkt.data.raw(),
        )
    }
}

/// Payload of an audio tag: AAC, 44 kHz, 16 bit, stereo.
pub open spec fn audio_tag_payload(pkt: PacketView) -> Seq<u8> {
    seq![
        0xAFu8,
        (if pkt.is_sequence_header {
            0u8
        } else {
            1u8
        }),
    ] + pkt.data.raw()
}

/// The video tag of a packet.
pub open spec fn video_tag(avcc_framing: bool, pkt: PacketView) -> FlvTagView {
    FlvTagView::Video {
        timestamp: tag_timestamp(video_dts_ms(pkt)),
        payload: video_tag_payload(avcc_framing, pkt),
        is_keyframe: pkt.is_keyframe,
    }
}

/// The audio tag of a packet.
pub open spec fn audio_tag(pkt: PacketView) -> FlvTagView {
    FlvTagView::Audio {
        timestamp: tag_timestamp(clamped_ms(pkt.pts_ms)),
        payload: audio_tag_payload(pkt),
    }
}

/// The tags a packet is muxed into: one for H.264, H.265 and AAC, none for
/// other codecs.
pub open spec fn muxed_tags(avcc_framing: bool, pkt: PacketView) -> Seq<FlvTagView> {
    match pkt.codec {
        Codec::H264 | Codec::H265 => seq![video_tag(avcc_framing, pkt)],
        Codec::Aac => seq![audio_tag(pkt)],
        _ => Seq::empty(),
    }
}

/// Whether the stream has length-prefixed framing after a packet: once
/// announced, it stays.
pub open spec fn framing_after(avcc_framing: bool, pkt: PacketView) -> bool {
    avcc_framing || announces_avcc(pkt)
}

/// Whether the tag of a packet fits a buffer.
pub open spec fn tag_fits(avcc_framing: bool, pkt: PacketView) -> bool {
    match pkt.codec {
        Codec::H264 | Codec::H265 => video_tag_payload(avcc_framing, pkt).len() <= isize::MAX,
        Codec::Aac => audio_tag_payload(pkt).len() <= isize::MAX,
        _ => true,
    }
}

/// A timestamp with negative and missing times taken as 0.
fn clamp_ms(t: Option<i64>) -> (r: u64)
    ensures
        r == clamped_ms(t),
{
    match t {
        Some(ms) => if ms > 0 {
            ms as u64
        } else {
            0
        },
        None => 0,
    }
}

/// A time as a tag timestamp, capped at 32 bits.
fn cap_timestamp(ms: u64) -> (r: u32)
    ensures
        r == tag_timestamp(ms as int),
{
    if ms > u32::MAX as u64 {
        u32::MAX
    } else {
        ms as u32
    }
}

impl FlvMux {
    /// The stream being muxed.
    pub closed spec fn id(&self) -> Seq<char> {
        self.stream_id@
    }

    /// Whether media tags carry length-prefixed NALs.
    pub closed spec fn framing(&self) -> bool {
        self.avcc_framing
    }

    /// A muxer for a stream whose sequence header has not been seen.
    pub fn new(stream_id: &str) -> (r: Self)
        ensures
            r.id() == stream_id@,
            !r.framing(),
    {
        FlvMux { stream_id: stream_id.to_owned(), avcc_framing: false }
    }

    /// The stream being muxed, for log messages.
    pub fn stream_id(&self) -> (r: &str)
        ensures
            r@ == self.id(),
    {
        self.stream_id.as_str()
    }

    /// Muxes a video packet.
    ///
    /// The tag timestamp is the decode timestamp, with CompositionTime carrying
    /// PTS - DTS so that players can reconstruct the PTS.
    pub fn mux_video(&mut self, pkt: &EncodedPacket) -> (r: Vec<FlvTag>)
        requires
            video_tag_payload(old(self).framing(), pkt@).len() <= isize::MAX,
        ensures
            final(self).id() == old(self).id(),
            final(self).framing() == framing_after(old(self).framing(), pkt@),
            tag_views(r@) == seq![video_tag(old(self).framing(), pkt@)],
    {
        let pts_ms: u64 = clamp_ms(pkt.pts_ms);
        let dts_ms: u64 = if pkt.dts_ms.is_some() {
            clamp_ms(pkt.dts_ms)
        } else {
            pts_ms
        };
        let timestamp: u32 = cap_timestamp(dts_ms);
        let composition: u32 = if pts_ms <= dts_ms {
            0
        } else if pts_ms - dts_ms > MAX_COMPOSITION_TIME as u64 {
            MAX_COMPOSITION_TIME
        } else {
            (pts_ms - dts_ms) as u32
        };
        let payload: Bytes = if pkt.is_sequence_header {
            if pkt.codec == Codec::H264 && Self::is_avcc_record(&pkt.extradata) {
                self.avcc_framing = true;
            }
            Self::build_avc_sequence_header(&pkt.extradata)
        } else {
            self.annex_b_to_avcc(bytes_as_slice(pkt.data.as_bytes()))
        };
        let head: u8 = (if pkt.is_keyframe {
            16
        } else {
            32
        }) + (if pkt.codec == Codec::H265 {
            12
        } else {
            7
        });
        let mut tag_payload: BytesMut = BytesMut::new();
        put_u8(&mut tag_payload, head);
        if pkt.is_sequence_header {
            put_u8(&mut tag_payload, 0);
            put_u24(&mut tag_payload, 0);
        } else {
            put_u8(&mut tag_payload, 1);
            put_u24(&mut tag_payload, composition);
        }
        tag_payload.extend_from_slice(bytes_as_slice(&payload));
        proof {
            assert(bytes_mut_of(tag_payload) =~= video_tag_payload(old(self).framing(), pkt@));
            assert(video_keyframe(bytes_mut_of(tag_payload)) == pkt@.is_keyframe);
        }
        let tag = FlvTag::video(timestamp, tag_payload.freeze());
        let mut tags: Vec<FlvTag> = Vec::new();
        tags.push(tag);
        assert(tag_views(tags@) =~= seq![video_tag(old(self).framing(), pkt@)]);
        tags
    }

    /// Muxes an AAC packet.
    pub fn mux_audio(&self, pkt: &EncodedPacket) -> (r: Vec<FlvTag>)
        requires
            audio_tag_payload(pkt@).len() <= isize::MAX,
        ensures
            tag_views(r@) == seq![audio_tag(pkt@)],
    {
        let timestamp: u32 = cap_timestamp(clamp_ms(pkt.pts_ms));
        let aac_packet_type: u8 = if pkt.is_sequence_header {
            0
        } else {
            1
        };
        let mut tag_payload: BytesMut = BytesMut::new();
        put_u8(&mut tag_payload, 0xAF);
        put_u8(&mut tag_payload, aac_packet_type);
        tag_payload.extend_from_slice(bytes_as_slice(pkt.data.as_bytes()));
        assert(bytes_mut_of(tag_payload) =~= audio_tag_payload(pkt@));
        let tag = FlvTag::audio(timestamp, tag_payload.freeze());
        let mut tags: Vec<FlvTag> = Vec::new();
        tags.push(tag);
        assert(tag_views(tags@) =~= seq![audio_tag(pkt@)]);
        tags
    }

    /// Whether extradata is an AVCDecoderConfigurationRecord (version 1).
    fn is_avcc_record(extradata: &Option<Bytes>) -> (r: bool)
        ensures
            r == (opt_bytes(*extradata) matches Some(e) && e.len() > 0 && e[0] == 1),
    {
        match extradata {
            Some(e) => {
                let s: &[u8] = bytes_as_slice(e);
                s.len() > 0 && s[0] == 1
            },
            None => false,
        }
    }

    /// Body of a sequence header tag: the extradata as it is.
    fn build_avc_sequence_header(extradata: &Option<Bytes>) -> (r: Bytes)
        ensures
            bytes_of(r) == (match opt_bytes(*extradata) {
                Some(e) => e,
                None => Seq::empty(),
            }),
    {
        match extradata {
            Some(e) => e.clone(),
            None => Bytes::new(),
        }
    }

    /// Converts Annex B to AVCC (length-prefixed) NAL framing.
    ///
    /// Only for streams whose sequence header is a decoder configuration record;
    /// Annex B sources keep their framing unchanged.
    pub fn annex_b_to_avcc(&self, data: &[u8]) -> (r: Bytes)
        requires
            framed_media(self.framing(), data@).len() <= isize::MAX,
        ensures
            bytes_of(r) == framed_media(self.framing(), data@),
    {
        if !self.avcc_framing {
            return Bytes::copy_from_slice(data);
        }
        annexb_to_avcc(data)
    }

    /// Muxes one packet into tags. Packets of other codecs than H.264, H.265 and
    /// AAC are dropped.
    pub fn process(&mut self, pkt: EncodedPacket) -> (r: Vec<FlvTag>)
        requires
            tag_fits(old(self).framing(), pkt@),
        ensures
            final(self).id() == old(self).id(),
            final(self).framing() == framing_after(old(self).framing(), pkt@),
            tag_views(r@) == muxed_tags(old(self).framing(), pkt@),
    {
        match pkt.codec {
            Codec::H264 | Codec::H265 => self.mux_video(&pkt),
            Codec::Aac => self.mux_audio(&pkt),
            _ => {
                let none: Vec<FlvTag> = Vec::new();
                assert(tag_views(none@) =~= Seq::empty());
                none
            },
        }
    }
}

impl Node for FlvMux {
    fn name(&self) -> (r: &str)
        ensures
            r@ == "flv-mux"@,
    {
        "flv-mux"
    }
}

/// A muxed tag is a sequence header exactly where its packet is one, and a
/// keyframe exactly where its packet is one.
pub proof fn law_mux_keeps_packet_kind(avcc_framing: bool, pkt: PacketView)
    ensures
        (pkt.codec == Codec::H264 || pkt.codec == Codec::H265) ==> ({
            let tag = video_tag(avcc_framing, pkt);
            &&& tag.is_sequence_header() == pkt.is_sequence_header
            &&& tag matches FlvTagView::Video { payload, is_keyframe, .. } && is_keyframe
                == pkt.is_keyframe && video_keyframe(payload) == pkt.is_keyframe
        }),
        pkt.codec == Codec::Aac ==> audio_tag(pkt).is_sequence_header() == pkt.is_sequence_header,
{
}

/// Players reconstruct the PTS: tag timestamp plus CompositionTime. It holds for
/// times that fit the tag's fields and a PTS not before the DTS.
pub proof fn law_pts_is_timestamp_plus_composition(pkt: PacketView)
    requires
        pkt.pts_ms matches Some(p) && 0 <= p,
        0 <= video_dts_ms(pkt) <= u32::MAX,
        0 <= video_pts_ms(pkt) - video_dts_ms(pkt) <= 0xFF_FFFF,
    ensures
        tag_timestamp(video_dts_ms(pkt)) + composition_time(pkt) == pkt.pts_ms->0,
{
}

/// A stream has length-prefixed framing from the first packet that announces it:
/// no later packet takes it back, and no other packet brings it about.
pub proof fn law_framing_is_permanent(avcc_framing: bool, pkts: Seq<PacketView>)
    ensures
        framing_run(avcc_framing, pkts) <==> avcc_framing || exists|k: int|
            0 <= k < pkts.len() && announces_avcc(#[trigger] pkts[k]),
    decreases pkts.len(),
{
    if pkts.len() > 0 {
        let front = pkts.drop_last();
        law_framing_is_permanent(avcc_framing, front);
        if exists|k: int| 0 <= k < front.len() && announces_avcc(#[trigger] front[k]) {
            let k = choose|k: int| 0 <= k < front.len() && announces_avcc(#[trigger] front[k]);
            assert(announces_avcc(pkts[k]));
        }
        if exists|k: int| 0 <= k < pkts.len() && announces_avcc(#[trigger] pkts[k]) {
            let k = choose|k: int| 0 <= k < pkts.len() && announces_avcc(#[trigger] pkts[k]);
            if k < front.len() {
                assert(announces_avcc(front[k]));
            }
        }
    }
}

/// A sequence header becomes one tag that is a sequence header: head byte, packet
/// type 0, no composition time, and the extradata as it is, whatever the framing.
pub proof fn law_header_tag_carries_extradata(avcc_framing: bool, pkt: PacketView)
    requires
        pkt.is_sequence_header,
        pkt.codec == Codec::H264 || pkt.codec == Codec::H265,
    ensures
        muxed_tags(avcc_framing, pkt) == seq![video_tag(avcc_framing, pkt)],
        video_tag(avcc_framing, pkt).is_sequence_header(),
        video_tag_payload(avcc_framing, pkt) == seq![video_tag_head(pkt), 0u8, 0u8, 0u8, 0u8] + (
        match pkt.extradata {
            Some(e) => e,
            None => Seq::empty(),
        }),
{
    law_mux_keeps_packet_kind(avcc_framing, pkt);
    assert(be24_bytes(0) =~= seq![0u8, 0u8, 0u8]);
}

/// The framing after a run of packets.
pub open spec fn framing_run(avcc_framing: bool, pkts: Seq<PacketView>) -> bool
    decreases pkts.len(),
{
    if pkts.len() == 0 {
        avcc_framing
    } else {
        framing_after(framing_run(avcc_framing, pkts.drop_last()), pkts.last())
    }
}

/// A video tag is decoded at its packet's DTS: the timestamp is the DTS itself, of key
/// and inter frames alike, and the PTS only where there is no DTS. Times before the
/// start count as the start, times past 32 bits as the last one.
pub proof fn law_video_tag_time_is_decode_time(avcc_framing: bool, pkt: PacketView)
    requires
        pkt.codec == Codec::H264 || pkt.codec == Codec::H265,
    ensures
        ({
            let tags = muxed_tags(avcc_framing, pkt);
            &&& tags.len() == 1
            &&& tags[0] matches FlvTagView::Video { timestamp, .. } && {
                &&& pkt.dts_ms matches Some(d) ==> {
                    &&& 0 <= d <= u32::MAX ==> timestamp == d
                    &&& d < 0 ==> timestamp == 0
                    &&& d > u32::MAX ==> timestamp == u32::MAX
                }
                &&& pkt.dts_ms is None ==> (pkt.pts_ms matches Some(p) ==> {
                    &&& 0 <= p <= u32::MAX ==> timestamp == p
                    &&& p < 0 ==> timestamp == 0
                    &&& p > u32::MAX ==> timestamp == u32::MAX
                })
                &&& pkt.dts_ms is None && pkt.pts_ms is None ==> timestamp == 0
            }
        }),
{
}

/// A media tag carries, behind its head byte and packet type 1, how much later than
/// decoded its frame is shown, as three bytes: PTS minus DTS, nothing where the PTS
/// is not later, and the most that fits where it is much later; a time before the
/// start counts as the start. A frame without a DTS or a PTS is shown when decoded.
pub proof fn law_media_tag_carries_composition_time(avcc_framing: bool, pkt: PacketView)
    requires
        pkt.codec == Codec::H264 || pkt.codec == Codec::H265,
        !pkt.is_sequence_header,
    ensures
        ({
            let tags = muxed_tags(avcc_framing, pkt);
            &&& tags.len() == 1
            &&& tags[0] matches FlvTagView::Video { payload, .. } && {
                let shift = payload[2] * 0x1_0000 + payload[3] * 256 + payload[4];
                &&& payload.len() >= 5
                &&& payload[1] == 1
                &&& (pkt.pts_ms, pkt.dts_ms) matches (Some(p), Some(d)) ==> {
                    &&& 0 <= d && 0 <= p - d <= 0xFF_FFFF ==> shift == p - d
                    &&& p < d ==> shift == 0
                    &&& 0 <= d && p - d > 0xFF_FFFF ==> shift == 0xFF_FFFF
                    &&& d < 0 <= p <= 0xFF_FFFF ==> shift == p
                    &&& d < 0 && p > 0xFF_FFFF ==> shift == 0xFF_FFFF
                    &&& p < 0 ==> shift == 0
                }
                &&& pkt.pts_ms is None || pkt.dts_ms is None ==> shift == 0
            }
        }),
{
    let c = composition_time(pkt);
    let payload = video_tag_payload(avcc_framing, pkt);
    assert(payload[2] == be24_bytes(c)[0]);
    assert(payload[3] == be24_bytes(c)[1]);
    assert(payload[4] == be24_bytes(c)[2]);
}

/// The first byte of a video tag names the kind of frame and the codec: the high
/// half is 1 for a keyframe and 2 for any other, the low half 7 for H.264 and 12 for
/// H.265.
pub proof fn law_video_tag_names_frame_and_codec(avcc_framing: bool, pkt: PacketView)
    requires
        pkt.codec == Codec::H264 || pkt.codec == Codec::H265,
    ensures
        muxed_tags(avcc_framing, pkt)[0] matches FlvTagView::Video { payload, is_keyframe, .. } && {
            &&& pkt.is_keyframe ==> payload[0] / 16 == 1
            &&& !pkt.is_keyframe ==> payload[0] / 16 == 2
            &&& pkt.codec == Codec::H264 ==> payload[0] % 16 == 7
            &&& pkt.codec == Codec::H265 ==> payload[0] % 16 == 12
            &&& is_keyframe == pkt.is_keyframe
        },
{
}

/// A media tag carries its packet's NAL units and nothing else: as they came, or,
/// once length-prefixed framing was announced, such that a reader of that framing
/// finds the same units in the same order.
pub proof fn law_media_tag_carries_units(avcc_framing: bool, pkt: PacketView)
    requires
        pkt.codec == Codec::H264 || pkt.codec == Codec::H265,
        !pkt.is_sequence_header,
        pkt.data.raw().len() < 0x1_0000_0000,
    ensures
        muxed_tags(avcc_framing, pkt)[0] matches FlvTagView::Video { payload, .. } && {
            &&& !avcc_framing ==> payload.skip(5) == pkt.data.raw()
            &&& avcc_framing ==> avcc_nals(payload.skip(5)) == annexb_nals(pkt.data.raw())
        },
{
    let data = pkt.data.raw();
    let payload = video_tag_payload(avcc_framing, pkt);
    assert(payload.skip(5) =~= framed_media(avcc_framing, data));
    if avcc_framing {
        lemma_units_fit(data);
        law_avcc_framing_is_lossless(annexb_nals(data));
    }
}

/// An AAC packet becomes one audio tag at its PTS: the format byte, packet type 0 for
/// a sequence header and 1 for any other, and the packet's bytes as they are.
pub proof fn law_audio_tag_carries_packet(avcc_framing: bool, pkt: PacketView)
    requires
        pkt.codec == Codec::Aac,
    ensures
        muxed_tags(avcc_framing, pkt).len() == 1,
        muxed_tags(avcc_framing, pkt)[0] matches FlvTagView::Audio { timestamp, payload } && {
            &&& pkt.pts_ms matches Some(p) ==> {
                &&& 0 <= p <= u32::MAX ==> timestamp == p
                &&& p < 0 ==> timestamp == 0
                &&& p > u32::MAX ==> timestamp == u32::MAX
            }
            &&& pkt.pts_ms is None ==> timestamp == 0
            &&& payload[0] == 0xAF
            &&& pkt.is_sequence_header ==> payload[1] == 0
            &&& !pkt.is_sequence_header ==> payload[1] == 1
            &&& payload.skip(2) == pkt.data.raw()
        },
{
    assert(audio_tag_payload(pkt).skip(2) =~= pkt.data.raw());
}

/// Other codecs have no tag, and each packet has at most one.
pub proof fn law_only_flv_codecs_are_muxed(avcc_framing: bool, pkt: PacketView)
    ensures
        muxed_tags(avcc_framing, pkt).len() == 1 <==> pkt.codec == Codec::H264 || pkt.codec
            == Codec::H265 || pkt.codec == Codec::Aac,
        muxed_tags(avcc_framing, pkt).len() <= 1,
{
}

/// Length-prefixed framing begins with an H.264 sequence header whose extradata starts
/// with the byte 1, and with no other packet.
pub proof fn law_record_announces_framing(pkt: PacketView)
    ensures
        framing_after(false, pkt) <==> pkt.is_sequence_header && pkt.codec == Codec::H264
            && pkt.extradata is Some && pkt.extradata->0.len() > 0 && pkt.extradata->0[0] == 1,
        framing_after(true, pkt),
{
}

} // verus!
