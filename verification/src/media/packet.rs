//! Packets of the codec library as plain values, and their conversion.
//!
//! `EncodedPacket` counts time in milliseconds. `to_av_packet` gives a packet in
//! that time base; the caller rescales it before a muxer with another one, and
//! rescales a packet to milliseconds before `from_av_packet`.
use crate::buffer::bytes_of;
use crate::codec::nal_data::{NalData, NalView};
use crate::codec::packet::{EncodedPacket, PacketView};
use crate::types::Codec;
use bytes::Bytes;
use vstd::prelude::*;

verus! {

/// The timestamp value that stands for none.
pub const NO_TIMESTAMP: i64 = i64::MIN;

/// The fields of a packet of the codec library.
#[derive(Debug)]
pub struct PacketFields {
    pub data: Bytes,
    /// Presentation timestamp, or `NO_TIMESTAMP`.
    pub pts: i64,
    /// Decode timestamp, or `NO_TIMESTAMP`.
    pub dts: i64,
    pub stream_index: i32,
    pub key_frame: bool,
}

/// A timestamp, unless it stands for none.
pub open spec fn known_timestamp(raw: i64) -> Option<i64> {
    if raw == NO_TIMESTAMP {
        None
    } else {
        Some(raw)
    }
}

/// A timestamp, unless it stands for none.
pub fn timestamp_of(raw: i64) -> (r: Option<i64>)
    ensures
        r == known_timestamp(raw),
{
    if raw != NO_TIMESTAMP {
        Some(raw)
    } else {
        None
    }
}

impl PacketFields {
    /// The presentation timestamp.
    pub fn pts(&self) -> (r: Option<i64>)
        ensures
            r == known_timestamp(self.pts),
    {
        timestamp_of(self.pts)
    }

    /// The decode timestamp.
    pub fn dts(&self) -> (r: Option<i64>)
        ensures
            r == known_timestamp(self.dts),
    {
        timestamp_of(self.dts)
    }

    /// Whether the packet is a keyframe.
    pub fn is_key_frame(&self) -> (r: bool)
        ensures
            r == self.key_frame,
    {
        self.key_frame
    }
}

/// The first timestamp that is there, else 0: DTS, then PTS.
pub open spec fn dts_or_fallback(dts: Option<i64>, pts: Option<i64>) -> i64 {
    match (dts, pts) {
        (Some(d), _) => d,
        (None, Some(p)) => p,
        (None, None) => 0,
    }
}

impl EncodedPacket {
    /// Converts to a packet with timestamps in milliseconds.
    pub fn to_av_packet(&self) -> (r: PacketFields)
        ensures
            bytes_of(r.data) == self@.data.raw(),
            r.pts == (if self.pts_ms is Some {
                self.pts_ms->0
            } else {
                NO_TIMESTAMP
            }),
            r.dts == (if self.dts_ms is Some {
                self.dts_ms->0
            } else {
                NO_TIMESTAMP
            }),
            r.stream_index == self.stream_index as i32,
            r.key_frame == self.is_keyframe,
    {
        PacketFields {
            data: self.data.as_bytes().clone(),
            pts: match self.pts_ms {
                Some(t) => t,
                None => NO_TIMESTAMP,
            },
            dts: match self.dts_ms {
                Some(t) => t,
                None => NO_TIMESTAMP,
            },
            stream_index: #[verifier::truncate]
            (self.stream_index as i32),
            key_frame: self.is_keyframe,
        }
    }

    /// Converts from a packet whose timestamps are in milliseconds.
    ///
    /// Where the DTS is missing the PTS is used, where both are missing 0, so
    /// that no packet reaches a muxer without a decode time.
    pub fn from_av_packet(pkt: &PacketFields, codec: Codec) -> (r: EncodedPacket)
        ensures
            r@ == (PacketView {
                codec,
                stream_index: pkt.stream_index as usize,
                data: NalView::AnnexB(bytes_of(pkt.data)),
                pts_ms: known_timestamp(pkt.pts),
                dts_ms: Some(
                    dts_or_fallback(known_timestamp(pkt.dts), known_timestamp(pkt.pts)),
                ),
                is_keyframe: pkt.key_frame,
                is_sequence_header: false,
                is_script_data: false,
                extradata: None,
            }),
    {
        let pts_ms = pkt.pts();
        let dts_ms = match pkt.dts() {
            Some(d) => Some(d),
            None => match pts_ms {
                Some(p) => Some(p),
                None => Some(0),
            },
        };
        EncodedPacket {
            codec,
            stream_index: #[verifier::truncate]
            (pkt.stream_index as usize),
            data: NalData::AnnexB(pkt.data.clone()),
            pts_ms,
            dts_ms,
            is_keyframe: pkt.is_key_frame(),
            is_sequence_header: false,
            is_script_data: false,
            extradata: None,
        }
    }
}

/// Converting a packet there and back keeps its data, times, stream and keyframe
/// flag; a missing DTS becomes the PTS. The stream index must fit 31 bits, and a
/// timestamp must not be the value that stands for none.
pub proof fn law_conversion_roundtrip(pkt: EncodedPacket, av: PacketFields, back: EncodedPacket)
    requires
        pkt.stream_index <= i32::MAX,
        pkt.pts_ms != Some(NO_TIMESTAMP),
        pkt.dts_ms != Some(NO_TIMESTAMP),
        call_ensures(EncodedPacket::to_av_packet, (&pkt,), av),
        call_ensures(EncodedPacket::from_av_packet, (&av, pkt.codec), back),
    ensures
        back@.codec == pkt@.codec,
        back@.data.raw() == pkt@.data.raw(),
        back@.stream_index == pkt@.stream_index,
        back@.pts_ms == pkt@.pts_ms,
        back@.dts_ms == Some(dts_or_fallback(pkt@.dts_ms, pkt@.pts_ms)),
        back@.is_keyframe == pkt@.is_keyframe,
{
}

/// A timestamp is lost exactly where it is the least of its type, which stands for
/// none; every other comes through as it is.
pub proof fn law_timestamps_come_through(raw: i64)
    ensures
        raw == i64::MIN ==> known_timestamp(raw) is None,
        raw != i64::MIN ==> known_timestamp(raw) == Some(raw),
{
}

/// A packet from the codec library has a decode time always: its own, else its
/// presentation time, else 0. Data, presentation time, stream and keyframe flag come
/// through, and it is a media packet.
pub proof fn law_converted_packets_have_a_decode_time(
    av: PacketFields,
    codec: Codec,
    r: EncodedPacket,
)
    requires
        call_ensures(EncodedPacket::from_av_packet, (&av, codec), r),
    ensures
        r@.codec == codec,
        r@.data == NalView::AnnexB(bytes_of(av.data)),
        av.dts != i64::MIN ==> r@.dts_ms == Some(av.dts),
        av.dts == i64::MIN && av.pts != i64::MIN ==> r@.dts_ms == Some(av.pts),
        av.dts == i64::MIN && av.pts == i64::MIN ==> r@.dts_ms == Some(0i64),
        av.pts != i64::MIN ==> r@.pts_ms == Some(av.pts),
        av.pts == i64::MIN ==> r@.pts_ms is None,
        0 <= av.stream_index ==> r@.stream_index == av.stream_index,
        r@.is_keyframe == av.key_frame,
        !r@.is_sequence_header && !r@.is_script_data && r@.extradata is None,
{
}

/// A packet for the codec library carries the times that are known, and for others the
/// value that stands for none.
pub proof fn law_unknown_times_are_marked(pkt: EncodedPacket, av: PacketFields)
    requires
        call_ensures(EncodedPacket::to_av_packet, (&pkt,), av),
    ensures
        pkt.pts_ms matches Some(t) ==> av.pts == t,
        pkt.pts_ms is None ==> av.pts == i64::MIN,
        pkt.dts_ms matches Some(t) ==> av.dts == t,
        pkt.dts_ms is None ==> av.dts == i64::MIN,
        bytes_of(av.data) == pkt@.data.raw(),
        av.key_frame == pkt.is_keyframe,
        pkt.stream_index <= i32::MAX ==> av.stream_index == pkt.stream_index,
{
}

} // verus!
