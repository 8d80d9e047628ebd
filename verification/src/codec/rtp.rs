//! RTP packet type and header parsing.
//!
//! `RtpPacket` carries raw RTP frames from the RTSP source to the depacketizer.
use crate::bits::{be16, be16_bytes, be32, be32_bytes, law_numbers_are_big_endian, lemma_be_roundtrip, lemma_byte_fields, push_be16, push_be32, push_slice, u16_from_be, u32_from_be};
use crate::buffer::{bytes_from_vec, bytes_of};
use crate::time::Duration;
use crate::types::{CodecParams, MediaPacket};
use bytes::Bytes;
use vstd::prelude::*;
use vstd::slice::slice_subrange;

verus! {

/// Length of the fixed RTP header (RFC 3550 §5.1).
pub const RTP_FIXED_HEADER_LEN: usize = 12;

/// A complete RTP packet (12-byte header + payload).
#[derive(Debug)]
pub struct RtpPacket {
    /// RTP payload type as negotiated in SDP (e.g., 96 for H.264).
    pub payload_type: u8,
    /// RTSP interleaved channel ID (e.g., 0 for video, 2 for audio).
    pub channel: u8,
    /// RTP timestamp of the 12-byte RTP header.
    pub rtp_timestamp: u32,
    /// RTP header marker bit (for video: last packet of a frame).
    pub marker: bool,
    /// Complete RTP packet (12-byte header + payload).
    pub data: Bytes,
}

/// Parsed fields of an RTP packet.
#[derive(Clone, Copy, Debug)]
pub struct ParsedRtpHeader<'a> {
    pub payload_type: u8,
    pub marker: bool,
    pub sequence_number: u16,
    pub rtp_timestamp: u32,
    pub ssrc: u32,
    pub payload: &'a [u8],
}

/// The fields of an RTP packet, with the payload as a sequence.
#[verifier::ext_equal]
pub struct RtpFields {
    pub payload_type: u8,
    pub marker: bool,
    pub sequence_number: u16,
    pub rtp_timestamp: u32,
    pub ssrc: u32,
    pub payload: Seq<u8>,
}

impl View for ParsedRtpHeader<'_> {
    type V = RtpFields;

    open spec fn view(&self) -> RtpFields {
        RtpFields {
            payload_type: self.payload_type,
            marker: self.marker,
            sequence_number: self.sequence_number,
            rtp_timestamp: self.rtp_timestamp,
            ssrc: self.ssrc,
            payload: self.payload@,
        }
    }
}

/// The version field: the top two bits of the first byte.
pub open spec fn rtp_version(data: Seq<u8>) -> int {
    data[0] as int / 64
}

/// The padding flag.
pub open spec fn rtp_has_padding(data: Seq<u8>) -> bool {
    data[0] as int / 32 % 2 == 1
}

/// The extension flag.
pub open spec fn rtp_has_extension(data: Seq<u8>) -> bool {
    data[0] as int / 16 % 2 == 1
}

/// Where the CSRC list ends: 4 bytes per contributing source after the fixed
/// header.
pub open spec fn rtp_csrc_end(data: Seq<u8>) -> int {
    12 + 4 * (data[0] as int % 16)
}

/// Whether the four bytes of the extension header are there.
pub open spec fn rtp_extension_present(data: Seq<u8>) -> bool {
    rtp_csrc_end(data) + 4 <= data.len()
}

/// Length of the whole header: fixed part, CSRC list and extension, whose
/// length is counted in 32-bit words.
pub open spec fn rtp_header_len(data: Seq<u8>) -> int {
    let csrc_end = rtp_csrc_end(data);
    if rtp_has_extension(data) {
        csrc_end + 4 + 4 * be16(data[csrc_end + 2], data[csrc_end + 3])
    } else {
        csrc_end
    }
}

/// Number of trailing padding octets, as the last byte declares it.
pub open spec fn rtp_padding_len(data: Seq<u8>) -> int {
    if rtp_has_padding(data) {
        data.last() as int
    } else {
        0
    }
}

/// Whether a buffer holds a well-formed RTP packet: version 2, and header and
/// padding within the buffer.
pub open spec fn rtp_well_formed(data: Seq<u8>) -> bool {
    &&& data.len() >= 12
    &&& rtp_version(data) == 2
    &&& rtp_has_extension(data) ==> rtp_extension_present(data)
    &&& rtp_header_len(data) + rtp_padding_len(data) <= data.len()
    &&& rtp_has_padding(data) ==> rtp_padding_len(data) > 0 && rtp_header_len(data) < data.len()
}

/// The fields of a well-formed RTP packet.
pub open spec fn rtp_fields(data: Seq<u8>) -> RtpFields {
    RtpFields {
        payload_type: (data[1] as int % 128) as u8,
        marker: data[1] >= 128,
        sequence_number: be16(data[2], data[3]) as u16,
        rtp_timestamp: be32(data[4], data[5], data[6], data[7]) as u32,
        ssrc: be32(data[8], data[9], data[10], data[11]) as u32,
        payload: data.subrange(rtp_header_len(data), data.len() - rtp_padding_len(data)),
    }
}

/// The bytes of a packet with the fixed header alone: version 2, no padding, no
/// extension, no contributing sources.
pub open spec fn rtp_packet_bytes(
    payload_type: u8,
    rtp_timestamp: u32,
    marker: bool,
    sequence_number: u16,
    ssrc: u32,
    payload: Seq<u8>,
) -> Seq<u8> {
    seq![0x80u8, ((if marker { 128int } else { 0 }) + payload_type as int % 128) as u8]
        + be16_bytes(sequence_number) + be32_bytes(rtp_timestamp) + be32_bytes(ssrc) + payload
}

impl Clone for RtpPacket {
    fn clone(&self) -> (r: Self)
        ensures
            r.payload_type == self.payload_type,
            r.channel == self.channel,
            r.rtp_timestamp == self.rtp_timestamp,
            r.marker == self.marker,
            bytes_of(r.data) == bytes_of(self.data),
    {
        RtpPacket {
            payload_type: self.payload_type,
            channel: self.channel,
            rtp_timestamp: self.rtp_timestamp,
            marker: self.marker,
            data: self.data.clone(),
        }
    }
}

impl RtpPacket {
    /// Builds an RTP packet from its raw components: the 12-byte header is
    /// rebuilt from the fields and put before the payload.
    pub fn new(
        payload_type: u8,
        channel: u8,
        rtp_timestamp: u32,
        marker: bool,
        sequence_number: u16,
        ssrc: u32,
        payload: &[u8],
    ) -> (r: Self)
        ensures
            r.payload_type == payload_type,
            r.channel == channel,
            r.rtp_timestamp == rtp_timestamp,
            r.marker == marker,
            bytes_of(r.data) == rtp_packet_bytes(
                payload_type,
                rtp_timestamp,
                marker,
                sequence_number,
                ssrc,
                payload@,
            ),
    {
        let mut data: Vec<u8> = Vec::new();
        data.push(0x80);
        proof {
            lemma_byte_fields(payload_type);
        }
        let marker_pt: u8 = if marker {
            0x80 | (payload_type & 0x7F)
        } else {
            payload_type & 0x7F
        };
        data.push(marker_pt);
        push_be16(&mut data, sequence_number);
        push_be32(&mut data, rtp_timestamp);
        push_be32(&mut data, ssrc);
        push_slice(&mut data, payload);
        assert(data@ =~= rtp_packet_bytes(
            payload_type,
            rtp_timestamp,
            marker,
            sequence_number,
            ssrc,
            payload@,
        ));
        RtpPacket { payload_type, channel, rtp_timestamp, marker, data: bytes_from_vec(data) }
    }
}

/// Parses an RTP header from a raw buffer.
///
/// Handles the fixed header, the CSRC list, the optional extension header, and
/// strips trailing padding. Returns the fields and the payload slice, or `None`
/// where the buffer is not a well-formed version-2 packet.
pub fn parse_rtp_header(data: &[u8]) -> (r: Option<ParsedRtpHeader<'_>>)
    ensures
        r is Some <==> rtp_well_formed(data@),
        r matches Some(h) ==> h@ == rtp_fields(data@),
{
    if data.len() < RTP_FIXED_HEADER_LEN {
        return None;
    }
    let first: u8 = data[0];
    proof {
        lemma_byte_fields(first);
        lemma_byte_fields(data@[1]);
    }
    if first >> 6 != 2 {
        return None;
    }
    let has_padding = (first & 0x20) != 0;
    let has_extension = (first & 0x10) != 0;
    let csrc_count: usize = (first & 0x0F) as usize;
    let mut header_len: usize = 12 + csrc_count * 4;
    if has_extension {
        let ext_start: usize = header_len;
        let ext_end: usize = ext_start + 4;
        if data.len() < ext_end {
            return None;
        }
        let extension_len: usize = u16_from_be(data[ext_start + 2], data[ext_start + 3]) as usize;
        header_len = ext_end + extension_len * 4;
    }
    if data.len() < header_len {
        return None;
    }
    let mut payload_end: usize = data.len();
    if has_padding {
        if header_len == data.len() {
            return None;
        }
        let pad_len: usize = data[data.len() - 1] as usize;
        if pad_len == 0 || pad_len > data.len() - header_len {
            return None;
        }
        payload_end = data.len() - pad_len;
    }
    Some(
        ParsedRtpHeader {
            payload_type: data[1] & 0x7F,
            marker: (data[1] & 0x80) != 0,
            sequence_number: u16_from_be(data[2], data[3]),
            rtp_timestamp: u32_from_be(data[4], data[5], data[6], data[7]),
            ssrc: u32_from_be(data[8], data[9], data[10], data[11]),
            payload: slice_subrange(data, header_len, payload_end),
        },
    )
}

/// Parsing a packet that was built from its fields gives the fields back, the
/// payload type reduced to its seven bits.
pub proof fn law_parse_inverts_build(
    payload_type: u8,
    rtp_timestamp: u32,
    marker: bool,
    sequence_number: u16,
    ssrc: u32,
    payload: Seq<u8>,
)
    ensures
        ({
            let data = rtp_packet_bytes(
                payload_type,
                rtp_timestamp,
                marker,
                sequence_number,
                ssrc,
                payload,
            );
            &&& rtp_well_formed(data)
            &&& rtp_fields(data) == (RtpFields {
                payload_type: (payload_type as int % 128) as u8,
                marker,
                sequence_number,
                rtp_timestamp,
                ssrc,
                payload,
            })
        }),
{
    let data = rtp_packet_bytes(
        payload_type,
        rtp_timestamp,
        marker,
        sequence_number,
        ssrc,
        payload,
    );
    lemma_be_roundtrip(sequence_number, rtp_timestamp);
    lemma_be_roundtrip(sequence_number, ssrc);
    assert(data.subrange(12, data.len() as int) =~= payload);
}

impl MediaPacket for RtpPacket {
    /// The codec is not known at this layer.
    fn codec_params(&self) -> (r: &[CodecParams])
        ensures
            r@.len() == 0,
    {
        &[]
    }

    /// Keyframe status is not known at this layer.
    fn is_keyframe(&self) -> (r: bool)
        ensures
            !r,
    {
        false
    }

    fn byte_size(&self) -> (r: usize)
        ensures
            r == bytes_of(self.data).len(),
    {
        self.data.len()
    }

    /// An RTP timestamp is no duration without the clock rate.
    fn timestamp(&self) -> (r: Option<Duration>)
        ensures
            r is None,
    {
        None
    }
}

/// A packet is understood whatever stands around its payload: a list of contributing
/// sources, an extension and padding are passed over, and the payload is exactly what
/// is between them. The fields are those of the fixed header.
pub proof fn law_payload_is_found(
    fixed: Seq<u8>,
    csrc: Seq<u8>,
    extension: Seq<u8>,
    payload: Seq<u8>,
    padding: Seq<u8>,
)
    requires
        fixed.len() == 12,
        0x80 <= fixed[0] < 0xC0,
        csrc.len() == 4 * (fixed[0] % 16),
        if fixed[0] / 16 % 2 == 1 {
            extension.len() >= 4 && extension.len() == 4 + 4 * (256 * extension[2] + extension[3])
        } else {
            extension.len() == 0
        },
        if fixed[0] / 32 % 2 == 1 {
            0 < padding.len() && padding.last() == padding.len()
        } else {
            padding.len() == 0
        },
    ensures
        ({
            let data = fixed + csrc + extension + payload + padding;
            let f = rtp_fields(data);
            &&& rtp_well_formed(data)
            &&& f.payload == payload
            &&& f.payload_type + (if f.marker {
                128int
            } else {
                0
            }) == fixed[1]
            &&& f.payload_type < 128
            &&& f.sequence_number == 256 * fixed[2] + fixed[3]
            &&& f.rtp_timestamp == 256 * (256 * (256 * fixed[4] + fixed[5]) + fixed[6]) + fixed[7]
            &&& f.ssrc == 256 * (256 * (256 * fixed[8] + fixed[9]) + fixed[10]) + fixed[11]
        }),
{
    let data = fixed + csrc + extension + payload + padding;
    assert forall|i: int| 0 <= i < 12 implies #[trigger] data[i] == fixed[i] by {}
    let csrc_end = 12 + csrc.len() as int;
    assert(rtp_csrc_end(data) == csrc_end);
    if extension.len() > 0 {
        assert(data[csrc_end + 2] == extension[2]);
        assert(data[csrc_end + 3] == extension[3]);
    }
    assert(rtp_header_len(data) == csrc_end + extension.len());
    if padding.len() > 0 {
        assert(data.last() == padding.last());
    }
    assert(data.subrange(
        csrc_end + extension.len(),
        data.len() - padding.len(),
    ) =~= payload);
}

/// What is no packet is refused: a buffer shorter than the fixed header, another
/// version than 2, a list of sources or an extension that runs past the end, and
/// padding that is empty or longer than what follows the header.
pub proof fn law_malformed_packets_are_refused(data: Seq<u8>)
    ensures
        data.len() < 12 ==> !rtp_well_formed(data),
        data.len() >= 12 && !(0x80 <= data[0] < 0xC0) ==> !rtp_well_formed(data),
        data.len() >= 12 && data.len() < 12 + 4 * (data[0] % 16) ==> !rtp_well_formed(data),
        data.len() >= 12 && data[0] / 16 % 2 == 1 && data.len() < 16 + 4 * (data[0] % 16)
            ==> !rtp_well_formed(data),
        data.len() >= 12 && data[0] / 16 % 2 == 1 && data.len() >= 16 + 4 * (data[0] % 16)
            && data.len() < 16 + 4 * (data[0] % 16) + 4 * (256 * data[14 + 4 * (data[0] % 16)]
            + data[15 + 4 * (data[0] % 16)]) ==> !rtp_well_formed(data),
        data.len() >= 12 && data[0] / 32 % 2 == 1 && data.last() == 0 ==> !rtp_well_formed(data),
        data.len() >= 12 && data[0] / 32 % 2 == 1 && data.len() < 12 + 4 * (data[0] % 16)
            + data.last() ==> !rtp_well_formed(data),
{
}

/// A packet is built as version 2 without padding, extension or sources: twelve bytes
/// of header, numbers with the most significant byte first, and the payload.
pub proof fn law_built_packet_layout(
    payload_type: u8,
    rtp_timestamp: u32,
    marker: bool,
    sequence_number: u16,
    ssrc: u32,
    payload: Seq<u8>,
)
    ensures
        ({
            let data = rtp_packet_bytes(
                payload_type,
                rtp_timestamp,
                marker,
                sequence_number,
                ssrc,
                payload,
            );
            &&& data.len() == 12 + payload.len()
            &&& data[0] == 0x80
            &&& data[1] % 128 == payload_type % 128
            &&& data[1] >= 128 <==> marker
            &&& 256 * data[2] + data[3] == sequence_number
            &&& 256 * (256 * (256 * data[4] + data[5]) + data[6]) + data[7] == rtp_timestamp
            &&& 256 * (256 * (256 * data[8] + data[9]) + data[10]) + data[11] == ssrc
            &&& data.skip(12) == payload
        }),
{
    let data = rtp_packet_bytes(
        payload_type,
        rtp_timestamp,
        marker,
        sequence_number,
        ssrc,
        payload,
    );
    law_numbers_are_big_endian(sequence_number, rtp_timestamp, 0);
    law_numbers_are_big_endian(sequence_number, ssrc, 0);
    let q = be16_bytes(sequence_number);
    let t = be32_bytes(rtp_timestamp);
    let c = be32_bytes(ssrc);
    assert(data[2] == q[0] && data[3] == q[1]);
    assert(data[4] == t[0] && data[5] == t[1] && data[6] == t[2] && data[7] == t[3]);
    assert(data[8] == c[0] && data[9] == c[1] && data[10] == c[2] && data[11] == c[3]);
    assert(data.skip(12) =~= payload);
}

} // verus!
