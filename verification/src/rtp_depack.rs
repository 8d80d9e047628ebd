//! RTP depacketizing: the sequence headers that precede the first frames.
use crate::buffer::{bytes_of, clone_opt_bytes, opt_bytes};
use crate::codec::nal_data::{NalData, NalView};
use crate::codec::packet::{packet_views, EncodedPacket, PacketView};
use crate::traits::Node;
use crate::types::Codec;
use bytes::Bytes;
use vstd::prelude::*;

verus! {

/// What the demuxer knows of a stream.
#[derive(Debug)]
pub struct DemuxedStream {
    pub codec: Option<Codec>,
    pub extradata: Option<Bytes>,
}

/// Depacketizing of one RTP source.
#[derive(Debug)]
pub struct RtpDemuxProcessor {
    sent_seq_header: bool,
}

/// The sequence header of a stream.
pub open spec fn stream_header(codec: Codec, stream_index: usize, extradata: Seq<u8>) -> PacketView {
    PacketView {
        codec,
        stream_index,
        data: NalView::AnnexB(Seq::empty()),
        pts_ms: None,
        dts_ms: None,
        is_keyframe: true,
        is_sequence_header: true,
        is_script_data: false,
        extradata: Some(extradata),
    }
}

/// The sequence headers of the streams whose codec and extradata are known, in
/// order.
pub open spec fn stream_headers(streams: Seq<DemuxedStream>) -> Seq<PacketView>
    decreases streams.len(),
{
    if streams.len() == 0 {
        Seq::empty()
    } else {
        let front = stream_headers(streams.drop_last());
        let last = streams.last();
        if last.codec is Some && last.extradata is Some {
            front.push(
                stream_header(
                    last.codec->0,
                    (streams.len() - 1) as usize,
                    opt_bytes(last.extradata)->0,
                ),
            )
        } else {
            front
        }
    }
}

impl RtpDemuxProcessor {
    /// Whether the sequence headers were sent.
    pub closed spec fn sent(&self) -> bool {
        self.sent_seq_header
    }

    /// A depacketizer that has sent nothing.
    pub fn new() -> (r: Self)
        ensures
            !r.sent(),
    {
        RtpDemuxProcessor { sent_seq_header: false }
    }

    /// The packets that precede the frames of an RTP packet: the sequence headers
    /// of all streams on the first call, nothing afterwards.
    pub fn take_headers(&mut self, streams: &[DemuxedStream]) -> (r: Vec<EncodedPacket>)
        ensures
            final(self).sent(),
            packet_views(r@) == if old(self).sent() {
                Seq::empty()
            } else {
                stream_headers(streams@)
            },
    {
        let mut headers: Vec<EncodedPacket> = Vec::new();
        assert(packet_views(headers@) =~= Seq::empty());
        if self.sent_seq_header {
            return headers;
        }
        self.sent_seq_header = true;
        let mut i: usize = 0;
        assert(streams@.take(0) =~= Seq::empty());
        while i < streams.len()
            invariant
                i <= streams@.len(),
                self.sent_seq_header,
                packet_views(headers@) == stream_headers(streams@.take(i as int)),
            decreases streams@.len() - i,
        {
            let stream: &DemuxedStream = &streams[i];
            proof {
                assert(streams@.take(i + 1).drop_last() =~= streams@.take(i as int));
                assert(streams@.take(i + 1).last() == *stream);
            }
            if let Some(codec) = stream.codec {
                if stream.extradata.is_some() {
                    let ghost before = headers@;
                    headers.push(
                        EncodedPacket {
                            codec,
                            stream_index: i,
                            data: NalData::AnnexB(Bytes::new()),
                            pts_ms: None,
                            dts_ms: None,
                            is_keyframe: true,
                            is_sequence_header: true,
                            is_script_data: false,
                            extradata: clone_opt_bytes(&stream.extradata),
                        },
                    );
                    assert(packet_views(headers@) =~= packet_views(before).push(
                        stream_header(codec, i, opt_bytes(stream.extradata)->0),
                    ));
                }
            }
            i = i + 1;
        }
        assert(streams@.take(i as int) =~= streams@);
        headers
    }

    /// The output for one RTP packet: the sequence headers where they are due, then
    /// the packets that the demuxer gave, in order. Where the demuxer failed its error
    /// is handed on, and headers that were due are not sent later either.
    pub fn process<E>(
        &mut self,
        streams: &[DemuxedStream],
        demuxed: Result<Vec<EncodedPacket>, E>,
    ) -> (r: Result<Vec<EncodedPacket>, E>)
        ensures
            final(self).sent(),
            match demuxed {
                Ok(packets) => r matches Ok(out) && packet_views(out@) == (if old(self).sent() {
                    Seq::empty()
                } else {
                    stream_headers(streams@)
                }) + packet_views(packets@),
                Err(e) => r == Err::<Vec<EncodedPacket>, E>(e),
            },
    {
        let mut out: Vec<EncodedPacket> = self.take_headers(streams);
        match demuxed {
            Ok(packets) => {
                let ghost headers = out@;
                let mut rest = packets;
                out.append(&mut rest);
                assert(packet_views(out@) =~= packet_views(headers) + packet_views(packets@));
                Ok(out)
            },
            Err(e) => Err(e),
        }
    }

    /// Whether packets are taken in: always. Demand is signalled further down the
    /// chain, and waiting for it here would never end.
    pub fn should_process(&self) -> (r: bool)
        ensures
            r,
    {
        true
    }
}

impl Node for RtpDemuxProcessor {
    fn name(&self) -> (r: &str)
        ensures
            r@ == "rtp-demux"@,
    {
        "rtp-demux"
    }
}

/// Whether a stream has a sequence header: its codec and its extradata are known.
pub open spec fn is_announced(stream: DemuxedStream) -> bool {
    stream.codec is Some && stream.extradata is Some
}

/// Every stream whose codec and extradata are known has exactly one header, and no
/// other has one: a header carries its stream's index, codec and extradata and nothing
/// else, headers come in the order of their streams, and there are as many of them as
/// of such streams. Indices fit their type.
pub proof fn law_every_known_stream_has_one_header(streams: Seq<DemuxedStream>)
    requires
        streams.len() <= usize::MAX,
    ensures
        ({
            let headers = stream_headers(streams);
            &&& headers.len() == streams.filter(|s: DemuxedStream| is_announced(s)).len()
            &&& forall|k: int|
                0 <= k < headers.len() ==> {
                    let h = #[trigger] headers[k];
                    let s = streams[h.stream_index as int];
                    &&& 0 <= h.stream_index < streams.len()
                    &&& s.codec == Some(h.codec)
                    &&& s.extradata is Some && h.extradata == Some(bytes_of(s.extradata->0))
                    &&& h.is_sequence_header && h.is_keyframe && !h.is_script_data
                    &&& h.data.raw().len() == 0
                    &&& h.pts_ms is None && h.dts_ms is None
                }
            &&& forall|j: int, k: int|
                0 <= j < k < headers.len() ==> (#[trigger] headers[j]).stream_index < (
                #[trigger] headers[k]).stream_index
            &&& forall|i: int|
                0 <= i < streams.len() && (#[trigger] streams[i]).codec is Some
                    && streams[i].extradata is Some ==> exists|k: int|
                    0 <= k < headers.len() && (#[trigger] headers[k]).stream_index == i
        }),
    decreases streams.len(),
{
    reveal(Seq::filter);
    if streams.len() > 0 {
        let front = streams.drop_last();
        law_every_known_stream_has_one_header(front);
        let before = stream_headers(front);
        let headers = stream_headers(streams);
        assert forall|k: int| 0 <= k < before.len() implies #[trigger] headers[k] == before[k] by {}
        assert forall|i: int|
            0 <= i < streams.len() && (#[trigger] streams[i]).codec is Some
                && streams[i].extradata is Some implies exists|k: int|
            0 <= k < headers.len() && (#[trigger] headers[k]).stream_index == i by {
            if i < front.len() {
                assert(front[i] == streams[i]);
                let k = choose|k: int|
                    0 <= k < before.len() && (#[trigger] before[k]).stream_index == i;
                assert(headers[k].stream_index == i);
            } else {
                assert(headers[headers.len() - 1].stream_index == i);
            }
        }
    }
}

} // verus!
