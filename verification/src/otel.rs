//! Telemetry probe: observes packets and hands them on unchanged.
use crate::codec::packet::EncodedPacket;
use crate::traits::Node;
use vstd::prelude::*;

verus! {

/// Observability probe of one stream.
#[derive(Debug)]
pub struct OTelProbe {
    stream_id: String,
}

/// What is recorded of a packet.
#[derive(Clone, Copy, Debug, PartialEq, Eq, Structural)]
pub struct PacketMetrics {
    /// Bytes of the packet.
    pub size: usize,
    pub keyframe: bool,
}

impl OTelProbe {
    /// The stream observed.
    pub closed spec fn id(&self) -> Seq<char> {
        self.stream_id@
    }

    /// A probe of a stream.
    pub fn new(stream_id: &str) -> (r: Self)
        ensures
            r.id() == stream_id@,
    {
        OTelProbe { stream_id: stream_id.to_owned() }
    }

    /// The stream observed, for log messages.
    pub fn stream_id(&self) -> (r: &str)
        ensures
            r@ == self.id(),
    {
        self.stream_id.as_str()
    }

    /// Whether packets are taken in: always.
    pub fn should_process(&self) -> (r: bool)
        ensures
            r,
    {
        true
    }

    /// What is recorded of a packet, and the packet handed on unchanged.
    pub fn process(&self, pkt: EncodedPacket) -> (r: (PacketMetrics, Vec<EncodedPacket>))
        ensures
            r.0.size == pkt@.data.raw().len(),
            r.0.keyframe == pkt.is_keyframe,
            r.1@ == seq![pkt],
    {
        let metrics = PacketMetrics { size: pkt.byte_size(), keyframe: pkt.is_keyframe };
        let mut out: Vec<EncodedPacket> = Vec::new();
        out.push(pkt);
        assert(out@ =~= seq![pkt]);
        (metrics, out)
    }
}

impl Node for OTelProbe {
    fn name(&self) -> (r: &str)
        ensures
            r@ == "otel-probe"@,
    {
        "otel-probe"
    }
}

/// A probe hands every packet on as it came, and records its bytes and whether it is a
/// keyframe.
pub proof fn law_probe_changes_nothing(
    probe: OTelProbe,
    pkt: EncodedPacket,
    r: (PacketMetrics, Vec<EncodedPacket>),
)
    requires
        call_ensures(OTelProbe::process, (&probe, pkt), r),
    ensures
        r.1@.len() == 1,
        r.1@[0] == pkt,
        r.0.keyframe <==> pkt.is_keyframe,
        r.0.size == pkt@.data.raw().len(),
{
}

} // verus!
