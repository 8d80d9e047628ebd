//! What the segments of a stream hold.
//!
//! A recording is the flow of a segmenter together with the packets that its muxer
//! and its files hold, where all work that the flow asks for succeeds.
use crate::codec::packet::PacketView;
use crate::hls::flow::{FlowActionView, FlowOutcomeView, FlowView, Phase};
use crate::hls::segmenter::SegmentState;
use vstd::prelude::*;

verus! {

/// A segment that was handed on.
#[verifier::ext_equal]
pub struct Handed {
    pub sequence: u64,
    pub duration_ms: u64,
    pub packets: Seq<PacketView>,
}

/// A flow and the packets it has sorted into segments.
#[verifier::ext_equal]
pub struct Recording {
    pub flow: FlowView,
    /// What the muxer in place holds.
    pub current: Seq<PacketView>,
    /// What was taken from the muxer that ended last.
    pub taken: Seq<PacketView>,
    /// The segments handed on.
    pub handed: Seq<Handed>,
}

/// A packet and its presentation time in muxer ticks.
pub struct Arrival {
    pub pkt: PacketView,
    pub ticks: i64,
}

impl Recording {
    /// Does what the flow asks for; `pkt` is the packet that arrived last and `path`
    /// the place of a file that is stored. Returns the outcome to report, if one is
    /// waited for.
    pub open spec fn served(
        self,
        action: FlowActionView,
        pkt: PacketView,
        path: Seq<char>,
    ) -> (Recording, Option<FlowOutcomeView>) {
        match action {
            FlowActionView::Wait | FlowActionView::Fail => (self, None),
            FlowActionView::Mux(_) => (
                Recording { current: self.current.push(pkt), ..self },
                Some(FlowOutcomeView::Muxed(true)),
            ),
            FlowActionView::EndMuxer => (
                Recording { taken: self.current, ..self },
                Some(FlowOutcomeView::MuxerEnded(true)),
            ),
            FlowActionView::ReplaceMuxer => (
                Recording { current: Seq::empty(), ..self },
                Some(FlowOutcomeView::MuxerReplaced(true)),
            ),
            FlowActionView::Store(_) => (self, Some(FlowOutcomeView::Stored(Some(path)))),
            FlowActionView::Publish { sequence, duration_ms, .. } => (
                Recording {
                    handed: self.handed.push(
                        Handed { sequence, duration_ms, packets: self.taken },
                    ),
                    ..self
                },
                Some(FlowOutcomeView::Published),
            ),
        }
    }

    /// Does what the flow asks for until it asks for nothing, in `fuel` steps at most.
    pub open spec fn driven(
        self,
        action: FlowActionView,
        pkt: PacketView,
        path: Seq<char>,
        fuel: nat,
    ) -> Recording
        decreases fuel,
    {
        let (next, reply) = self.served(action, pkt, path);
        if fuel == 0 || reply is None {
            next
        } else {
            let (flow, asked) = next.flow.outcome(reply->0);
            Recording { flow, ..next }.driven(asked, pkt, path, (fuel - 1) as nat)
        }
    }

    /// A packet arrives and is worked off.
    pub open spec fn fed(self, a: Arrival, path: Seq<char>) -> Recording {
        let (flow, action) = self.flow.packet(a.pkt, a.ticks);
        Recording { flow, ..self }.driven(action, a.pkt, path, 7)
    }

    /// The stream ends.
    pub open spec fn closed(self, path: Seq<char>) -> Recording
        recommends
            self.flow.phase == Phase::Idle,
    {
        let (flow, action) = self.flow.close();
        Recording { flow, ..self }.driven(action, arbitrary(), path, 7)
    }

    /// Packets arrive one after the other.
    pub open spec fn fed_all(self, arrivals: Seq<Arrival>, path: Seq<char>) -> Recording
        decreases arrivals.len(),
    {
        if arrivals.len() == 0 {
            self
        } else {
            self.fed_all(arrivals.drop_last(), path).fed(arrivals.last(), path)
        }
    }

    /// Whether timestamps and sequence numbers are left.
    pub open spec fn has_room(self) -> bool {
        &&& self.flow.rules.last_dts < i64::MAX
        &&& self.flow.rules.next_sequence < u64::MAX
    }

    /// Whether timestamps and sequence numbers last for a run of packets.
    pub open spec fn has_room_for(self, arrivals: Seq<Arrival>, path: Seq<char>) -> bool
        decreases arrivals.len(),
    {
        arrivals.len() == 0 || {
            &&& self.has_room_for(arrivals.drop_last(), path)
            &&& self.fed_all(arrivals.drop_last(), path).has_room()
        }
    }

    /// Whether nothing was recorded yet.
    pub open spec fn is_new(self) -> bool {
        &&& self.flow.wf()
        &&& self.flow.phase == Phase::Idle
        &&& self.flow.rules.muxer_ready
        &&& !self.flow.rules.begun
        &&& self.flow.rules.next_sequence == 0
        &&& self.flow.rules.segment == (SegmentState { first_pts: None, last_pts: None })
        &&& self.current.len() == 0
        &&& self.handed.len() == 0
    }

    /// The packets of a segment: one that was handed on, else the one being written.
    pub open spec fn segment(self, i: int) -> Seq<PacketView> {
        if i < self.handed.len() {
            self.handed[i].packets
        } else {
            self.current
        }
    }

    /// Whether a segment handed on lasts from its own first packet to the next one's,
    /// where both have a presentation time.
    pub open spec fn lasts_to_next(self, i: int) -> bool {
        match (self.segment(i)[0].pts_ms, self.segment(i + 1)[0].pts_ms) {
            (Some(first), Some(next)) => self.handed[i].duration_ms == next - first,
            _ => true,
        }
    }

    /// Whether every segment after the first begins with a keyframe, none is empty,
    /// they are numbered in order, and each has reached the target duration and lasts
    /// up to the next one.
    pub open spec fn is_aligned(self) -> bool {
        &&& forall|i: int|
            0 <= i < self.handed.len() ==> {
                &&& (#[trigger] self.handed[i]).sequence == i
                &&& self.handed[i].packets.len() > 0
                &&& i > 0 ==> self.handed[i].packets[0].is_keyframe
                &&& self.handed[i].duration_ms >= 1000 * self.flow.rules.duration_secs
                &&& self.flow.rules.duration_secs > 0 ==> self.lasts_to_next(i)
            }
        &&& self.handed.len() > 0 ==> self.current.len() > 0 && self.current[0].is_keyframe
    }

    /// The packets recorded, segment after segment.
    pub open spec fn packets(self) -> Seq<PacketView> {
        packets_of(self.handed) + self.current
    }

    /// What holds between packets.
    pub open spec fn inv(self) -> bool {
        &&& self.flow.wf()
        &&& self.flow.phase == Phase::Idle
        &&& self.flow.rules.muxer_ready
        &&& self.flow.rules.begun <==> self.current.len() > 0
        &&& self.flow.rules.next_sequence == self.handed.len()
        &&& self.current.len() == 0 ==> self.flow.rules.segment.first_pts is None
        &&& self.current.len() > 0 && self.current[0].pts_ms is Some
            ==> self.flow.rules.segment.first_pts == self.current[0].pts_ms
        &&& self.is_aligned()
    }
}

/// The packets of segments, one after the other.
pub open spec fn packets_of(segments: Seq<Handed>) -> Seq<PacketView>
    decreases segments.len(),
{
    if segments.len() == 0 {
        Seq::empty()
    } else {
        packets_of(segments.drop_last()) + segments.last().packets
    }
}

/// The packets of arrivals that are no sequence headers.
pub open spec fn media_of(arrivals: Seq<Arrival>) -> Seq<PacketView>
    decreases arrivals.len(),
{
    if arrivals.len() == 0 {
        Seq::empty()
    } else {
        let front = media_of(arrivals.drop_last());
        if arrivals.last().pkt.is_sequence_header {
            front
        } else {
            front.push(arrivals.last().pkt)
        }
    }
}

/// A packet is recorded once, behind all others, and the recording stays aligned.
proof fn lemma_packet_is_recorded(r: Recording, a: Arrival, path: Seq<char>)
    requires
        r.inv(),
        r.has_room(),
    ensures
        r.fed(a, path).inv(),
        r.fed(a, path).flow.rules.duration_secs == r.flow.rules.duration_secs,
        r.fed(a, path).packets() == if a.pkt.is_sequence_header {
            r.packets()
        } else {
            r.packets().push(a.pkt)
        },
{
    reveal_with_fuel(Recording::driven, 8);
    let after = r.fed(a, path);
    if a.pkt.is_sequence_header {
    } else if r.flow.rules.cut(a.pkt) is None {
        assert(after.current == r.current.push(a.pkt));
        assert(after.handed == r.handed);
    } else {
        assert(after.current == seq![a.pkt]);
        assert(after.handed.drop_last() == r.handed);
        assert(after.handed.last().packets == r.current);
    }
}

/// A packet publishes the segment before it exactly where it is a keyframe that comes
/// the target duration or more after the segment's first presentation time. The
/// segment then lasts up to the keyframe, bears the next number and holds what was
/// muxed before it. Any other packet publishes nothing, and a sequence header changes
/// nothing at all.
pub proof fn law_keyframe_publishes_what_precedes_it(r: Recording, a: Arrival, path: Seq<char>)
    requires
        r.inv(),
        r.has_room(),
        r.flow.rules.duration_secs > 0,
        a.pkt.pts_ms is Some,
    ensures
        ({
            let after = r.fed(a, path);
            let first = r.flow.rules.segment.first_pts;
            let now = a.pkt.pts_ms->0;
            let cuts = !a.pkt.is_sequence_header && a.pkt.is_keyframe && first is Some && now
                > first->0 && now - first->0 >= 1000 * r.flow.rules.duration_secs;
            &&& a.pkt.is_sequence_header ==> after == r
            &&& cuts ==> after.handed == r.handed.push(
                Handed {
                    sequence: r.handed.len() as u64,
                    duration_ms: (now - first->0) as u64,
                    packets: r.current,
                },
            )
            &&& cuts ==> after.current == seq![a.pkt] && after.flow.rules.segment.first_pts == Some(
                now,
            )
            &&& !cuts ==> after.handed == r.handed
            &&& !cuts && !a.pkt.is_sequence_header ==> after.current == r.current.push(a.pkt)
                && after.flow.rules.segment.first_pts == if first is Some {
                first
            } else {
                Some(now)
            }
        }),
{
    reveal_with_fuel(Recording::driven, 8);
}

/// Segments are aligned to keyframes: however a stream runs, every segment after the
/// first begins with a keyframe and holds the packets from there up to the next
/// segment's keyframe, which comes the target duration later at least. No packet is
/// lost, doubled or moved, and sequence headers are left out. It holds while
/// timestamps and sequence numbers last.
pub proof fn law_segments_start_at_keyframes(
    r: Recording,
    arrivals: Seq<Arrival>,
    path: Seq<char>,
)
    requires
        r.is_new(),
        r.has_room_for(arrivals, path),
    ensures
        r.fed_all(arrivals, path).inv(),
        r.fed_all(arrivals, path).is_aligned(),
        r.fed_all(arrivals, path).packets() == media_of(arrivals),
    decreases arrivals.len(),
{
    if arrivals.len() > 0 {
        law_segments_start_at_keyframes(r, arrivals.drop_last(), path);
        lemma_packet_is_recorded(r.fed_all(arrivals.drop_last(), path), arrivals.last(), path);
    }
}

/// A stream that ends is published whole: its segments hold every media packet, in
/// order, under the numbers from zero on.
pub proof fn law_closed_stream_is_published_whole(
    r: Recording,
    arrivals: Seq<Arrival>,
    path: Seq<char>,
)
    requires
        r.is_new(),
        r.has_room_for(arrivals, path),
        r.fed_all(arrivals, path).has_room(),
    ensures
        ({
            let end = r.fed_all(arrivals, path).closed(path);
            &&& packets_of(end.handed) == media_of(arrivals)
            &&& end.handed.len() == r.fed_all(arrivals, path).handed.len() + 1
            &&& forall|i: int|
                0 <= i < end.handed.len() ==> (#[trigger] end.handed[i]).sequence == i
            &&& forall|i: int|
                0 < i < end.handed.len() ==> (#[trigger] end.handed[i]).packets.len() > 0
                    && end.handed[i].packets[0].is_keyframe
        }),
{
    reveal_with_fuel(Recording::driven, 8);
    law_segments_start_at_keyframes(r, arrivals, path);
    let before = r.fed_all(arrivals, path);
    let end = before.closed(path);
    assert(end.handed.drop_last() == before.handed);
    assert(end.handed.last().packets == before.current);
}

} // verus!
