//! HLS segmentation.
//!
//! The segmenter decides which timestamp a packet gets, when a segment ends and
//! what the playlist lists. Segments are aligned to keyframes: a keyframe that ends
//! a segment is the first packet of the next one. Muxing packets into the transport
//! stream and writing files is the caller's part; the caller reports how each of
//! these went.
use crate::codec::packet::{EncodedPacket, PacketView, TsSegment};
use crate::config::SegmentConfig;
use crate::hls::names::{segment_filename, segment_name};
use crate::hls::playlist::{EntryView, PlaylistState, PlaylistView};
use crate::time::Duration;
use crate::traits::Node;
use vstd::prelude::*;

verus! {

/// First and last presentation time of the segment being written.
#[derive(Clone, Copy, Debug)]
pub struct SegmentState {
    pub first_pts: Option<i64>,
    pub last_pts: Option<i64>,
}

impl SegmentState {
    /// Milliseconds between first and last presentation time, if time has passed.
    pub open spec fn span(self) -> Option<nat> {
        match (self.first_pts, self.last_pts) {
            (Some(first), Some(last)) => if last > first {
                Some((last - first) as nat)
            } else {
                None
            },
            _ => None,
        }
    }

    /// The segment with a packet of a presentation time.
    pub open spec fn at(self, pts_ms: Option<i64>) -> SegmentState {
        SegmentState {
            first_pts: if self.first_pts is None {
                pts_ms
            } else {
                self.first_pts
            },
            last_pts: pts_ms,
        }
    }

    /// Milliseconds of the segment, 0 where no time has passed.
    pub open spec fn span_or_zero(self) -> nat {
        match self.span() {
            Some(ms) => ms,
            None => 0,
        }
    }

    /// Milliseconds between first and last presentation time, if time has passed.
    pub fn elapsed(&self) -> (r: Option<u64>)
        ensures
            match self.span() {
                Some(ms) => r matches Some(x) && x == ms,
                None => r is None,
            },
    {
        match (self.first_pts, self.last_pts) {
            (Some(first), Some(last)) => if last > first {
                Some((last as i128 - first as i128) as u64)
            } else {
                None
            },
            _ => None,
        }
    }

    /// Forgets the segment.
    pub fn reset(&mut self)
        ensures
            final(self).first_pts is None,
            final(self).last_pts is None,
    {
        self.first_pts = None;
        self.last_pts = None;
    }
}

/// What is to be done with a packet.
#[derive(Clone, Copy, Debug, PartialEq, Eq, Structural)]
pub enum WriteStep {
    /// Nothing: sequence headers carry no frame data.
    Skip,
    /// Mux it with this timestamp, both as PTS and as DTS.
    Write(i64),
    /// End the segment being written, which lasts this many milliseconds; the packet
    /// is the first of the next one.
    CutBefore(u64),
    /// There is no muxer to write to.
    NoMuxer,
}

/// Cuts a stream into segments.
#[derive(Debug)]
pub struct HlsSegmenter {
    stream_id: String,
    duration_secs: u64,
    next_sequence: u64,
    /// Last timestamp given out, in muxer ticks.
    last_dts: i64,
    muxer_ready: bool,
    /// Whether the segment being written holds a packet.
    begun: bool,
    segment: SegmentState,
    playlist: PlaylistState,
}

/// The state of an `HlsSegmenter`.
#[verifier::ext_equal]
pub struct SegmenterView {
    pub duration_secs: nat,
    pub next_sequence: nat,
    pub last_dts: i64,
    pub muxer_ready: bool,
    pub begun: bool,
    pub segment: SegmentState,
    pub playlist: PlaylistView,
}

/// The timestamp of a packet: its own, or the next one after the last given out,
/// whichever is later.
pub open spec fn next_timestamp(last_dts: int, pts: int) -> int {
    if pts > last_dts {
        pts
    } else {
        last_dts + 1
    }
}

impl SegmenterView {
    /// Whether the playlist fits its window and lists no more segments than were
    /// begun.
    pub open spec fn wf(self) -> bool {
        &&& self.playlist.wf()
        &&& self.playlist.media_sequence + self.playlist.entries.len() <= self.next_sequence
            <= u64::MAX
    }

    /// Whether a sequence number was taken that the playlist does not list.
    pub open spec fn has_unlisted(self) -> bool {
        self.playlist.media_sequence + self.playlist.entries.len() < self.next_sequence
    }

    /// A packet is taken into the segment being written; `pts` is its presentation
    /// time in muxer ticks.
    pub open spec fn admitted(self, pts_ms: Option<i64>, pts: i64) -> SegmenterView {
        SegmenterView {
            last_dts: next_timestamp(self.last_dts as int, pts as int) as i64,
            segment: self.segment.at(pts_ms),
            ..self
        }
    }

    /// Whether a segment ends before a packet, and how many milliseconds it lasts:
    /// at a keyframe, once the target duration has passed since its first packet.
    pub open spec fn cut(self, pkt: PacketView) -> Option<nat> {
        let span = self.segment.at(pkt.pts_ms).span_or_zero();
        if pkt.is_keyframe && self.begun && span >= 1000 * self.duration_secs {
            Some(span)
        } else {
            None
        }
    }

    /// A packet arrives; `pts` is its presentation time in muxer ticks.
    pub open spec fn packet(self, pkt: PacketView, pts: i64) -> (SegmenterView, WriteStep) {
        let taken = self.admitted(pkt.pts_ms, pts);
        if pkt.is_sequence_header {
            (self, WriteStep::Skip)
        } else if !self.muxer_ready {
            (taken, WriteStep::NoMuxer)
        } else {
            match self.cut(pkt) {
                Some(ms) => (self, WriteStep::CutBefore(ms as u64)),
                None => (taken, WriteStep::Write(taken.last_dts)),
            }
        }
    }

    /// A packet was muxed.
    pub open spec fn muxed(self) -> SegmenterView {
        SegmenterView { begun: true, ..self }
    }

    /// Muxing failed: the segment is given up and the muxer is gone.
    pub open spec fn failed(self) -> SegmenterView {
        SegmenterView {
            last_dts: 0,
            muxer_ready: false,
            begun: false,
            segment: SegmentState { first_pts: None, last_pts: None },
            ..self
        }
    }

    /// A new muxer is in place; its timestamps start anew.
    pub open spec fn restarted(self) -> SegmenterView {
        SegmenterView { last_dts: 0, muxer_ready: true, begun: false, ..self }
    }

    /// A segment is listed in the playlist.
    pub open spec fn listed(self, sequence: u64, duration_ms: u64) -> SegmenterView {
        SegmenterView {
            playlist: self.playlist.pushed(
                EntryView { filename: segment_name(sequence), duration_ms: duration_ms as nat },
            ),
            ..self
        }
    }

    /// The segment being written starts at a presentation time.
    pub open spec fn started_at(self, pts_ms: Option<i64>) -> SegmenterView {
        SegmenterView {
            segment: SegmentState { first_pts: pts_ms, last_pts: pts_ms },
            ..self
        }
    }
}

/// Whether a finished segment is the one described.
pub open spec fn is_segment(
    s: TsSegment,
    sequence: u64,
    path: Seq<char>,
    duration_ms: u64,
    is_final: bool,
) -> bool {
    &&& s.path@ == path
    &&& s.filename@ == segment_name(sequence)
    &&& s.sequence == sequence
    &&& s.duration.wf()
    &&& s.duration.total_nanos() == duration_ms * 1_000_000
    &&& s.is_final == is_final
}

impl View for HlsSegmenter {
    type V = SegmenterView;

    closed spec fn view(&self) -> SegmenterView {
        SegmenterView {
            duration_secs: self.duration_secs as nat,
            next_sequence: self.next_sequence as nat,
            last_dts: self.last_dts,
            muxer_ready: self.muxer_ready,
            begun: self.begun,
            segment: self.segment,
            playlist: self.playlist@,
        }
    }
}

impl HlsSegmenter {
    /// The stream being cut.
    pub closed spec fn id(&self) -> Seq<char> {
        self.stream_id@
    }

    /// A segmenter for a stream whose first muxer is in place.
    pub fn new(stream_id: &str, cfg: &SegmentConfig) -> (r: Self)
        ensures
            r.id() == stream_id@,
            r@.wf(),
            r@ == (SegmenterView {
                duration_secs: cfg.duration_secs as nat,
                next_sequence: 0,
                last_dts: 0,
                muxer_ready: true,
                begun: false,
                segment: SegmentState { first_pts: None, last_pts: None },
                playlist: PlaylistView {
                    size: cfg.playlist_size as nat,
                    entries: Seq::empty(),
                    media_sequence: 0,
                },
            }),
    {
        HlsSegmenter {
            stream_id: stream_id.to_owned(),
            duration_secs: cfg.duration_secs,
            next_sequence: 0,
            last_dts: 0,
            muxer_ready: true,
            begun: false,
            segment: SegmentState { first_pts: None, last_pts: None },
            playlist: PlaylistState::new(cfg),
        }
    }

    /// The stream being cut, for log messages.
    pub fn stream_id(&self) -> (r: &str)
        ensures
            r@ == self.id(),
    {
        self.stream_id.as_str()
    }

    /// The last timestamp given out, in muxer ticks.
    pub fn last_dts(&self) -> (r: i64)
        ensures
            r == self@.last_dts,
    {
        self.last_dts
    }

    /// How many segments were begun.
    pub fn next_sequence(&self) -> (r: u64)
        ensures
            r == self@.next_sequence,
    {
        self.next_sequence
    }

    /// Takes a packet in; `pts` is its presentation time in muxer ticks.
    ///
    /// Timestamps given out increase strictly until the muxer is replaced:
    /// rescaling loses precision, and a muxer refuses a time that does not
    /// advance.
    pub fn on_packet(&mut self, pkt: &EncodedPacket, pts: i64) -> (r: WriteStep)
        requires
            old(self)@.wf(),
            old(self)@.last_dts < i64::MAX,
        ensures
            final(self)@.wf(),
            final(self).id() == old(self).id(),
            (final(self)@, r) == old(self)@.packet(pkt@, pts),
    {
        if pkt.is_sequence_header {
            return WriteStep::Skip;
        }
        if self.muxer_ready {
            if let Some(ms) = self.cut_before(pkt) {
                return WriteStep::CutBefore(ms);
            }
        }
        let ts: i64 = self.take_in(pkt.pts_ms, pts);
        if self.muxer_ready {
            WriteStep::Write(ts)
        } else {
            WriteStep::NoMuxer
        }
    }

    /// Takes a packet into the segment being written, and gives its timestamp.
    pub fn take_in(&mut self, pts_ms: Option<i64>, pts: i64) -> (r: i64)
        requires
            old(self)@.wf(),
            old(self)@.last_dts < i64::MAX,
        ensures
            final(self)@.wf(),
            final(self).id() == old(self).id(),
            final(self)@ == old(self)@.admitted(pts_ms, pts),
            r == final(self)@.last_dts,
    {
        if self.segment.first_pts.is_none() {
            self.segment.first_pts = pts_ms;
        }
        self.segment.last_pts = pts_ms;
        let ts: i64 = if pts > self.last_dts {
            pts
        } else {
            self.last_dts + 1
        };
        self.last_dts = ts;
        ts
    }

    /// Whether the segment ends before a packet, and how many milliseconds it lasts.
    pub fn cut_before(&self, pkt: &EncodedPacket) -> (r: Option<u64>)
        ensures
            match self@.cut(pkt@) {
                Some(ms) => r matches Some(x) && x == ms,
                None => r is None,
            },
    {
        let first_pts = if self.segment.first_pts.is_none() {
            pkt.pts_ms
        } else {
            self.segment.first_pts
        };
        let with_packet = SegmentState { first_pts, last_pts: pkt.pts_ms };
        let span: u64 = match with_packet.elapsed() {
            Some(ms) => ms,
            None => 0,
        };
        if pkt.is_keyframe && self.begun && span as u128 >= self.duration_secs as u128 * 1000 {
            Some(span)
        } else {
            None
        }
    }

    /// A packet was muxed.
    pub fn on_muxed(&mut self)
        requires
            old(self)@.wf(),
        ensures
            final(self)@.wf(),
            final(self).id() == old(self).id(),
            final(self)@ == old(self)@.muxed(),
    {
        self.begun = true;
    }

    /// Milliseconds of the segment being written, 0 where no time has passed.
    pub fn elapsed_or_zero(&self) -> (r: u64)
        ensures
            r == self@.segment.span_or_zero(),
    {
        match self.segment.elapsed() {
            Some(ms) => ms,
            None => 0,
        }
    }

    /// Muxing a packet failed: the segment is given up.
    pub fn on_write_error(&mut self)
        requires
            old(self)@.wf(),
        ensures
            final(self)@.wf(),
            final(self).id() == old(self).id(),
            final(self)@ == old(self)@.failed(),
    {
        self.segment.reset();
        self.begun = false;
        self.muxer_ready = false;
        self.last_dts = 0;
    }

    /// A new muxer is in place.
    pub fn on_muxer_restarted(&mut self)
        requires
            old(self)@.wf(),
        ensures
            final(self)@.wf(),
            final(self).id() == old(self).id(),
            final(self)@ == old(self)@.restarted(),
    {
        self.last_dts = 0;
        self.begun = false;
        self.muxer_ready = true;
    }

    /// Ends the segment being written and takes its sequence number.
    pub fn take_sequence(&mut self) -> (r: u64)
        requires
            old(self)@.wf(),
            old(self)@.next_sequence < u64::MAX,
        ensures
            final(self)@.wf(),
            final(self)@.has_unlisted(),
            final(self).id() == old(self).id(),
            r == old(self)@.next_sequence,
            final(self)@ == (SegmenterView {
                next_sequence: old(self)@.next_sequence + 1,
                ..old(self)@
            }),
    {
        let seq: u64 = self.next_sequence;
        self.next_sequence = self.next_sequence + 1;
        seq
    }

    /// Lists a segment whose file is in place, and starts the next one at the
    /// presentation time of the packet that ended it.
    pub fn finish_segment(
        &mut self,
        sequence: u64,
        path: String,
        duration_ms: u64,
        pts_ms: Option<i64>,
    ) -> (r: TsSegment)
        requires
            old(self)@.wf(),
            old(self)@.has_unlisted(),
        ensures
            final(self)@.wf(),
            final(self).id() == old(self).id(),
            final(self)@ == old(self)@.listed(sequence, duration_ms).started_at(pts_ms),
            is_segment(r, sequence, path@, duration_ms, false),
    {
        self.segment = SegmentState { first_pts: pts_ms, last_pts: pts_ms };
        let filename: String = segment_filename(sequence);
        self.playlist.push_segment(filename.as_str(), duration_ms);
        TsSegment {
            path,
            filename,
            sequence,
            duration: Duration::from_millis(duration_ms),
            is_final: false,
        }
    }

    /// Lists the last segment of the stream.
    pub fn finish_stream(&mut self, sequence: u64, path: String, duration_ms: u64) -> (r: TsSegment)
        requires
            old(self)@.wf(),
            old(self)@.has_unlisted(),
        ensures
            final(self)@.wf(),
            final(self).id() == old(self).id(),
            final(self)@ == old(self)@.listed(sequence, duration_ms),
            is_segment(r, sequence, path@, duration_ms, true),
    {
        let filename: String = segment_filename(sequence);
        self.playlist.push_segment(filename.as_str(), duration_ms);
        TsSegment {
            path,
            filename,
            sequence,
            duration: Duration::from_millis(duration_ms),
            is_final: true,
        }
    }

    /// The playlist as text.
    pub fn render_playlist(&self, is_final: bool) -> (r: String)
        ensures
            r@ == self@.playlist.text(is_final),
    {
        self.playlist.render(is_final)
    }

    /// Whether the segmenter takes packets: it records always.
    pub fn should_process(&self) -> (r: bool)
        ensures
            r,
    {
        true
    }
}

impl Node for HlsSegmenter {
    fn name(&self) -> (r: &str)
        ensures
            r@ == "hls-segmenter"@,
    {
        "hls-segmenter"
    }
}

/// A segment ends exactly before a keyframe that comes the target duration or more
/// after its first packet, and lasts from that packet to the keyframe. A sequence
/// header ends nothing and changes nothing.
pub proof fn law_segments_end_before_keyframes(s: SegmenterView, pkt: PacketView, pts: i64)
    requires
        s.muxer_ready,
        s.begun,
        s.duration_secs > 0,
        s.segment.first_pts is Some,
        pkt.pts_ms is Some,
    ensures
        ({
            let first = s.segment.first_pts->0;
            let now = pkt.pts_ms->0;
            let (after, step) = s.packet(pkt, pts);
            &&& step is CutBefore <==> !pkt.is_sequence_header && pkt.is_keyframe && now > first
                && now - first >= 1000 * s.duration_secs
            &&& step matches WriteStep::CutBefore(ms) ==> ms == now - first && after == s
            &&& pkt.is_sequence_header ==> (after, step) == (s, WriteStep::Skip)
        }),
{
}

/// The timestamps of a run of packets, by their presentation times.
pub open spec fn timestamp_run(last_dts: int, pts: Seq<int>) -> Seq<int>
    decreases pts.len(),
{
    if pts.len() == 0 {
        Seq::empty()
    } else {
        let front = timestamp_run(last_dts, pts.drop_last());
        front.push(
            next_timestamp(
                if front.len() == 0 {
                    last_dts
                } else {
                    front.last()
                },
                pts.last(),
            ),
        )
    }
}

/// Timestamps given out to one muxer increase strictly, whatever the packets'
/// own times are, and none is earlier than its packet's own time.
pub proof fn law_timestamps_increase(last_dts: int, pts: Seq<int>)
    ensures
        timestamp_run(last_dts, pts).len() == pts.len(),
        forall|i: int|
            0 <= i < pts.len() ==> last_dts < #[trigger] timestamp_run(last_dts, pts)[i] && pts[i]
                <= timestamp_run(last_dts, pts)[i],
        forall|i: int, j: int|
            0 <= i < j < pts.len() ==> #[trigger] timestamp_run(last_dts, pts)[i]
                < #[trigger] timestamp_run(last_dts, pts)[j],
    decreases pts.len(),
{
    if pts.len() > 0 {
        let front = pts.drop_last();
        law_timestamps_increase(last_dts, front);
        let a = timestamp_run(last_dts, front);
        let b = timestamp_run(last_dts, pts);
        assert forall|i: int| 0 <= i < pts.len() implies last_dts < #[trigger] b[i] && pts[i]
            <= b[i] by {
            if i < front.len() {
                assert(b[i] == a[i]);
                assert(front[i] == pts[i]);
            }
        }
        assert forall|i: int, j: int| 0 <= i < j < pts.len() implies #[trigger] b[i]
            < #[trigger] b[j] by {
            assert(b[i] == a[i]);
            if j < front.len() {
                assert(b[j] == a[j]);
            } else if i < front.len() - 1 {
                assert(a[i] < a[front.len() - 1]);
            }
        }
    }
}

/// The state after a run of packets was taken into one segment, by their presentation
/// times in milliseconds and in muxer ticks.
pub open spec fn admitted_all(
    s: SegmenterView,
    pts_ms: Seq<Option<i64>>,
    pts: Seq<i64>,
) -> SegmenterView
    decreases pts.len(),
{
    if pts.len() == 0 {
        s
    } else {
        admitted_all(s, pts_ms.drop_last(), pts.drop_last()).admitted(pts_ms.last(), pts.last())
    }
}

/// Times as numbers.
pub open spec fn as_ints(pts: Seq<i64>) -> Seq<int> {
    Seq::new(pts.len(), |i: int| pts[i] as int)
}

/// The packets of one segment get the timestamps of the run, so these increase
/// strictly. It holds while timestamps fit their 64 bits.
pub proof fn law_packets_take_run_timestamps(
    s: SegmenterView,
    pts_ms: Seq<Option<i64>>,
    pts: Seq<i64>,
)
    requires
        pts_ms.len() == pts.len(),
        pts.len() > 0,
        forall|i: int|
            0 <= i < pts.len() ==> #[trigger] timestamp_run(s.last_dts as int, as_ints(pts))[i]
                <= i64::MAX,
    ensures
        admitted_all(s, pts_ms, pts).last_dts == timestamp_run(
            s.last_dts as int,
            as_ints(pts),
        ).last(),
    decreases pts.len(),
{
    let ts = timestamp_run(s.last_dts as int, as_ints(pts));
    let front_pts = pts.drop_last();
    law_timestamps_increase(s.last_dts as int, as_ints(pts));
    assert(as_ints(pts).drop_last() =~= as_ints(front_pts));
    let front = timestamp_run(s.last_dts as int, as_ints(front_pts));
    law_timestamps_increase(s.last_dts as int, as_ints(front_pts));
    assert(ts[pts.len() - 1] <= i64::MAX);
    if front_pts.len() > 0 {
        assert forall|i: int| 0 <= i < front_pts.len() implies #[trigger] front[i]
            <= i64::MAX by {
            assert(ts[i] == front[i]);
        }
        law_packets_take_run_timestamps(s, pts_ms.drop_last(), front_pts);
    }
    let before = admitted_all(s, pts_ms.drop_last(), front_pts);
    assert(ts.last() == next_timestamp(before.last_dts as int, pts.last() as int));
}

/// A packet that is muxed is taken into the segment being written, with the next
/// timestamp.
pub proof fn law_muxed_packet_takes_next_timestamp(s: SegmenterView, pkt: PacketView, pts: i64)
    ensures
        s.packet(pkt, pts).1 matches WriteStep::Write(ts) ==> s.packet(pkt, pts).0 == s.admitted(
            pkt.pts_ms,
            pts,
        ) && ts == s.packet(pkt, pts).0.last_dts,
{
}

/// Milliseconds from a time to a later one; none where one is unknown or no time has
/// passed.
pub open spec fn millis_between(from: Option<i64>, to: Option<i64>) -> int {
    match (from, to) {
        (Some(a), Some(b)) if b > a => b - a,
        _ => 0,
    }
}

/// A packet that is no sequence header is muxed at its own time where that is later
/// than every timestamp before it, and else one tick after the last, unless it ends a
/// segment or no muxer is there. It ends the segment where it is a keyframe, a packet
/// was muxed before it and as much time as a segment is to last has passed since the
/// segment's first packet.
pub proof fn law_what_becomes_of_a_packet(s: SegmenterView, pkt: PacketView, pts: i64)
    requires
        !pkt.is_sequence_header,
        s.last_dts < i64::MAX,
    ensures
        ({
            let (after, step) = s.packet(pkt, pts);
            let first = if s.segment.first_pts is Some {
                s.segment.first_pts
            } else {
                pkt.pts_ms
            };
            let ms = millis_between(first, pkt.pts_ms);
            let ends = s.begun && pkt.is_keyframe && ms >= s.duration_secs * 1000;
            &&& step is NoMuxer <==> !s.muxer_ready
            &&& s.muxer_ready && ends ==> step == WriteStep::CutBefore(ms as u64) && after == s
            &&& s.muxer_ready && !ends ==> step == WriteStep::Write(after.last_dts)
            &&& !(s.muxer_ready && ends) ==> {
                &&& pts > s.last_dts ==> after.last_dts == pts
                &&& pts <= s.last_dts ==> after.last_dts == s.last_dts + 1
                &&& after.segment.first_pts == first
                &&& after.segment.last_pts == pkt.pts_ms
                &&& after.begun == s.begun
                &&& after.next_sequence == s.next_sequence
                &&& after.playlist == s.playlist
            }
        }),
{
}

/// A finished segment tells its file, its number, in its name too, and how long it
/// lasts.
pub proof fn law_segments_describe_themselves(
    s: TsSegment,
    sequence: u64,
    path: Seq<char>,
    duration_ms: u64,
    is_final: bool,
)
    requires
        is_segment(s, sequence, path, duration_ms, is_final),
    ensures
        s.path@ == path,
        s.sequence == sequence,
        s.filename@ == segment_name(s.sequence),
        s.is_final == is_final,
        s.duration.total_nanos() == duration_ms * 1_000_000,
{
}

/// How long a segment lasts is known once time has passed in it.
pub proof fn law_elapsed_once_time_has_passed(s: SegmentState, r: Option<u64>)
    requires
        call_ensures(SegmentState::elapsed, (&s,), r),
    ensures
        r is Some <==> millis_between(s.first_pts, s.last_pts) > 0,
        r matches Some(ms) ==> ms == millis_between(s.first_pts, s.last_pts),
{
}

} // verus!
