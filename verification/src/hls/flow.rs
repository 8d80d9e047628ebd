//! The order of work of a segmenter.
//!
//! Muxing packets, replacing the muxer and storing files is the caller's part.
//! The flow says what is to be done next; the caller does it and reports how it
//! went, until there is nothing left to do.
//!
//! Segments are aligned to keyframes. A keyframe that ends a segment is held back
//! while the segment is ended, stored and published, and is then the first packet
//! of the next one.
use crate::codec::packet::{EncodedPacket, PacketView, TsSegment};
use crate::config::SegmentConfig;
use crate::hls::names::segment_name;
use crate::hls::playlist::{EntryView, PlaylistView};
use crate::hls::segmenter::{
    is_segment, millis_between, next_timestamp, HlsSegmenter, SegmentState, SegmenterView, WriteStep,
};
use vstd::prelude::*;

verus! {

/// A packet that is held back until the next segment is begun.
#[derive(Clone, Copy, Debug, PartialEq, Eq, Structural)]
pub struct Held {
    pub pts_ms: Option<i64>,
    /// Its presentation time in muxer ticks.
    pub ticks: i64,
}

/// A segment that is being ended.
#[derive(Clone, Copy, Debug, PartialEq, Eq, Structural)]
pub struct Ending {
    pub duration_ms: u64,
    /// The packet that ended it, the first of the next one; `None` where it is the
    /// last segment of the stream.
    pub next: Option<Held>,
}

/// What a flow waits for.
#[derive(Clone, Copy, Debug, PartialEq, Eq, Structural)]
pub enum Phase {
    /// The next packet.
    Idle,
    /// Whether the packet was muxed. A segment may have failed to end before it.
    Muxing { failed: bool },
    /// Whether a muxer is in place again after a failure.
    Recovering { failed: bool },
    /// Whether the muxer of a segment has ended it.
    EndingMuxer { ending: Ending },
    /// Whether a muxer for the next segment is in place.
    ReplacingMuxer { ending: Ending, sequence: u64 },
    /// Where the segment's file was stored.
    Storing { ending: Ending, sequence: u64 },
    /// That the segment was handed on.
    Publishing { next: Option<Held> },
}

/// How the work asked for went.
#[derive(Debug)]
pub enum FlowOutcome {
    /// Whether the packet was muxed.
    Muxed(bool),
    /// Whether a new muxer is in place.
    MuxerReplaced(bool),
    /// Whether the muxer has written its trailer and its output was taken.
    MuxerEnded(bool),
    /// Where the segment's file was staged, if it could be.
    Stored(Option<String>),
    /// The segment was handed on.
    Published,
}

/// What is to be done next.
#[derive(Debug)]
pub enum FlowAction {
    /// Nothing until the next packet.
    Wait,
    /// Mux the packet that arrived last with this timestamp, both as PTS and as DTS.
    Mux(i64),
    /// Drop the muxer with its output, and put a new one in place.
    ReplaceMuxer,
    /// Have the muxer write its trailer, and take its output.
    EndMuxer,
    /// Write the output taken to the file of this number, and stage it.
    Store(u64),
    /// Write the playlist, and hand the segment on.
    Publish { segment: TsSegment, playlist: String },
    /// Nothing until the next packet, and report a failure.
    Fail,
}

/// `FlowOutcome` with its text as a sequence.
#[verifier::ext_equal]
pub enum FlowOutcomeView {
    Muxed(bool),
    MuxerReplaced(bool),
    MuxerEnded(bool),
    Stored(Option<Seq<char>>),
    Published,
}

/// `FlowAction` by what it says.
#[verifier::ext_equal]
pub enum FlowActionView {
    Wait,
    Mux(i64),
    ReplaceMuxer,
    EndMuxer,
    Store(u64),
    Publish {
        sequence: u64,
        path: Seq<char>,
        duration_ms: u64,
        is_final: bool,
        playlist: Seq<char>,
    },
    Fail,
}

impl View for FlowOutcome {
    type V = FlowOutcomeView;

    open spec fn view(&self) -> FlowOutcomeView {
        match self {
            FlowOutcome::Muxed(ok) => FlowOutcomeView::Muxed(*ok),
            FlowOutcome::MuxerReplaced(ok) => FlowOutcomeView::MuxerReplaced(*ok),
            FlowOutcome::MuxerEnded(ok) => FlowOutcomeView::MuxerEnded(*ok),
            FlowOutcome::Stored(path) => FlowOutcomeView::Stored(
                match path {
                    Some(p) => Some(p@),
                    None => None,
                },
            ),
            FlowOutcome::Published => FlowOutcomeView::Published,
        }
    }
}

/// Whether an action is the one described.
pub open spec fn says(action: FlowAction, view: FlowActionView) -> bool {
    match view {
        FlowActionView::Wait => action is Wait,
        FlowActionView::Mux(ts) => action == FlowAction::Mux(ts),
        FlowActionView::ReplaceMuxer => action is ReplaceMuxer,
        FlowActionView::EndMuxer => action is EndMuxer,
        FlowActionView::Store(sequence) => action == FlowAction::Store(sequence),
        FlowActionView::Publish { sequence, path, duration_ms, is_final, playlist } => {
            action matches FlowAction::Publish { segment, playlist: text } && text@ == playlist
                && is_segment(segment, sequence, path, duration_ms, is_final)
        },
        FlowActionView::Fail => action is Fail,
    }
}

/// The work of a segmenter on one stream.
#[derive(Debug)]
pub struct SegmentFlow {
    rules: HlsSegmenter,
    phase: Phase,
}

/// The state of a `SegmentFlow`.
#[verifier::ext_equal]
pub struct FlowView {
    pub rules: SegmenterView,
    pub phase: Phase,
}

impl View for SegmentFlow {
    type V = FlowView;

    closed spec fn view(&self) -> FlowView {
        FlowView { rules: self.rules@, phase: self.phase }
    }
}

impl SegmenterView {
    /// The number of the segment being written was taken.
    pub open spec fn sequence_taken(self) -> SegmenterView {
        SegmenterView { next_sequence: self.next_sequence + 1, ..self }
    }

    /// A segment that was ended is listed, and the next one starts.
    pub open spec fn ended(self, ending: Ending, sequence: u64) -> SegmenterView {
        let listed = self.listed(sequence, ending.duration_ms);
        match ending.next {
            Some(held) => listed.started_at(held.pts_ms),
            None => listed,
        }
    }
}

impl FlowView {
    /// Whether a packet is held back.
    pub open spec fn holds_packet(self) -> bool {
        match self.phase {
            Phase::EndingMuxer { ending } => ending.next is Some,
            Phase::ReplacingMuxer { ending, .. } => ending.next is Some,
            Phase::Storing { ending, .. } => ending.next is Some,
            Phase::Publishing { next } => next is Some,
            _ => false,
        }
    }

    /// Whether the segmenter is well-formed, a number taken is one that the
    /// playlist does not list, and a packet held back can get a timestamp.
    pub open spec fn wf(self) -> bool {
        &&& self.rules.wf()
        &&& (self.phase is ReplacingMuxer || self.phase is Storing) ==> self.rules.has_unlisted()
        &&& self.holds_packet() ==> self.rules.last_dts < i64::MAX
    }

    /// The flow waiting for something else.
    pub open spec fn waiting(self, phase: Phase) -> FlowView {
        FlowView { phase, ..self }
    }

    /// Muxing failed.
    pub open spec fn recovering(self, failed: bool) -> (FlowView, FlowActionView) {
        (
            FlowView { rules: self.rules.failed(), phase: Phase::Recovering { failed } },
            FlowActionView::ReplaceMuxer,
        )
    }

    /// The work on a packet is done; a segment may have failed to end.
    pub open spec fn finished(self, failed: bool) -> (FlowView, FlowActionView) {
        (
            self.waiting(Phase::Idle),
            if failed {
                FlowActionView::Fail
            } else {
                FlowActionView::Wait
            },
        )
    }

    /// A segment is done with: a packet held back is muxed now. The segment may have
    /// failed to end.
    pub open spec fn resumed(self, next: Option<Held>, failed: bool) -> (FlowView, FlowActionView) {
        match next {
            Some(held) => {
                let rules = self.rules.admitted(held.pts_ms, held.ticks);
                (
                    FlowView { rules, phase: Phase::Muxing { failed } },
                    FlowActionView::Mux(rules.last_dts),
                )
            },
            None => self.finished(failed),
        }
    }

    /// A packet arrives; `pts` is its presentation time in muxer ticks.
    pub open spec fn packet(self, pkt: PacketView, pts: i64) -> (FlowView, FlowActionView) {
        let (rules, step) = self.rules.packet(pkt, pts);
        let taken = FlowView { rules, ..self };
        match step {
            WriteStep::Skip => (taken, FlowActionView::Wait),
            WriteStep::Write(ts) => (
                taken.waiting(Phase::Muxing { failed: false }),
                FlowActionView::Mux(ts),
            ),
            WriteStep::CutBefore(ms) => (
                taken.waiting(
                    Phase::EndingMuxer {
                        ending: Ending {
                            duration_ms: ms,
                            next: Some(Held { pts_ms: pkt.pts_ms, ticks: pts }),
                        },
                    },
                ),
                FlowActionView::EndMuxer,
            ),
            WriteStep::NoMuxer => taken.recovering(false),
        }
    }

    /// The stream ends.
    pub open spec fn close(self) -> (FlowView, FlowActionView) {
        let ending = Ending { duration_ms: self.rules.segment.span_or_zero() as u64, next: None };
        (self.waiting(Phase::EndingMuxer { ending }), FlowActionView::EndMuxer)
    }

    /// The work asked for was done, or failed. An outcome that was not waited for
    /// changes nothing.
    ///
    /// Where a segment cannot be ended or stored, the packet held back goes into the
    /// muxer in place; where no muxer can be had, it is lost.
    pub open spec fn outcome(self, o: FlowOutcomeView) -> (FlowView, FlowActionView) {
        match (self.phase, o) {
            (Phase::Muxing { failed }, FlowOutcomeView::Muxed(ok)) => if ok {
                FlowView { rules: self.rules.muxed(), ..self }.finished(failed)
            } else {
                self.recovering(failed)
            },
            (Phase::Recovering { failed }, FlowOutcomeView::MuxerReplaced(ok)) => if ok {
                FlowView { rules: self.rules.restarted(), ..self }.finished(failed)
            } else {
                self.finished(failed)
            },
            (Phase::EndingMuxer { ending }, FlowOutcomeView::MuxerEnded(ok)) => if ok
                && self.rules.next_sequence < u64::MAX {
                (
                    FlowView {
                        rules: self.rules.sequence_taken(),
                        phase: Phase::ReplacingMuxer {
                            ending,
                            sequence: self.rules.next_sequence as u64,
                        },
                    },
                    FlowActionView::ReplaceMuxer,
                )
            } else {
                self.resumed(ending.next, true)
            },
            (Phase::ReplacingMuxer { ending, sequence }, FlowOutcomeView::MuxerReplaced(ok)) => {
                if ok {
                    (
                        FlowView {
                            rules: self.rules.restarted(),
                            phase: Phase::Storing { ending, sequence },
                        },
                        FlowActionView::Store(sequence),
                    )
                } else {
                    FlowView { rules: self.rules.failed(), ..self }.finished(true)
                }
            },
            (Phase::Storing { ending, sequence }, FlowOutcomeView::Stored(stored)) => match stored {
                None => self.resumed(ending.next, true),
                Some(path) => {
                    let rules = self.rules.ended(ending, sequence);
                    let is_final = ending.next is None;
                    (
                        FlowView { rules, phase: Phase::Publishing { next: ending.next } },
                        FlowActionView::Publish {
                            sequence,
                            path,
                            duration_ms: ending.duration_ms,
                            is_final,
                            playlist: rules.playlist.text(is_final),
                        },
                    )
                },
            },
            (Phase::Publishing { next }, FlowOutcomeView::Published) => self.resumed(next, false),
            _ => (self, FlowActionView::Wait),
        }
    }
}

impl SegmentFlow {
    /// The stream being cut.
    pub closed spec fn id(&self) -> Seq<char> {
        self.rules.id()
    }

    /// The flow of a stream whose first muxer is in place.
    pub fn new(stream_id: &str, cfg: &SegmentConfig) -> (r: Self)
        ensures
            r.id() == stream_id@,
            r@.wf(),
            r@ == (FlowView {
                rules: SegmenterView {
                    duration_secs: cfg.duration_secs as nat,
                    next_sequence: 0,
                    last_dts: 0,
                    muxer_ready: true,
                    begun: false,
                    segment: SegmentState { first_pts: None, last_pts: None },
                    playlist: PlaylistView {
                        size: cfg.playlist_size as nat,
                        entries: Seq::empty(),
                        media_sequence: 0,
                    },
                },
                phase: Phase::Idle,
            }),
    {
        SegmentFlow { rules: HlsSegmenter::new(stream_id, cfg), phase: Phase::Idle }
    }

    /// The segmenter, for its name and its last timestamp.
    pub fn rules(&self) -> (r: &HlsSegmenter)
        ensures
            r@ == self@.rules,
            r.id() == self.id(),
    {
        &self.rules
    }

    /// Whether the next packet is waited for.
    pub fn is_idle(&self) -> (r: bool)
        ensures
            r == (self@.phase == Phase::Idle),
    {
        matches!(self.phase, Phase::Idle)
    }

    /// Takes a packet in; `pts` is its presentation time in muxer ticks.
    pub fn on_packet(&mut self, pkt: &EncodedPacket, pts: i64) -> (r: FlowAction)
        requires
            old(self)@.wf(),
            old(self)@.phase == Phase::Idle,
            old(self)@.rules.last_dts < i64::MAX,
        ensures
            final(self)@.wf(),
            final(self).id() == old(self).id(),
            final(self)@ == old(self)@.packet(pkt@, pts).0,
            says(r, old(self)@.packet(pkt@, pts).1),
    {
        match self.rules.on_packet(pkt, pts) {
            WriteStep::Skip => FlowAction::Wait,
            WriteStep::Write(ts) => {
                self.phase = Phase::Muxing { failed: false };
                FlowAction::Mux(ts)
            },
            WriteStep::CutBefore(duration_ms) => {
                let next = Some(Held { pts_ms: pkt.pts_ms, ticks: pts });
                self.phase = Phase::EndingMuxer { ending: Ending { duration_ms, next } };
                FlowAction::EndMuxer
            },
            WriteStep::NoMuxer => self.recover(false),
        }
    }

    /// Gives the segment up and asks for a new muxer.
    fn recover(&mut self, failed: bool) -> (r: FlowAction)
        requires
            old(self)@.wf(),
        ensures
            final(self)@.wf(),
            final(self).id() == old(self).id(),
            final(self)@ == old(self)@.recovering(failed).0,
            says(r, old(self)@.recovering(failed).1),
    {
        self.rules.on_write_error();
        self.phase = Phase::Recovering { failed };
        FlowAction::ReplaceMuxer
    }

    /// Ends the work on a packet.
    fn finish(&mut self, failed: bool) -> (r: FlowAction)
        requires
            old(self)@.wf(),
        ensures
            final(self)@.wf(),
            final(self).id() == old(self).id(),
            final(self)@ == old(self)@.finished(failed).0,
            says(r, old(self)@.finished(failed).1),
    {
        self.phase = Phase::Idle;
        if failed {
            FlowAction::Fail
        } else {
            FlowAction::Wait
        }
    }

    /// Goes on with a packet held back.
    fn resume(&mut self, next: Option<Held>, failed: bool) -> (r: FlowAction)
        requires
            old(self)@.wf(),
            next is Some ==> old(self)@.rules.last_dts < i64::MAX,
        ensures
            final(self)@.wf(),
            final(self).id() == old(self).id(),
            final(self)@ == old(self)@.resumed(next, failed).0,
            says(r, old(self)@.resumed(next, failed).1),
    {
        match next {
            Some(held) => {
                let ts: i64 = self.rules.take_in(held.pts_ms, held.ticks);
                self.phase = Phase::Muxing { failed };
                FlowAction::Mux(ts)
            },
            None => self.finish(failed),
        }
    }

    /// Ends the stream.
    pub fn on_close(&mut self) -> (r: FlowAction)
        requires
            old(self)@.wf(),
            old(self)@.phase == Phase::Idle,
        ensures
            final(self)@.wf(),
            final(self).id() == old(self).id(),
            final(self)@ == old(self)@.close().0,
            says(r, old(self)@.close().1),
    {
        let duration_ms: u64 = self.rules.elapsed_or_zero();
        self.phase = Phase::EndingMuxer {
            ending: Ending { duration_ms, next: None },
        };
        FlowAction::EndMuxer
    }

    /// Takes in how the work asked for went.
    pub fn on_outcome(&mut self, outcome: FlowOutcome) -> (r: FlowAction)
        requires
            old(self)@.wf(),
        ensures
            final(self)@.wf(),
            final(self).id() == old(self).id(),
            final(self)@ == old(self)@.outcome(outcome@).0,
            says(r, old(self)@.outcome(outcome@).1),
    {
        match (self.phase, outcome) {
            (Phase::Muxing { failed }, FlowOutcome::Muxed(ok)) => {
                if !ok {
                    return self.recover(failed);
                }
                self.rules.on_muxed();
                self.finish(failed)
            },
            (Phase::Recovering { failed }, FlowOutcome::MuxerReplaced(ok)) => {
                if ok {
                    self.rules.on_muxer_restarted();
                }
                self.finish(failed)
            },
            (Phase::EndingMuxer { ending }, FlowOutcome::MuxerEnded(ok)) => {
                if !ok || self.rules.next_sequence() == u64::MAX {
                    return self.resume(ending.next, true);
                }
                let sequence: u64 = self.rules.take_sequence();
                self.phase = Phase::ReplacingMuxer { ending, sequence };
                FlowAction::ReplaceMuxer
            },
            (Phase::ReplacingMuxer { ending, sequence }, FlowOutcome::MuxerReplaced(ok)) => {
                if !ok {
                    self.rules.on_write_error();
                    return self.finish(true);
                }
                self.rules.on_muxer_restarted();
                self.phase = Phase::Storing { ending, sequence };
                FlowAction::Store(sequence)
            },
            (Phase::Storing { ending, sequence }, FlowOutcome::Stored(stored)) => {
                let path: String = match stored {
                    None => {
                        return self.resume(ending.next, true);
                    },
                    Some(path) => path,
                };
                let segment = match ending.next {
                    Some(held) => self.rules.finish_segment(
                        sequence,
                        path,
                        ending.duration_ms,
                        held.pts_ms,
                    ),
                    None => self.rules.finish_stream(sequence, path, ending.duration_ms),
                };
                let playlist: String = self.rules.render_playlist(ending.next.is_none());
                self.phase = Phase::Publishing { next: ending.next };
                FlowAction::Publish { segment, playlist }
            },
            (Phase::Publishing { next }, FlowOutcome::Published) => self.resume(next, false),
            _ => FlowAction::Wait,
        }
    }
}

/// Whether an outcome is the one that a phase waits for.
pub open spec fn awaited(phase: Phase, o: FlowOutcomeView) -> bool {
    match phase {
        Phase::Idle => false,
        Phase::Muxing { .. } => o is Muxed,
        Phase::Recovering { .. } => o is MuxerReplaced,
        Phase::EndingMuxer { .. } => o is MuxerEnded,
        Phase::ReplacingMuxer { .. } => o is MuxerReplaced,
        Phase::Storing { .. } => o is Stored,
        Phase::Publishing { .. } => o is Published,
    }
}

/// How many outcomes a phase is away from the next packet at most.
pub open spec fn steps_left(phase: Phase) -> nat {
    match phase {
        Phase::Idle => 0,
        Phase::Recovering { .. } => 1,
        Phase::Muxing { .. } => 2,
        Phase::Publishing { .. } => 3,
        Phase::Storing { .. } => 4,
        Phase::ReplacingMuxer { .. } => 5,
        Phase::EndingMuxer { .. } => 6,
    }
}

/// The work on a packet comes to an end: every outcome waited for leads closer to
/// the next packet, however it went, and nothing is asked for while a packet is
/// waited for.
pub proof fn law_work_comes_to_an_end(v: FlowView, o: FlowOutcomeView)
    ensures
        awaited(v.phase, o) ==> {
            let (after, action) = v.outcome(o);
            &&& steps_left(after.phase) < steps_left(v.phase)
            &&& after.phase == Phase::Idle <==> action is Wait || action is Fail
        },
        !awaited(v.phase, o) ==> v.outcome(o) == (v, FlowActionView::Wait),
{
}

/// A segment is published only once its file is stored, and the playlist written
/// with it lists it last.
pub proof fn law_published_segment_is_stored_and_listed(v: FlowView, o: FlowOutcomeView)
    requires
        v.wf(),
    ensures
        v.outcome(o).1 matches FlowActionView::Publish {
            sequence,
            path,
            duration_ms,
            is_final,
            playlist,
        } ==> {
            let after = v.outcome(o).0.rules.playlist;
            &&& o == FlowOutcomeView::Stored(Some(path))
            &&& v.phase matches Phase::Storing { sequence: s, .. } && s == sequence
            &&& playlist == after.text(is_final)
            &&& after.entries.len() > 0
            &&& after.entries.last() == EntryView {
                filename: segment_name(sequence),
                duration_ms: duration_ms as nat,
            }
        },
{
}

/// Where all work succeeds, a keyframe past the target duration ends the segment
/// before it: the segment is published under its number with the time that has
/// passed, the number is used up, and only then is the keyframe muxed, with the
/// first timestamp of a new muxer.
pub proof fn law_rollover_publishes_before_keyframe(
    v: FlowView,
    pkt: PacketView,
    pts: i64,
    path: Seq<char>,
)
    requires
        v.wf(),
        v.phase == Phase::Idle,
        v.rules.muxer_ready,
        v.rules.last_dts < i64::MAX,
        v.rules.next_sequence < u64::MAX,
        !pkt.is_sequence_header,
        v.rules.cut(pkt) is Some,
    ensures
        ({
            let ms = v.rules.cut(pkt)->0;
            let (ending, end) = v.packet(pkt, pts);
            let (replacing, replace) = ending.outcome(FlowOutcomeView::MuxerEnded(true));
            let (storing, store) = replacing.outcome(FlowOutcomeView::MuxerReplaced(true));
            let (publishing, publish) = storing.outcome(FlowOutcomeView::Stored(Some(path)));
            let (muxing, mux) = publishing.outcome(FlowOutcomeView::Published);
            let (idle, wait) = muxing.outcome(FlowOutcomeView::Muxed(true));
            &&& end == FlowActionView::EndMuxer
            &&& replace == FlowActionView::ReplaceMuxer
            &&& store == FlowActionView::Store(v.rules.next_sequence as u64)
            &&& publish == FlowActionView::Publish {
                sequence: v.rules.next_sequence as u64,
                path,
                duration_ms: ms as u64,
                is_final: false,
                playlist: idle.rules.playlist.text(false),
            }
            &&& mux == FlowActionView::Mux(next_timestamp(0, pts as int) as i64)
            &&& wait == FlowActionView::Wait
            &&& idle.phase == Phase::Idle
            &&& idle.rules.muxer_ready
            &&& idle.rules.begun
            &&& idle.rules.next_sequence == v.rules.next_sequence + 1
            &&& idle.rules.segment == (SegmentState { first_pts: pkt.pts_ms, last_pts: pkt.pts_ms })
        }),
{
}

/// After a failure of the muxer the segment starts anew, and as soon as a muxer is
/// in place packets are muxed again; sequence numbers and the playlist are kept.
pub proof fn law_muxer_failure_is_recovered(v: FlowView)
    requires
        v.phase is Muxing,
    ensures
        ({
            let (failed, action) = v.outcome(FlowOutcomeView::Muxed(false));
            let (again, _) = failed.outcome(FlowOutcomeView::MuxerReplaced(true));
            let (without, _) = failed.outcome(FlowOutcomeView::MuxerReplaced(false));
            &&& action == FlowActionView::ReplaceMuxer
            &&& again.phase == Phase::Idle && again.rules.muxer_ready
            &&& without.phase == Phase::Idle && !without.rules.muxer_ready
            &&& again.rules.next_sequence == v.rules.next_sequence
            &&& again.rules.playlist == v.rules.playlist
            &&& again.rules.segment.span() is None
        }),
{
}

/// A keyframe is not lost where the segment before it cannot be ended or stored: it
/// is muxed into the muxer in place, and the failure is reported after that.
pub proof fn law_failed_rollover_keeps_keyframe(v: FlowView, held: Held, o: FlowOutcomeView)
    requires
        v.wf(),
        match v.phase {
            Phase::EndingMuxer { ending } => ending.next == Some(held) && o
                == FlowOutcomeView::MuxerEnded(false),
            Phase::Storing { ending, .. } => ending.next == Some(held) && o
                == FlowOutcomeView::Stored(None),
            _ => false,
        },
    ensures
        ({
            let (muxing, mux) = v.outcome(o);
            let (idle, fail) = muxing.outcome(FlowOutcomeView::Muxed(true));
            &&& mux == FlowActionView::Mux(
                next_timestamp(v.rules.last_dts as int, held.ticks as int) as i64,
            )
            &&& idle.phase == Phase::Idle
            &&& idle.rules.begun
            &&& idle.rules.playlist == v.rules.playlist
            &&& fail == FlowActionView::Fail
        }),
{
}

/// The end of a stream publishes what was being written as its final segment: it lasts
/// from its first packet to its last, comes under the next number, and the playlist
/// written with it is the ended one. Nothing is muxed after it.
pub proof fn law_close_publishes_final_segment(v: FlowView, path: Seq<char>)
    requires
        v.wf(),
        v.phase == Phase::Idle,
        v.rules.next_sequence < u64::MAX,
    ensures
        ({
            let ms = millis_between(v.rules.segment.first_pts, v.rules.segment.last_pts);
            let (ending, end) = v.close();
            let (replacing, replace) = ending.outcome(FlowOutcomeView::MuxerEnded(true));
            let (storing, store) = replacing.outcome(FlowOutcomeView::MuxerReplaced(true));
            let (publishing, publish) = storing.outcome(FlowOutcomeView::Stored(Some(path)));
            let (idle, wait) = publishing.outcome(FlowOutcomeView::Published);
            &&& end == FlowActionView::EndMuxer
            &&& replace == FlowActionView::ReplaceMuxer
            &&& store == FlowActionView::Store(v.rules.next_sequence as u64)
            &&& publish == FlowActionView::Publish {
                sequence: v.rules.next_sequence as u64,
                path,
                duration_ms: ms as u64,
                is_final: true,
                playlist: idle.rules.playlist.text(true),
            }
            &&& idle.rules.playlist.entries.last() == EntryView {
                filename: segment_name(v.rules.next_sequence as u64),
                duration_ms: ms as nat,
            }
            &&& wait == FlowActionView::Wait
            &&& idle.phase == Phase::Idle
            &&& idle.rules.next_sequence == v.rules.next_sequence + 1
        }),
{
}

/// Whatever is missing when a segment is ended is reported, and nothing is published
/// for it: where no number is left or the trailer cannot be written, where no muxer can
/// be had, and where the file cannot be stored.
pub proof fn law_failed_endings_are_reported(v: FlowView)
    requires
        v.wf(),
    ensures
        v.phase matches Phase::EndingMuxer { ending } ==> {
            let (failed, action) = v.outcome(FlowOutcomeView::MuxerEnded(false));
            let (out_of_numbers, _) = v.outcome(FlowOutcomeView::MuxerEnded(true));
            &&& ending.next is None ==> action == FlowActionView::Fail && failed.phase
                == Phase::Idle
            &&& failed.rules.next_sequence == v.rules.next_sequence
            &&& failed.rules.playlist == v.rules.playlist
            &&& v.rules.next_sequence == u64::MAX ==> out_of_numbers == failed
        },
        v.phase is ReplacingMuxer ==> {
            let (failed, action) = v.outcome(FlowOutcomeView::MuxerReplaced(false));
            &&& action == FlowActionView::Fail
            &&& failed.phase == Phase::Idle
            &&& !failed.rules.muxer_ready && !failed.rules.begun
            &&& failed.rules.segment.first_pts is None && failed.rules.segment.last_pts is None
            &&& failed.rules.playlist == v.rules.playlist
        },
        v.phase matches Phase::Storing { ending, .. } ==> {
            let (failed, action) = v.outcome(FlowOutcomeView::Stored(None));
            &&& ending.next is None ==> action == FlowActionView::Fail && failed.phase
                == Phase::Idle
            &&& failed.rules.playlist == v.rules.playlist
        },
{
}

/// A packet that finds no muxer is lost: a new one is asked for, and the segment starts
/// anew with the packet after it. A muxer's timestamps start at zero.
pub proof fn law_packet_without_muxer_is_lost(v: FlowView, pkt: PacketView, pts: i64, ok: bool)
    requires
        v.phase == Phase::Idle,
        !v.rules.muxer_ready,
        !pkt.is_sequence_header,
    ensures
        ({
            let (recovering, action) = v.packet(pkt, pts);
            let (idle, wait) = recovering.outcome(FlowOutcomeView::MuxerReplaced(ok));
            &&& action == FlowActionView::ReplaceMuxer
            &&& wait == FlowActionView::Wait
            &&& idle.phase == Phase::Idle
            &&& idle.rules.muxer_ready == ok
            &&& idle.rules.last_dts == 0
            &&& !idle.rules.begun
            &&& idle.rules.segment.first_pts is None && idle.rules.segment.last_pts is None
            &&& idle.rules.next_sequence == v.rules.next_sequence
            &&& idle.rules.playlist == v.rules.playlist
        }),
{
}

/// Sequence headers are passed over, and a packet that ends no segment is muxed at
/// once; a muxed packet makes the segment one that can end.
pub proof fn law_packet_is_muxed_at_once(v: FlowView, pkt: PacketView, pts: i64)
    requires
        v.phase == Phase::Idle,
        v.rules.muxer_ready,
        v.rules.last_dts < i64::MAX,
    ensures
        pkt.is_sequence_header ==> v.packet(pkt, pts) == (v, FlowActionView::Wait),
        !pkt.is_sequence_header && !(v.rules.begun && pkt.is_keyframe) ==> {
            let (muxing, mux) = v.packet(pkt, pts);
            let (idle, wait) = muxing.outcome(FlowOutcomeView::Muxed(true));
            &&& mux == FlowActionView::Mux(
                if pts > v.rules.last_dts {
                    pts
                } else {
                    (v.rules.last_dts + 1) as i64
                },
            )
            &&& wait == FlowActionView::Wait
            &&& idle.phase == Phase::Idle
            &&& idle.rules.begun
            &&& idle.rules.segment.last_pts == pkt.pts_ms
        },
{
}

} // verus!
