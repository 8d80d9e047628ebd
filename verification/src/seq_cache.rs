//! Cache of sequence headers for late-joining subscribers.
use crate::codec::packet::{packet_views, EncodedPacket, PacketView};
use crate::traits::Node;
use vstd::prelude::*;

verus! {

/// Remembers what a late subscriber needs to start playing.
#[derive(Debug)]
pub struct SeqCacheProbe {
    pub video_seq_header: Option<EncodedPacket>,
    pub audio_seq_header: Option<EncodedPacket>,
    pub last_keyframe: Option<EncodedPacket>,
    pub script_data: Option<EncodedPacket>,
}

/// What a `SeqCacheProbe` remembers.
#[verifier::ext_equal]
pub struct SeqCacheView {
    pub video_seq_header: Option<PacketView>,
    pub audio_seq_header: Option<PacketView>,
    pub last_keyframe: Option<PacketView>,
    pub script_data: Option<PacketView>,
}

/// The view of an optional packet.
pub open spec fn opt_packet(p: Option<EncodedPacket>) -> Option<PacketView> {
    match p {
        Some(x) => Some(x@),
        None => None,
    }
}

/// An optional packet as a sequence of at most one.
pub open spec fn at_most_one(p: Option<PacketView>) -> Seq<PacketView> {
    match p {
        Some(x) => seq![x],
        None => Seq::empty(),
    }
}

impl SeqCacheView {
    /// What is remembered after a packet: a video header, an audio header, a
    /// video keyframe or script data, in this order of precedence, replaces the
    /// one before it.
    pub open spec fn seen(self, pkt: PacketView) -> SeqCacheView {
        if pkt.is_video() && pkt.is_sequence_header {
            SeqCacheView { video_seq_header: Some(pkt), ..self }
        } else if pkt.is_audio() && pkt.is_sequence_header {
            SeqCacheView { audio_seq_header: Some(pkt), ..self }
        } else if pkt.is_video() && pkt.is_keyframe {
            SeqCacheView { last_keyframe: Some(pkt), ..self }
        } else if pkt.is_script_data {
            SeqCacheView { script_data: Some(pkt), ..self }
        } else {
            self
        }
    }

    /// What a late subscriber is sent: script data, video header, audio header
    /// and keyframe, those that are there.
    pub open spec fn replay(self) -> Seq<PacketView> {
        at_most_one(self.script_data) + at_most_one(self.video_seq_header) + at_most_one(
            self.audio_seq_header,
        ) + at_most_one(self.last_keyframe)
    }
}

impl View for SeqCacheProbe {
    type V = SeqCacheView;

    open spec fn view(&self) -> SeqCacheView {
        SeqCacheView {
            video_seq_header: opt_packet(self.video_seq_header),
            audio_seq_header: opt_packet(self.audio_seq_header),
            last_keyframe: opt_packet(self.last_keyframe),
            script_data: opt_packet(self.script_data),
        }
    }
}

fn push_copy(out: &mut Vec<EncodedPacket>, p: &Option<EncodedPacket>)
    ensures
        packet_views(final(out)@) == packet_views(old(out)@) + at_most_one(opt_packet(*p)),
{
    if let Some(x) = p {
        out.push(x.clone());
    }
    assert(packet_views(out@) =~= packet_views(old(out)@) + at_most_one(opt_packet(*p)));
}

impl SeqCacheProbe {
    /// A cache that remembers nothing.
    pub fn new() -> (r: Self)
        ensures
            r@ == (SeqCacheView {
                video_seq_header: None,
                audio_seq_header: None,
                last_keyframe: None,
                script_data: None,
            }),
    {
        SeqCacheProbe {
            video_seq_header: None,
            audio_seq_header: None,
            last_keyframe: None,
            script_data: None,
        }
    }

    /// What a late subscriber is sent.
    pub fn snapshot(&self) -> (r: Vec<EncodedPacket>)
        ensures
            packet_views(r@) == self@.replay(),
    {
        let mut result: Vec<EncodedPacket> = Vec::new();
        assert(packet_views(result@) =~= Seq::empty());
        push_copy(&mut result, &self.script_data);
        push_copy(&mut result, &self.video_seq_header);
        push_copy(&mut result, &self.audio_seq_header);
        push_copy(&mut result, &self.last_keyframe);
        assert(packet_views(result@) =~= self@.replay());
        result
    }

    /// Remembers a packet and hands it on unchanged.
    pub fn process(&mut self, pkt: EncodedPacket) -> (r: Vec<EncodedPacket>)
        ensures
            final(self)@ == old(self)@.seen(pkt@),
            r@ == seq![pkt],
    {
        if pkt.is_video() && pkt.is_sequence_header {
            self.video_seq_header = Some(pkt.clone());
        } else if pkt.is_audio() && pkt.is_sequence_header {
            self.audio_seq_header = Some(pkt.clone());
        } else if pkt.is_video() && pkt.is_keyframe {
            self.last_keyframe = Some(pkt.clone());
        } else if pkt.is_script_data {
            self.script_data = Some(pkt.clone());
        }
        let mut out: Vec<EncodedPacket> = Vec::new();
        out.push(pkt);
        assert(out@ =~= seq![pkt]);
        out
    }

    /// Whether packets are taken in: always.
    pub fn should_process(&self) -> (r: bool)
        ensures
            r,
    {
        true
    }
}

impl Node for SeqCacheProbe {
    fn name(&self) -> (r: &str)
        ensures
            r@ == "seq-cache-probe"@,
    {
        "seq-cache-probe"
    }
}

/// What is remembered after a run of packets.
pub open spec fn seen_all(c: SeqCacheView, pkts: Seq<PacketView>) -> SeqCacheView
    decreases pkts.len(),
{
    if pkts.len() == 0 {
        c
    } else {
        seen_all(c, pkts.drop_last()).seen(pkts.last())
    }
}

/// A late subscriber gets the newest video header: once one was seen, and until
/// the next, it is part of what is sent, before any keyframe.
pub proof fn law_late_subscriber_gets_newest_header(
    c: SeqCacheView,
    header: PacketView,
    rest: Seq<PacketView>,
)
    requires
        header.is_video(),
        header.is_sequence_header,
        forall|i: int|
            0 <= i < rest.len() ==> !((#[trigger] rest[i]).is_video()
                && rest[i].is_sequence_header),
    ensures
        seen_all(c.seen(header), rest).video_seq_header == Some(header),
        seen_all(c.seen(header), rest).replay().contains(header),
    decreases rest.len(),
{
    let s = seen_all(c.seen(header), rest);
    if rest.len() > 0 {
        let front = rest.drop_last();
        assert forall|i: int| 0 <= i < front.len() implies !((#[trigger] front[i]).is_video()
            && front[i].is_sequence_header) by {
            assert(front[i] == rest[i]);
        }
        law_late_subscriber_gets_newest_header(c, header, front);
        assert(!(rest[rest.len() - 1].is_video() && rest[rest.len() - 1].is_sequence_header));
    }
    assert(s.replay()[at_most_one(s.script_data).len() as int] == header);
}

/// At most four packets are sent, and headers come before the keyframe.
pub proof fn law_replay_order(c: SeqCacheView)
    ensures
        c.replay().len() <= 4,
        c.last_keyframe is Some ==> c.replay().last() == c.last_keyframe->0,
        c.script_data is Some ==> c.replay()[0] == c.script_data->0,
{
}

/// A late subscriber starts at the newest keyframe: once a video keyframe was seen,
/// and until the next, what is sent ends in it, whatever was remembered before.
pub proof fn law_late_subscriber_starts_at_newest_keyframe(
    c: SeqCacheView,
    keyframe: PacketView,
    rest: Seq<PacketView>,
)
    requires
        keyframe.is_video(),
        keyframe.is_keyframe,
        !keyframe.is_sequence_header,
        forall|i: int|
            0 <= i < rest.len() ==> !((#[trigger] rest[i]).is_video() && rest[i].is_keyframe
                && !rest[i].is_sequence_header),
    ensures
        seen_all(c.seen(keyframe), rest).last_keyframe == Some(keyframe),
        seen_all(c.seen(keyframe), rest).replay().len() > 0,
        seen_all(c.seen(keyframe), rest).replay().last() == keyframe,
    decreases rest.len(),
{
    if rest.len() > 0 {
        let front = rest.drop_last();
        assert forall|i: int| 0 <= i < front.len() implies !((#[trigger] front[i]).is_video()
            && front[i].is_keyframe && !front[i].is_sequence_header) by {
            assert(front[i] == rest[i]);
        }
        law_late_subscriber_starts_at_newest_keyframe(c, keyframe, front);
        let last = rest[rest.len() - 1];
        assert(!(last.is_video() && last.is_keyframe && !last.is_sequence_header));
    }
}

/// A late subscriber gets the newest audio header: once one was seen, and until the
/// next, it is part of what is sent.
pub proof fn law_late_subscriber_gets_newest_audio_header(
    c: SeqCacheView,
    header: PacketView,
    rest: Seq<PacketView>,
)
    requires
        header.is_audio(),
        header.is_sequence_header,
        forall|i: int|
            0 <= i < rest.len() ==> !((#[trigger] rest[i]).is_audio()
                && rest[i].is_sequence_header),
    ensures
        seen_all(c.seen(header), rest).audio_seq_header == Some(header),
        seen_all(c.seen(header), rest).replay().contains(header),
    decreases rest.len(),
{
    let s = seen_all(c.seen(header), rest);
    if rest.len() > 0 {
        let front = rest.drop_last();
        assert forall|i: int| 0 <= i < front.len() implies !((#[trigger] front[i]).is_audio()
            && front[i].is_sequence_header) by {
            assert(front[i] == rest[i]);
        }
        law_late_subscriber_gets_newest_audio_header(c, header, front);
        let last = rest[rest.len() - 1];
        assert(!(last.is_audio() && last.is_sequence_header));
    }
    let at = at_most_one(s.script_data).len() + at_most_one(s.video_seq_header).len();
    assert(s.replay()[at as int] == header);
}

/// A late subscriber gets the newest script data first: once it was seen, and until
/// the next, what is sent begins with it. A packet that is an audio or video header or
/// a video keyframe counts as that.
pub proof fn law_late_subscriber_gets_newest_script_data(
    c: SeqCacheView,
    script: PacketView,
    rest: Seq<PacketView>,
)
    requires
        script.is_script_data,
        !(script.is_sequence_header && (script.is_video() || script.is_audio())),
        !(script.is_keyframe && script.is_video()),
        forall|i: int|
            0 <= i < rest.len() ==> !(#[trigger] rest[i]).is_script_data || (
            rest[i].is_sequence_header && (rest[i].is_video() || rest[i].is_audio())) || (
            rest[i].is_keyframe && rest[i].is_video()),
    ensures
        seen_all(c.seen(script), rest).script_data == Some(script),
        seen_all(c.seen(script), rest).replay().len() > 0,
        seen_all(c.seen(script), rest).replay()[0] == script,
    decreases rest.len(),
{
    if rest.len() > 0 {
        let front = rest.drop_last();
        assert forall|i: int| 0 <= i < front.len() implies !(
        #[trigger] front[i]).is_script_data || (front[i].is_sequence_header && (
        front[i].is_video() || front[i].is_audio())) || (front[i].is_keyframe
            && front[i].is_video()) by {
            assert(front[i] == rest[i]);
        }
        law_late_subscriber_gets_newest_script_data(c, script, front);
        assert(rest[rest.len() - 1] == rest.last());
    }
}

/// A cache that has seen nothing sends nothing, and one sends only what it has seen.
pub proof fn law_replay_was_seen(pkts: Seq<PacketView>, i: int)
    requires
        0 <= i < seen_all(nothing_seen(), pkts).replay().len(),
    ensures
        pkts.contains(seen_all(nothing_seen(), pkts).replay()[i]),
{
    let s = seen_all(nothing_seen(), pkts);
    lemma_remembered_was_seen(pkts);
    assert(s.replay()[i] == s.script_data->0 && s.script_data is Some || s.replay()[i]
        == s.video_seq_header->0 && s.video_seq_header is Some || s.replay()[i]
        == s.audio_seq_header->0 && s.audio_seq_header is Some || s.replay()[i]
        == s.last_keyframe->0 && s.last_keyframe is Some);
}

/// A cache that has seen nothing.
pub open spec fn nothing_seen() -> SeqCacheView {
    SeqCacheView {
        video_seq_header: None,
        audio_seq_header: None,
        last_keyframe: None,
        script_data: None,
    }
}

proof fn lemma_remembered_was_seen(pkts: Seq<PacketView>)
    ensures
        ({
            let s = seen_all(nothing_seen(), pkts);
            &&& s.script_data matches Some(p) ==> pkts.contains(p)
            &&& s.video_seq_header matches Some(p) ==> pkts.contains(p)
            &&& s.audio_seq_header matches Some(p) ==> pkts.contains(p)
            &&& s.last_keyframe matches Some(p) ==> pkts.contains(p)
        }),
    decreases pkts.len(),
{
    if pkts.len() > 0 {
        let front = pkts.drop_last();
        lemma_remembered_was_seen(front);
        assert forall|p: PacketView| front.contains(p) implies #[trigger] pkts.contains(p) by {
            let k = choose|k: int| 0 <= k < front.len() && front[k] == p;
            assert(pkts[k] == p);
        }
        assert(pkts[pkts.len() - 1] == pkts.last());
    }
}

/// What is sent starts a player: script data, then the video header, then the audio
/// header, then the keyframe, each where it is there.
pub proof fn law_replay_holds_what_is_remembered(c: SeqCacheView)
    ensures
        ({
            let n = |p: Option<PacketView>| if p is Some { 1int } else { 0int };
            let r = c.replay();
            let video = n(c.script_data);
            let audio = video + n(c.video_seq_header);
            let key = audio + n(c.audio_seq_header);
            &&& r.len() == key + n(c.last_keyframe)
            &&& c.script_data is Some ==> r[0] == c.script_data->0
            &&& c.video_seq_header is Some ==> r[video] == c.video_seq_header->0
            &&& c.audio_seq_header is Some ==> r[audio] == c.audio_seq_header->0
            &&& c.last_keyframe is Some ==> r[key] == c.last_keyframe->0
        }),
{
}

} // verus!
