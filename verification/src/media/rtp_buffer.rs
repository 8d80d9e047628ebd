//! In-memory input of the RTP demuxer: the session description and the queue of
//! RTP packets that the demuxer reads from.
use crate::buffer::{bytes_as_slice, bytes_of};
use bytes::Bytes;
use std::collections::VecDeque;
use vstd::prelude::*;
use vstd::slice::{slice_subrange, slice_to_vec};
use vstd::string::StringSliceAdditionalSpecFns;

verus! {

/// Upper bound on the bytes of all queued packets.
pub const RTP_QUEUE_MAX_BYTES: usize = 1_048_576;

/// What a read callback hands back.
#[derive(Debug)]
pub enum ReadReply {
    /// The request was for no bytes or fewer.
    Invalid,
    /// The bytes read.
    Data(Vec<u8>),
    /// Nothing to read now.
    Again,
}

/// `ReadReply` with the bytes as a sequence.
#[verifier::ext_equal]
pub enum ReadReplyView {
    Invalid,
    Data(Seq<u8>),
    Again,
}

impl View for ReadReply {
    type V = ReadReplyView;

    open spec fn view(&self) -> ReadReplyView {
        match self {
            ReadReply::Invalid => ReadReplyView::Invalid,
            ReadReply::Data(d) => ReadReplyView::Data(d@),
            ReadReply::Again => ReadReplyView::Again,
        }
    }
}

/// Queue of RTP packets between the source and the demuxer.
#[derive(Debug)]
pub struct RtpBuf {
    /// Queue of complete RTP packets, each with its framing preserved.
    packets: VecDeque<Bytes>,
    /// The packet being read and the offset of its next byte.
    current: Option<(Bytes, usize)>,
    /// Upper bound on total bytes across all queued packets.
    max_bytes: usize,
    /// Whether RTP sequence probation has been handled.
    probation_satisfied: bool,
}

/// The contents of an `RtpBuf`.
#[verifier::ext_equal]
pub struct RtpBufView {
    pub packets: Seq<Seq<u8>>,
    pub current: Option<(Seq<u8>, int)>,
    pub max_bytes: int,
    pub probation_satisfied: bool,
}

/// The bytes of a run of packets.
pub open spec fn total_len(packets: Seq<Seq<u8>>) -> int
    decreases packets.len(),
{
    if packets.len() == 0 {
        0
    } else {
        packets[0].len() + total_len(packets.skip(1))
    }
}

/// A run of packets, concatenated.
pub open spec fn concat(packets: Seq<Seq<u8>>) -> Seq<u8>
    decreases packets.len(),
{
    if packets.len() == 0 {
        Seq::empty()
    } else {
        packets[0] + concat(packets.skip(1))
    }
}

/// The queue after its oldest packets made room: packets leave from the front
/// until `held + incoming` more bytes fit under the cap, or none is left.
pub open spec fn evicted(packets: Seq<Seq<u8>>, held: int, incoming: int, max_bytes: int) -> Seq<
    Seq<u8>,
>
    decreases packets.len(),
{
    if packets.len() == 0 || total_len(packets) + held + incoming <= max_bytes {
        packets
    } else {
        evicted(packets.skip(1), held, incoming, max_bytes)
    }
}

impl RtpBufView {
    /// Bytes of the packet being read.
    pub open spec fn held(self) -> int {
        match self.current {
            Some((p, _)) => p.len() as int,
            None => 0,
        }
    }

    /// Bytes of all packets, the one being read included.
    pub open spec fn total(self) -> int {
        total_len(self.packets) + self.held()
    }

    /// The queue as probation leaves it: with a packet already waiting, the first
    /// feed behind it doubles that packet.
    pub open spec fn after_probation(self) -> Seq<Seq<u8>> {
        if !self.probation_satisfied && self.packets.len() > 0 {
            seq![self.packets[0]] + self.packets
        } else {
            self.packets
        }
    }

    /// The buffer after a packet was fed.
    pub open spec fn fed(self, data: Seq<u8>) -> RtpBufView {
        RtpBufView {
            packets: evicted(
                self.after_probation(),
                self.held(),
                data.len() as int,
                self.max_bytes,
            ).push(data),
            probation_satisfied: self.probation_satisfied || self.packets.len() > 0,
            ..self
        }
    }

    /// The bytes that reads will still give, in order.
    pub open spec fn remaining(self) -> Seq<u8> {
        (match self.current {
            Some((p, offset)) => p.skip(offset),
            None => Seq::empty(),
        }) + concat(self.packets)
    }

    /// The buffer and the reply after a read of at most `n` bytes: a packet that
    /// was begun is continued, else the next one is begun.
    pub open spec fn read(self, n: int) -> (RtpBufView, ReadReplyView) {
        if n <= 0 {
            (self, ReadReplyView::Invalid)
        } else {
            match self.current {
                Some((p, offset)) => {
                    let end = if p.len() - offset <= n {
                        p.len() as int
                    } else {
                        offset + n
                    };
                    (
                        RtpBufView {
                            current: if end == p.len() {
                                None
                            } else {
                                Some((p, end))
                            },
                            ..self
                        },
                        ReadReplyView::Data(p.subrange(offset, end)),
                    )
                },
                None => if self.packets.len() == 0 {
                    (self, ReadReplyView::Again)
                } else {
                    let p = self.packets[0];
                    let end = if p.len() <= n {
                        p.len() as int
                    } else {
                        n
                    };
                    (
                        RtpBufView {
                            packets: self.packets.skip(1),
                            current: if end == p.len() {
                                None
                            } else {
                                Some((p, end))
                            },
                            ..self
                        },
                        ReadReplyView::Data(p.take(end)),
                    )
                },
            }
        }
    }
}

/// The contents of a queue of buffers.
spec fn queue_view(q: Seq<Bytes>) -> Seq<Seq<u8>> {
    Seq::new(q.len(), |i: int| bytes_of(q[i]))
}

impl View for RtpBuf {
    type V = RtpBufView;

    closed spec fn view(&self) -> RtpBufView {
        RtpBufView {
            packets: queue_view(self.packets@),
            current: match self.current {
                Some((b, offset)) => Some((bytes_of(b), offset as int)),
                None => None,
            },
            max_bytes: self.max_bytes as int,
            probation_satisfied: self.probation_satisfied,
        }
    }
}

impl RtpBuf {
    /// Whether the offset lies within the packet being read.
    pub open spec fn wf(self) -> bool {
        self@.current matches Some((p, offset)) ==> 0 <= offset <= p.len()
    }

    /// An empty buffer with the default cap.
    pub fn new() -> (r: Self)
        ensures
            r.wf(),
            r@ == (RtpBufView {
                packets: Seq::empty(),
                current: None,
                max_bytes: 1_048_576,
                probation_satisfied: false,
            }),
    {
        let r = RtpBuf {
            packets: VecDeque::new(),
            current: None,
            max_bytes: RTP_QUEUE_MAX_BYTES,
            probation_satisfied: false,
        };
        assert(r@.packets =~= Seq::empty());
        r
    }

    /// Whether no packet waits.
    pub fn is_empty(&self) -> (r: bool)
        ensures
            r == (self@.packets.len() == 0),
    {
        self.packets.len() == 0
    }

    /// Whether `incoming` more bytes fit under the cap.
    fn has_room(&self, incoming: usize) -> (r: bool)
        ensures
            r == (self@.total() + incoming <= self@.max_bytes),
    {
        let held: usize = match &self.current {
            Some((b, _)) => b.len(),
            None => 0,
        };
        if incoming > self.max_bytes {
            proof {
                lemma_total_nonneg(self@.packets);
            }
            return false;
        }
        let mut room: usize = self.max_bytes - incoming;
        if held > room {
            proof {
                lemma_total_nonneg(self@.packets);
            }
            return false;
        }
        room = room - held;
        let mut i: usize = 0;
        assert(self@.packets.skip(0) =~= self@.packets);
        while i < self.packets.len()
            invariant
                i <= self.packets@.len(),
                self@.total() + incoming - self@.max_bytes == total_len(self@.packets.skip(i as int))
                    - room,
            decreases self.packets@.len() - i,
        {
            let n: usize = self.packets[i].len();
            proof {
                assert(self@.packets[i as int].len() == n);
                assert(self@.packets.skip(i as int).skip(1) =~= self@.packets.skip(i + 1));
                lemma_total_nonneg(self@.packets.skip(i + 1));
            }
            if n > room {
                return false;
            }
            room = room - n;
            i = i + 1;
        }
        true
    }

    /// Queues a packet.
    ///
    /// The demuxer drops packets until two came in sequence, so the first packet
    /// is doubled when the second arrives behind it. The oldest packets leave
    /// while the cap would be exceeded.
    pub fn feed(&mut self, data: &[u8])
        requires
            old(self).wf(),
        ensures
            final(self).wf(),
            final(self)@ == old(self)@.fed(data@),
    {
        if !self.probation_satisfied && self.packets.len() > 0 {
            let first: Bytes = self.packets[0].clone();
            self.packets.push_front(first);
            self.probation_satisfied = true;
        }
        assert(self@.packets =~= old(self)@.after_probation());
        while !self.has_room(data.len()) && self.packets.len() > 0
            invariant
                self@.current == old(self)@.current,
                self@.max_bytes == old(self)@.max_bytes,
                self@.probation_satisfied == (old(self)@.probation_satisfied
                    || old(self)@.packets.len() > 0),
                evicted(self@.packets, self@.held(), data@.len() as int, self@.max_bytes) == evicted(
                    old(self)@.after_probation(),
                    old(self)@.held(),
                    data@.len() as int,
                    old(self)@.max_bytes,
                ),
            decreases self@.packets.len(),
        {
            let ghost before = self@;
            let _ = self.packets.pop_front();
            assert(self@.packets =~= before.packets.skip(1));
        }
        self.packets.push_back(Bytes::copy_from_slice(data));
        assert(self@ =~= old(self)@.fed(data@));
    }

    /// Reads at most `buf_size` bytes, never across a packet boundary.
    pub fn read(&mut self, buf_size: i32) -> (r: ReadReply)
        requires
            old(self).wf(),
        ensures
            final(self).wf(),
            (final(self)@, r@) == old(self)@.read(buf_size as int),
    {
        if buf_size <= 0 {
            return ReadReply::Invalid;
        }
        let want: usize = buf_size as usize;
        let begun = self.current.take();
        if let Some((pkt, offset)) = begun {
            let s: &[u8] = bytes_as_slice(&pkt);
            let end: usize = if s.len() - offset <= want {
                s.len()
            } else {
                offset + want
            };
            let out: Vec<u8> = slice_to_vec(slice_subrange(s, offset, end));
            if end < s.len() {
                self.current = Some((pkt, end));
            }
            assert(self@ =~= old(self)@.read(buf_size as int).0);
            return ReadReply::Data(out);
        }
        let ghost before = self@;
        match self.packets.pop_front() {
            Some(pkt) => {
                let s: &[u8] = bytes_as_slice(&pkt);
                let end: usize = if s.len() <= want {
                    s.len()
                } else {
                    want
                };
                let out: Vec<u8> = slice_to_vec(slice_subrange(s, 0, end));
                if end < s.len() {
                    self.current = Some((pkt, end));
                }
                assert(self@.packets =~= before.packets.skip(1));
                assert(out@ =~= before.packets[0].take(end as int));
                assert(self@ =~= old(self)@.read(buf_size as int).0);
                ReadReply::Data(out)
            },
            None => {
                assert(self@ =~= old(self)@);
                ReadReply::Again
            },
        }
    }
}

/// The bytes of a run of packets are not negative in number.
pub proof fn lemma_total_nonneg(packets: Seq<Seq<u8>>)
    ensures
        total_len(packets) >= 0,
    decreases packets.len(),
{
    if packets.len() > 0 {
        lemma_total_nonneg(packets.skip(1));
    }
}

proof fn lemma_total_push(packets: Seq<Seq<u8>>, p: Seq<u8>)
    ensures
        total_len(packets.push(p)) == total_len(packets) + p.len(),
    decreases packets.len(),
{
    reveal_with_fuel(total_len, 2);
    if packets.len() == 0 {
        assert(packets.push(p).skip(1) =~= Seq::empty());
    } else {
        lemma_total_push(packets.skip(1), p);
        assert(packets.push(p).skip(1) =~= packets.skip(1).push(p));
        assert(packets.push(p)[0] == packets[0]);
    }
}

proof fn lemma_evicted(packets: Seq<Seq<u8>>, held: int, incoming: int, max_bytes: int)
    ensures
        exists|k: int|
            0 <= k <= packets.len() && evicted(packets, held, incoming, max_bytes)
                == #[trigger] packets.skip(k),
        evicted(packets, held, incoming, max_bytes).len() == 0 || total_len(
            evicted(packets, held, incoming, max_bytes),
        ) + held + incoming <= max_bytes,
    decreases packets.len(),
{
    if packets.len() == 0 || total_len(packets) + held + incoming <= max_bytes {
        assert(packets.skip(0) =~= packets);
    } else {
        let tail = packets.skip(1);
        lemma_evicted(tail, held, incoming, max_bytes);
        let k = choose|k: int|
            0 <= k <= tail.len() && evicted(tail, held, incoming, max_bytes)
                == #[trigger] tail.skip(k);
        assert(tail.skip(k) =~= packets.skip(k + 1));
    }
}

/// The cap holds after every feed of a packet that can fit at all beside the one
/// being read.
pub proof fn law_feed_keeps_cap(b: RtpBufView, data: Seq<u8>)
    requires
        b.held() + data.len() <= b.max_bytes,
    ensures
        b.fed(data).total() <= b.max_bytes,
{
    let kept = evicted(b.after_probation(), b.held(), data.len() as int, b.max_bytes);
    lemma_evicted(b.after_probation(), b.held(), data.len() as int, b.max_bytes);
    lemma_total_push(kept, data);
}

/// Feeding is first in, first out: the packet fed is the last of the queue, and
/// what stands before it are the newest of the packets that waited, in order.
pub proof fn law_feed_is_fifo(b: RtpBufView, data: Seq<u8>)
    ensures
        b.fed(data).packets.last() == data,
        exists|k: int|
            0 <= k <= b.after_probation().len() && b.fed(data).packets.drop_last()
                == #[trigger] b.after_probation().skip(k),
        b.fed(data).current == b.current,
{
    lemma_evicted(b.after_probation(), b.held(), data.len() as int, b.max_bytes);
    let kept = evicted(b.after_probation(), b.held(), data.len() as int, b.max_bytes);
    assert(b.fed(data).packets.drop_last() =~= kept);
}

/// Reading loses nothing and invents nothing: what a read returns and what is
/// left after it make up what was there.
pub proof fn law_read_is_lossless(b: RtpBufView, n: int)
    requires
        b.current matches Some((p, offset)) ==> 0 <= offset <= p.len(),
    ensures
        match b.read(n).1 {
            ReadReplyView::Data(out) => out + b.read(n).0.remaining() == b.remaining(),
            _ => b.read(n).0 == b,
        },
{
    if n > 0 {
        match b.current {
            Some((p, offset)) => {
                let end = if p.len() - offset <= n {
                    p.len() as int
                } else {
                    offset + n
                };
                assert(p.subrange(offset, end) + b.read(n).0.remaining() =~= b.remaining());
            },
            None => {
                if b.packets.len() > 0 {
                    let p = b.packets[0];
                    let end = if p.len() <= n {
                        p.len() as int
                    } else {
                        n
                    };
                    assert(p.take(end) + b.read(n).0.remaining() =~= b.remaining());
                }
            },
        }
    }
}

/// A session description being read.
#[derive(Debug)]
pub struct SdpState {
    data: Vec<u8>,
    pos: usize,
}

impl SdpState {
    /// The whole description.
    pub closed spec fn text(&self) -> Seq<u8> {
        self.data@
    }

    /// How much of it has been read.
    pub closed spec fn position(&self) -> int {
        self.pos as int
    }

    /// Whether the position lies within the description.
    pub open spec fn wf(self) -> bool {
        0 <= self.position() <= self.text().len()
    }

    /// Starts reading a description.
    pub fn new(sdp: &str) -> (r: Self)
        ensures
            r.wf(),
            r.text() == sdp.spec_bytes(),
            r.position() == 0,
    {
        SdpState { data: slice_to_vec(sdp.as_bytes()), pos: 0 }
    }

    /// Reads at most `buf_size` bytes; an empty reply is the end.
    pub fn read(&mut self, buf_size: i32) -> (r: ReadReply)
        requires
            old(self).wf(),
        ensures
            final(self).wf(),
            final(self).text() == old(self).text(),
            if buf_size <= 0 {
                r@ == ReadReplyView::Invalid && final(self).position() == old(self).position()
            } else {
                &&& final(self).position() == (if old(self).text().len() - old(self).position()
                    <= buf_size {
                    old(self).text().len() as int
                } else {
                    old(self).position() + buf_size
                })
                &&& r@ == ReadReplyView::Data(
                    old(self).text().subrange(old(self).position(), final(self).position()),
                )
            },
    {
        if buf_size <= 0 {
            return ReadReply::Invalid;
        }
        let want: usize = buf_size as usize;
        let end: usize = if self.data.len() - self.pos <= want {
            self.data.len()
        } else {
            self.pos + want
        };
        let out: Vec<u8> = slice_to_vec(slice_subrange(self.data.as_slice(), self.pos, end));
        self.pos = end;
        ReadReply::Data(out)
    }
}

/// The bytes of a run of packets are those of the packets joined.
pub proof fn law_total_is_joined_length(packets: Seq<Seq<u8>>)
    ensures
        total_len(packets) == concat(packets).len(),
    decreases packets.len(),
{
    if packets.len() > 0 {
        law_total_is_joined_length(packets.skip(1));
    }
}

/// While there is room nothing leaves: a packet fed is put behind those that wait. The
/// first time one waits, it is doubled, and never again.
pub proof fn law_feed_keeps_what_fits(b: RtpBufView, data: Seq<u8>)
    requires
        2 * concat(b.packets).len() + b.held() + data.len() <= b.max_bytes,
    ensures
        b.probation_satisfied || b.packets.len() == 0 ==> b.fed(data).packets == b.packets.push(
            data,
        ),
        !b.probation_satisfied && b.packets.len() > 0 ==> b.fed(data).packets == (seq![b.packets[0]]
            + b.packets).push(data),
        b.fed(data).probation_satisfied <==> b.probation_satisfied || b.packets.len() > 0,
        b.fed(data).max_bytes == b.max_bytes,
{
    law_total_is_joined_length(b.packets);
    let doubled = seq![b.packets[0]] + b.packets;
    assert(doubled.skip(1) =~= b.packets);
    if b.packets.len() > 0 {
        law_total_is_joined_length(b.packets.skip(1));
    }
}

/// Packets leave only where they must, the oldest first: had one fewer left, the cap
/// would be exceeded.
pub proof fn law_feed_drops_no_more_than_needed(
    packets: Seq<Seq<u8>>,
    held: int,
    incoming: int,
    max_bytes: int,
)
    ensures
        exists|k: int|
            0 <= k <= packets.len() && evicted(packets, held, incoming, max_bytes)
                == #[trigger] packets.skip(k) && (k > 0 ==> concat(packets.skip(k - 1)).len() + held
                + incoming > max_bytes) && (k < packets.len() ==> concat(packets.skip(k)).len()
                + held + incoming <= max_bytes),
    decreases packets.len(),
{
    law_total_is_joined_length(packets);
    if packets.len() == 0 || total_len(packets) + held + incoming <= max_bytes {
        assert(packets.skip(0) =~= packets);
    } else {
        let tail = packets.skip(1);
        law_feed_drops_no_more_than_needed(tail, held, incoming, max_bytes);
        let k = choose|k: int|
            0 <= k <= tail.len() && evicted(tail, held, incoming, max_bytes)
                == #[trigger] tail.skip(k) && (k > 0 ==> concat(tail.skip(k - 1)).len() + held
                + incoming > max_bytes) && (k < tail.len() ==> concat(tail.skip(k)).len() + held
                + incoming <= max_bytes);
        assert(tail.skip(k) =~= packets.skip(k + 1));
        if k > 0 {
            assert(tail.skip(k - 1) =~= packets.skip(k));
        } else {
            assert(packets.skip(0) =~= packets);
        }
    }
}

/// A read takes as much as is asked for of one packet, the one begun or else the next,
/// and never crosses into another. It has nothing only where nothing waits.
pub proof fn law_read_stays_within_a_packet(b: RtpBufView, n: int)
    requires
        b.current matches Some((p, offset)) ==> 0 <= offset <= p.len(),
    ensures
        n <= 0 <==> b.read(n).1 == ReadReplyView::Invalid,
        n > 0 && b.current is None && b.packets.len() == 0 <==> b.read(n).1
            == ReadReplyView::Again,
        n > 0 ==> (b.current matches Some((p, offset)) ==> {
            let taken = if n < p.len() - offset {
                n
            } else {
                p.len() - offset
            };
            let (after, reply) = b.read(n);
            &&& reply == ReadReplyView::Data(p.subrange(offset, offset + taken))
            &&& after.packets == b.packets
            &&& offset + taken < p.len() ==> after.current == Some((p, offset + taken))
            &&& offset + taken == p.len() ==> after.current is None
        }),
        n > 0 && b.current is None && b.packets.len() > 0 ==> {
            let p = b.packets[0];
            let taken = if n < p.len() {
                n
            } else {
                p.len() as int
            };
            let (after, reply) = b.read(n);
            &&& reply == ReadReplyView::Data(p.take(taken))
            &&& after.packets == b.packets.skip(1)
            &&& taken < p.len() ==> after.current == Some((p, taken))
            &&& taken == p.len() ==> after.current is None
        },
        b.read(n).0.max_bytes == b.max_bytes,
        b.read(n).0.probation_satisfied == b.probation_satisfied,
{
}

/// The bytes counted against the cap are those of the packets that wait and of the
/// whole packet being read, whatever of it was read.
pub proof fn law_bytes_counted(b: RtpBufView)
    ensures
        b.current is None ==> b.total() == concat(b.packets).len(),
        b.current matches Some((p, _)) ==> b.total() == concat(b.packets.push(p)).len(),
{
    law_total_is_joined_length(b.packets);
    if let Some((p, _)) = b.current {
        lemma_total_push(b.packets, p);
        law_total_is_joined_length(b.packets.push(p));
    }
}

} // verus!
