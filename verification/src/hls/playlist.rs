//! Live playlist: a window over the newest segments.
use crate::config::SegmentConfig;
use crate::text::{
    decimal, decimal_padded, is_digits, is_line, law_decimal_reads_back,
    law_padded_decimal_reads_back, lemma_first_line, lines_of, number_of, push_decimal,
    push_decimal_padded,
};
use std::collections::VecDeque;
use vstd::prelude::*;

verus! {

/// A segment in the playlist.
#[derive(Clone, Debug)]
pub struct PlaylistEntry {
    pub filename: String,
    pub duration_ms: u64,
}

/// `PlaylistEntry` with its name as a sequence.
pub struct EntryView {
    pub filename: Seq<char>,
    pub duration_ms: nat,
}

impl View for PlaylistEntry {
    type V = EntryView;

    open spec fn view(&self) -> EntryView {
        EntryView { filename: self.filename@, duration_ms: self.duration_ms as nat }
    }
}

/// The playlist of a stream.
#[derive(Debug)]
pub struct PlaylistState {
    /// Most segments that are listed (0 = unlimited).
    playlist_size: usize,
    entries: VecDeque<PlaylistEntry>,
    /// Sequence number of the first listed segment.
    media_sequence: u64,
}

/// The contents of a playlist.
#[verifier::ext_equal]
pub struct PlaylistView {
    pub size: nat,
    pub entries: Seq<EntryView>,
    pub media_sequence: nat,
}

/// Seconds of a duration, rounded up.
pub open spec fn ceil_secs(ms: nat) -> nat {
    (ms + 999) / 1000
}

/// The longest of a run of segments, in seconds rounded up.
pub open spec fn longest_secs(entries: Seq<EntryView>) -> nat
    decreases entries.len(),
{
    if entries.len() == 0 {
        0
    } else {
        let before = longest_secs(entries.drop_last());
        let last = ceil_secs(entries.last().duration_ms);
        if last > before {
            last
        } else {
            before
        }
    }
}

/// The lines of one segment: its duration in seconds with three decimals, and
/// its name.
pub open spec fn entry_text(e: EntryView) -> Seq<char> {
    "#EXTINF:"@ + decimal(e.duration_ms / 1000) + "."@ + decimal_padded(e.duration_ms % 1000, 3)
        + ",\n"@ + e.filename + "\n"@
}

/// The lines of a run of segments.
pub open spec fn entries_text(entries: Seq<EntryView>) -> Seq<char>
    decreases entries.len(),
{
    if entries.len() == 0 {
        Seq::empty()
    } else {
        entries_text(entries.drop_last()) + entry_text(entries.last())
    }
}

impl PlaylistView {
    /// Whether the listed segments fit the window.
    pub open spec fn wf(self) -> bool {
        self.size == 0 || self.entries.len() <= self.size
    }

    /// The playlist after a segment was added: in a full window the oldest one
    /// leaves, and the media sequence moves on.
    pub open spec fn pushed(self, e: EntryView) -> PlaylistView {
        if self.size > 0 && self.entries.len() >= self.size {
            PlaylistView {
                entries: self.entries.skip(1).push(e),
                media_sequence: self.media_sequence + 1,
                ..self
            }
        } else {
            PlaylistView { entries: self.entries.push(e), ..self }
        }
    }

    /// The target duration: the longest listed segment, or 1 without any.
    pub open spec fn target_duration(self) -> nat {
        if self.entries.len() == 0 {
            1
        } else {
            longest_secs(self.entries)
        }
    }

    /// The playlist as text.
    pub open spec fn text(self, is_final: bool) -> Seq<char> {
        "#EXTM3U\n"@ + "#EXT-X-VERSION:3\n"@ + "#EXT-X-TARGETDURATION:"@ + decimal(
            self.target_duration(),
        ) + "\n"@ + "#EXT-X-MEDIA-SEQUENCE:"@ + decimal(self.media_sequence) + "\n"@ + entries_text(
            self.entries,
        ) + (if is_final {
            "#EXT-X-ENDLIST\n"@
        } else {
            Seq::empty()
        })
    }
}

impl View for PlaylistState {
    type V = PlaylistView;

    closed spec fn view(&self) -> PlaylistView {
        PlaylistView {
            size: self.playlist_size as nat,
            entries: Seq::new(self.entries@.len(), |i: int| self.entries@[i]@),
            media_sequence: self.media_sequence as nat,
        }
    }
}

impl PlaylistState {
    /// An empty playlist with the configured window.
    pub fn new(cfg: &SegmentConfig) -> (r: Self)
        ensures
            r@.wf(),
            r@ == (PlaylistView {
                size: cfg.playlist_size as nat,
                entries: Seq::empty(),
                media_sequence: 0,
            }),
    {
        let r = PlaylistState {
            playlist_size: cfg.playlist_size,
            entries: VecDeque::new(),
            media_sequence: 0,
        };
        assert(r@.entries =~= Seq::empty());
        r
    }

    /// Adds a segment.
    pub fn push_segment(&mut self, filename: &str, duration_ms: u64)
        requires
            old(self)@.wf(),
            old(self)@.media_sequence < u64::MAX,
        ensures
            final(self)@.wf(),
            final(self)@ == old(self)@.pushed(
                EntryView { filename: filename@, duration_ms: duration_ms as nat },
            ),
    {
        if self.playlist_size > 0 && self.entries.len() >= self.playlist_size {
            let _ = self.entries.pop_front();
            self.media_sequence = self.media_sequence + 1;
            assert(self@.entries =~= old(self)@.entries.skip(1));
        }
        let ghost mid = self@.entries;
        self.entries.push_back(PlaylistEntry { filename: filename.to_owned(), duration_ms });
        assert(self@.entries =~= mid.push(
            EntryView { filename: filename@, duration_ms: duration_ms as nat },
        ));
    }

    /// The longest listed segment, in seconds rounded up; 1 without any.
    fn target_duration(&self) -> (r: u64)
        ensures
            r == self@.target_duration(),
    {
        if self.entries.len() == 0 {
            return 1;
        }
        let mut longest: u64 = 0;
        let mut i: usize = 0;
        assert(self@.entries.take(0) =~= Seq::empty());
        while i < self.entries.len()
            invariant
                i <= self.entries@.len(),
                longest == longest_secs(self@.entries.take(i as int)),
            decreases self.entries@.len() - i,
        {
            let ms: u64 = self.entries[i].duration_ms;
            let secs: u64 = if ms % 1000 == 0 {
                ms / 1000
            } else {
                ms / 1000 + 1
            };
            proof {
                assert(self@.entries[i as int].duration_ms == ms);
                assert(secs == ceil_secs(ms as nat));
                assert(self@.entries.take(i + 1).drop_last() =~= self@.entries.take(i as int));
                assert(self@.entries.take(i + 1).last() == self@.entries[i as int]);
            }
            if secs > longest {
                longest = secs;
            }
            i = i + 1;
        }
        assert(self@.entries.take(i as int) =~= self@.entries);
        longest
    }

    /// The playlist as text; a final playlist is closed by an end marker.
    pub fn render(&self, is_final: bool) -> (r: String)
        ensures
            r@ == self@.text(is_final),
    {
        let target: u64 = self.target_duration();
        let mut out: String = String::new();
        out.push_str("#EXTM3U\n");
        out.push_str("#EXT-X-VERSION:3\n");
        out.push_str("#EXT-X-TARGETDURATION:");
        push_decimal(&mut out, target);
        out.push_str("\n");
        out.push_str("#EXT-X-MEDIA-SEQUENCE:");
        push_decimal(&mut out, self.media_sequence);
        out.push_str("\n");
        let ghost head = out@;
        assert(head =~= "#EXTM3U\n"@ + "#EXT-X-VERSION:3\n"@ + "#EXT-X-TARGETDURATION:"@ + decimal(
            self@.target_duration(),
        ) + "\n"@ + "#EXT-X-MEDIA-SEQUENCE:"@ + decimal(self@.media_sequence) + "\n"@);
        let mut i: usize = 0;
        assert(self@.entries.take(0) =~= Seq::empty());
        assert(head + entries_text(self@.entries.take(0)) =~= head);
        while i < self.entries.len()
            invariant
                i <= self.entries@.len(),
                out@ == head + entries_text(self@.entries.take(i as int)),
            decreases self.entries@.len() - i,
        {
            let entry: &PlaylistEntry = &self.entries[i];
            let ghost before = out@;
            out.push_str("#EXTINF:");
            push_decimal(&mut out, entry.duration_ms / 1000);
            out.push_str(".");
            push_decimal_padded(&mut out, entry.duration_ms % 1000, 3);
            out.push_str(",\n");
            out.push_str(entry.filename.as_str());
            out.push_str("\n");
            proof {
                let e = self@.entries[i as int];
                assert(e == entry@);
                assert(out@ =~= before + entry_text(e));
                assert(self@.entries.take(i + 1).drop_last() =~= self@.entries.take(i as int));
                assert(self@.entries.take(i + 1).last() == e);
                assert(out@ =~= head + entries_text(self@.entries.take(i + 1)));
            }
            i = i + 1;
        }
        assert(self@.entries.take(i as int) =~= self@.entries);
        if is_final {
            out.push_str("#EXT-X-ENDLIST\n");
        }
        assert(out@ =~= self@.text(is_final));
        out
    }
}

/// The playlist after a run of segments.
pub open spec fn pushed_all(p: PlaylistView, segments: Seq<EntryView>) -> PlaylistView
    decreases segments.len(),
{
    if segments.len() == 0 {
        p
    } else {
        pushed_all(p, segments.drop_last()).pushed(segments.last())
    }
}

/// The window over a stream: after any run of segments on an empty playlist, the
/// playlist lists the newest of them in order, as many as the window holds (all
/// of them where it is unlimited), and the media sequence is the number of those
/// that left.
pub proof fn law_playlist_lists_newest(size: nat, segments: Seq<EntryView>)
    ensures
        ({
            let empty = PlaylistView { size, entries: Seq::empty(), media_sequence: 0 };
            let p = pushed_all(empty, segments);
            let gone = if size == 0 || segments.len() <= size {
                0
            } else {
                segments.len() - size
            };
            &&& p.wf()
            &&& p.size == size
            &&& p.media_sequence == gone
            &&& p.entries == segments.skip(gone)
        }),
    decreases segments.len(),
{
    let empty = PlaylistView { size, entries: Seq::empty(), media_sequence: 0 };
    if segments.len() == 0 {
        assert(segments.skip(0) =~= Seq::empty());
    } else {
        let front = segments.drop_last();
        law_playlist_lists_newest(size, front);
        let q = pushed_all(empty, front);
        let p = pushed_all(empty, segments);
        let gone = if size == 0 || segments.len() <= size {
            0
        } else {
            segments.len() - size
        };
        if size > 0 && front.len() >= size {
            assert(q.entries.skip(1).push(segments.last()) =~= segments.skip(gone));
        } else {
            assert(q.entries.push(segments.last()) =~= segments.skip(gone));
        }
    }
}

proof fn lemma_longest_is_bound(entries: Seq<EntryView>, i: int)
    requires
        0 <= i < entries.len(),
    ensures
        ceil_secs(entries[i].duration_ms) <= longest_secs(entries),
    decreases entries.len(),
{
    if i < entries.len() - 1 {
        lemma_longest_is_bound(entries.drop_last(), i);
    }
}

/// No listed segment is longer than the target duration.
pub proof fn law_target_duration_bounds_segments(p: PlaylistView, i: int)
    requires
        0 <= i < p.entries.len(),
    ensures
        p.entries[i].duration_ms <= 1000 * p.target_duration(),
{
    lemma_longest_is_bound(p.entries, i);
}

/// The two lines of a segment.
spec fn entry_lines(e: EntryView) -> Seq<Seq<char>> {
    seq![
        "#EXTINF:"@ + decimal(e.duration_ms / 1000) + "."@ + decimal_padded(e.duration_ms % 1000, 3)
            + ","@,
        e.filename,
    ]
}

/// The lines of a run of segments.
spec fn all_entry_lines(entries: Seq<EntryView>) -> Seq<Seq<char>>
    decreases entries.len(),
{
    if entries.len() == 0 {
        Seq::empty()
    } else {
        all_entry_lines(entries.drop_last()) + entry_lines(entries.last())
    }
}

proof fn lemma_entry_lines(e: EntryView, rest: Seq<char>)
    requires
        is_line(e.filename),
    ensures
        lines_of(entry_text(e) + rest) == entry_lines(e) + lines_of(rest),
{
    reveal_strlit("#EXTINF:");
    reveal_strlit(".");
    reveal_strlit(",");
    reveal_strlit(",\n");
    reveal_strlit("\n");
    law_decimal_reads_back(e.duration_ms / 1000);
    law_padded_decimal_reads_back(e.duration_ms % 1000, 3);
    let first = entry_lines(e)[0];
    assert(is_line(first)) by {
        assert forall|i: int| 0 <= i < first.len() implies #[trigger] first[i] != '\n' by {
            let secs = decimal(e.duration_ms / 1000);
            let millis = decimal_padded(e.duration_ms % 1000, 3);
            if 8 <= i < 8 + secs.len() {
                assert(first[i] == secs[i - 8]);
            } else if 9 + secs.len() <= i < 9 + secs.len() + millis.len() {
                assert(first[i] == millis[i - 9 - secs.len()]);
            }
        }
    }
    let tail = e.filename + seq!['\n'] + rest;
    assert(entry_text(e) + rest =~= first + seq!['\n'] + tail);
    lemma_first_line(first, tail);
    lemma_first_line(e.filename, rest);
    assert(seq![first] + (seq![e.filename] + lines_of(rest)) =~= entry_lines(e) + lines_of(rest));
}

proof fn lemma_all_entry_lines(entries: Seq<EntryView>, rest: Seq<char>)
    requires
        forall|i: int| 0 <= i < entries.len() ==> is_line(#[trigger] entries[i].filename),
    ensures
        lines_of(entries_text(entries) + rest) == all_entry_lines(entries) + lines_of(rest),
    decreases entries.len(),
{
    if entries.len() == 0 {
        assert(entries_text(entries) + rest =~= rest);
        assert(all_entry_lines(entries) + lines_of(rest) =~= lines_of(rest));
    } else {
        let front = entries.drop_last();
        assert forall|i: int| 0 <= i < front.len() implies is_line(
            #[trigger] front[i].filename,
        ) by {
            assert(front[i] == entries[i]);
        }
        let last = entries.last();
        assert(is_line(entries[entries.len() - 1].filename));
        lemma_all_entry_lines(front, entry_text(last) + rest);
        lemma_entry_lines(last, rest);
        assert(entries_text(entries) + rest =~= entries_text(front) + (entry_text(last) + rest));
        assert(all_entry_lines(front) + (entry_lines(last) + lines_of(rest)) =~= all_entry_lines(
            entries,
        ) + lines_of(rest));
    }
}

proof fn lemma_entry_line_at(entries: Seq<EntryView>, i: int)
    requires
        0 <= i < entries.len(),
    ensures
        all_entry_lines(entries).len() == 2 * entries.len(),
        all_entry_lines(entries)[2 * i] == entry_lines(entries[i])[0],
        all_entry_lines(entries)[2 * i + 1] == entries[i].filename,
    decreases entries.len(),
{
    reveal_with_fuel(all_entry_lines, 2);
    let front = entries.drop_last();
    if front.len() > 0 {
        lemma_entry_line_at(
            front,
            if i < front.len() {
                i
            } else {
                0
            },
        );
    }
}

/// The duration that a line of the playlist gives, in milliseconds: whole seconds, a
/// point, three digits and a comma behind the line's name.
pub open spec fn line_millis(line: Seq<char>) -> nat {
    let secs = line.subrange(8, line.len() - 5);
    let millis = line.subrange(line.len() - 4, line.len() - 1);
    number_of(secs) * 1000 + number_of(millis)
}

proof fn lemma_entry_line_reads_back(e: EntryView)
    ensures
        ({
            let line = entry_lines(e)[0];
            &&& line.len() >= 14
            &&& line.take(8) == "#EXTINF:"@
            &&& line[line.len() - 5] == '.'
            &&& line.last() == ','
            &&& is_digits(line.subrange(8, line.len() - 5))
            &&& is_digits(line.subrange(line.len() - 4, line.len() - 1))
            &&& line_millis(line) == e.duration_ms
        }),
{
    reveal_strlit("#EXTINF:");
    reveal_strlit(".");
    reveal_strlit(",");
    let secs = decimal(e.duration_ms / 1000);
    let millis = decimal_padded(e.duration_ms % 1000, 3);
    law_decimal_reads_back(e.duration_ms / 1000);
    assert(vstd::arithmetic::power::pow(10, 3) == 1000) by {
        reveal_with_fuel(vstd::arithmetic::power::pow, 5);
    }
    law_padded_decimal_reads_back(e.duration_ms % 1000, 3);
    let line = entry_lines(e)[0];
    assert(line.subrange(8, line.len() - 5) =~= secs);
    assert(line.subrange(line.len() - 4, line.len() - 1) =~= millis);
    assert(line.take(8) =~= "#EXTINF:"@);
}

proof fn lemma_longest_is_reached(entries: Seq<EntryView>)
    requires
        entries.len() > 0,
    ensures
        longest_secs(entries) > 0 ==> exists|i: int|
            0 <= i < entries.len() && (#[trigger] entries[i]).duration_ms > 1000 * (longest_secs(
                entries,
            ) - 1),
    decreases entries.len(),
{
    reveal_with_fuel(longest_secs, 2);
    let last = entries[entries.len() - 1];
    if longest_secs(entries) > 0 && !(last.duration_ms > 1000 * (longest_secs(entries) - 1)) {
        let front = entries.drop_last();
        assert(front.len() > 0);
        lemma_longest_is_reached(front);
        let i = choose|i: int|
            0 <= i < front.len() && (#[trigger] front[i]).duration_ms > 1000 * (longest_secs(front)
                - 1);
        assert(entries[i] == front[i]);
    }
}

/// The lines of a playlist.
spec fn playlist_lines(p: PlaylistView, is_final: bool) -> Seq<Seq<char>> {
    seq![
        "#EXTM3U"@,
        "#EXT-X-VERSION:3"@,
        "#EXT-X-TARGETDURATION:"@ + decimal(p.target_duration()),
        "#EXT-X-MEDIA-SEQUENCE:"@ + decimal(p.media_sequence),
    ] + all_entry_lines(p.entries) + if is_final {
        seq!["#EXT-X-ENDLIST"@]
    } else {
        Seq::empty()
    }
}

proof fn lemma_number_line(name: Seq<char>, n: nat)
    requires
        is_line(name),
    ensures
        is_line(name + decimal(n)),
        (name + decimal(n)).len() > name.len(),
        (name + decimal(n)).take(name.len() as int) == name,
        (name + decimal(n)).skip(name.len() as int) == decimal(n),
        number_of(decimal(n)) == n,
        is_digits(decimal(n)),
{
    law_decimal_reads_back(n);
    let line = name + decimal(n);
    assert forall|i: int| 0 <= i < line.len() implies #[trigger] line[i] != '\n' by {
        if i >= name.len() {
            assert(line[i] == decimal(n)[i - name.len()]);
        } else {
            assert(line[i] == name[i]);
        }
    }
    assert(line.take(name.len() as int) =~= name);
    assert(line.skip(name.len() as int) =~= decimal(n));
}

/// Texts joined from the left are the same joined line by line.
proof fn lemma_regroup(
    l1: Seq<char>,
    l2: Seq<char>,
    k3: Seq<char>,
    v3: Seq<char>,
    k4: Seq<char>,
    v4: Seq<char>,
    feed: Seq<char>,
    body: Seq<char>,
    end: Seq<char>,
)
    ensures
        (l1 + feed) + (l2 + feed) + k3 + v3 + feed + k4 + v4 + feed + body + end == l1 + feed + (l2
            + feed + ((k3 + v3) + feed + ((k4 + v4) + feed + (body + end)))),
{
    assert((l1 + feed) + (l2 + feed) + k3 + v3 + feed + k4 + v4 + feed + body + end =~= l1 + feed
        + (l2 + feed + ((k3 + v3) + feed + ((k4 + v4) + feed + (body + end)))));
}

proof fn lemma_playlist_lines(p: PlaylistView, is_final: bool)
    requires
        forall|i: int| 0 <= i < p.entries.len() ==> is_line(#[trigger] p.entries[i].filename),
    ensures
        lines_of(p.text(is_final)) == playlist_lines(p, is_final),
{
    let feed = seq!['\n'];
    assert("#EXTM3U\n"@ == "#EXTM3U"@ + feed && is_line("#EXTM3U"@)) by {
        reveal_strlit("#EXTM3U\n");
        reveal_strlit("#EXTM3U");
        assert("#EXTM3U\n"@ =~= "#EXTM3U"@ + feed);
    }
    assert("#EXT-X-VERSION:3\n"@ == "#EXT-X-VERSION:3"@ + feed && is_line("#EXT-X-VERSION:3"@)) by {
        reveal_strlit("#EXT-X-VERSION:3\n");
        reveal_strlit("#EXT-X-VERSION:3");
        assert("#EXT-X-VERSION:3\n"@ =~= "#EXT-X-VERSION:3"@ + feed);
    }
    assert("#EXT-X-ENDLIST\n"@ == "#EXT-X-ENDLIST"@ + feed && is_line("#EXT-X-ENDLIST"@)) by {
        reveal_strlit("#EXT-X-ENDLIST\n");
        reveal_strlit("#EXT-X-ENDLIST");
        assert("#EXT-X-ENDLIST\n"@ =~= "#EXT-X-ENDLIST"@ + feed);
    }
    assert("\n"@ == feed) by {
        reveal_strlit("\n");
        assert("\n"@ =~= feed);
    }
    assert(is_line("#EXT-X-TARGETDURATION:"@)) by {
        reveal_strlit("#EXT-X-TARGETDURATION:");
    }
    assert(is_line("#EXT-X-MEDIA-SEQUENCE:"@)) by {
        reveal_strlit("#EXT-X-MEDIA-SEQUENCE:");
    }
    let end = if is_final {
        "#EXT-X-ENDLIST\n"@
    } else {
        Seq::empty()
    };
    let body = entries_text(p.entries) + end;
    lemma_number_line("#EXT-X-TARGETDURATION:"@, p.target_duration());
    lemma_number_line("#EXT-X-MEDIA-SEQUENCE:"@, p.media_sequence);
    let target_line = "#EXT-X-TARGETDURATION:"@ + decimal(p.target_duration());
    let first_line = "#EXT-X-MEDIA-SEQUENCE:"@ + decimal(p.media_sequence);
    let rest3 = first_line + feed + body;
    let rest2 = target_line + feed + rest3;
    let rest1 = "#EXT-X-VERSION:3"@ + feed + rest2;
    lemma_regroup(
        "#EXTM3U"@,
        "#EXT-X-VERSION:3"@,
        "#EXT-X-TARGETDURATION:"@,
        decimal(p.target_duration()),
        "#EXT-X-MEDIA-SEQUENCE:"@,
        decimal(p.media_sequence),
        feed,
        entries_text(p.entries),
        end,
    );
    assert(p.text(is_final) == "#EXTM3U"@ + feed + rest1);
    lemma_first_line("#EXTM3U"@, rest1);
    lemma_first_line("#EXT-X-VERSION:3"@, rest2);
    lemma_first_line(target_line, rest3);
    lemma_first_line(first_line, body);
    lemma_all_entry_lines(p.entries, end);
    if is_final {
        lemma_first_line("#EXT-X-ENDLIST"@, Seq::empty());
        assert(end =~= "#EXT-X-ENDLIST"@ + feed + Seq::<char>::empty());
        assert(lines_of(end) =~= seq!["#EXT-X-ENDLIST"@]);
    }
    assert(lines_of(p.text(is_final)) =~= playlist_lines(p, is_final));
}

/// Whether two lines list a segment: its duration, read to the millisecond, and its
/// name.
pub open spec fn lists_segment(line: Seq<char>, name: Seq<char>, e: EntryView) -> bool {
    &&& line.len() >= 14
    &&& line.take(8) == "#EXTINF:"@
    &&& line[line.len() - 5] == '.'
    &&& line.last() == ','
    &&& is_digits(line.subrange(8, line.len() - 5))
    &&& is_digits(line.subrange(line.len() - 4, line.len() - 1))
    &&& line_millis(line) == e.duration_ms
    &&& name == e.filename
}

/// A playlist reads back line by line: the format and its version, the target
/// duration, the number of the first segment, then for each segment in order its
/// duration to the millisecond and its name, and an end marker exactly where it is
/// final. The target duration is the least number of whole seconds that no segment
/// exceeds, and 1 without any segment. Names hold no line feed.
pub proof fn law_playlist_reads_back(p: PlaylistView, is_final: bool)
    requires
        forall|i: int| 0 <= i < p.entries.len() ==> is_line(#[trigger] p.entries[i].filename),
    ensures
        ({
            let lines = lines_of(p.text(is_final));
            let n = p.entries.len();
            let target = number_of(lines[2].skip(22));
            &&& lines.len() == 4 + 2 * n + if is_final {
                1int
            } else {
                0
            }
            &&& lines[0] == "#EXTM3U"@
            &&& lines[1] == "#EXT-X-VERSION:3"@
            &&& lines[2].len() > 22 && lines[2].take(22) == "#EXT-X-TARGETDURATION:"@ && is_digits(
                lines[2].skip(22),
            )
            &&& n == 0 ==> target == 1
            &&& forall|i: int|
                0 <= i < n ==> (#[trigger] p.entries[i]).duration_ms <= 1000 * target
            &&& n > 0 && target > 0 ==> exists|i: int|
                0 <= i < n && (#[trigger] p.entries[i]).duration_ms > 1000 * (target - 1)
            &&& lines[3].len() > 22 && lines[3].take(22) == "#EXT-X-MEDIA-SEQUENCE:"@ && is_digits(
                lines[3].skip(22),
            )
            &&& number_of(lines[3].skip(22)) == p.media_sequence
            &&& forall|i: int|
                0 <= i < n ==> lists_segment(
                lines[4 + 2 * i],
                lines[5 + 2 * i],
                #[trigger] p.entries[i],
            )
            &&& is_final ==> lines.last() == "#EXT-X-ENDLIST"@
        }),
{
    lemma_playlist_lines(p, is_final);
    let lines = lines_of(p.text(is_final));
    let middle = all_entry_lines(p.entries);
    assert("#EXT-X-TARGETDURATION:"@.len() == 22 && is_line("#EXT-X-TARGETDURATION:"@)) by {
        reveal_strlit("#EXT-X-TARGETDURATION:");
    }
    assert("#EXT-X-MEDIA-SEQUENCE:"@.len() == 22 && is_line("#EXT-X-MEDIA-SEQUENCE:"@)) by {
        reveal_strlit("#EXT-X-MEDIA-SEQUENCE:");
    }
    lemma_number_line("#EXT-X-TARGETDURATION:"@, p.target_duration());
    lemma_number_line("#EXT-X-MEDIA-SEQUENCE:"@, p.media_sequence);
    if p.entries.len() > 0 {
        lemma_entry_line_at(p.entries, 0);
        lemma_longest_is_reached(p.entries);
    }
    assert(middle.len() == 2 * p.entries.len());
    assert(lines[2].skip(22) == decimal(p.target_duration()));
    assert(lines[3].skip(22) == decimal(p.media_sequence));
    if is_final {
        assert(lines.last() == "#EXT-X-ENDLIST"@);
    }
    assert forall|i: int| 0 <= i < p.entries.len() implies lists_segment(
                lines[4 + 2 * i],
                lines[5 + 2 * i],
                #[trigger] p.entries[i],
            ) by {
        lemma_entry_line_at(p.entries, i);
        lemma_entry_line_reads_back(p.entries[i]);
        assert(lines[4 + 2 * i] == middle[2 * i]);
        assert(lines[5 + 2 * i] == middle[2 * i + 1]);
    }
    assert forall|i: int| 0 <= i < p.entries.len() implies (#[trigger] p.entries[i]).duration_ms
        <= 1000 * p.target_duration() by {
        law_target_duration_bounds_segments(p, i);
    }
}

} // verus!
