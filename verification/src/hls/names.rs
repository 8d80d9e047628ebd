//! Names of segment files and directories.
//!
//! Layout:
//!   {cache root}/livestream-rs-segment-{stream id}-XXXXXX/   segment files
//!   {cache root}/livestream-rs-artifacts/{stream id}/        staged for upload
use crate::config::SegmentConfig;
use crate::text::{
    decimal, decimal_padded, is_digits, is_space, law_decimal_reads_back,
    law_padded_decimal_reads_back, law_trimming_takes_only_white_space, number_of,
    push_decimal_padded, trim, trimmed,
};
use vstd::prelude::*;

verus! {

/// Where segment files are kept.
#[derive(Clone, Debug)]
pub enum CacheRoot {
    /// The system's temporary directory.
    SystemTemp,
    /// A configured directory.
    Directory(String),
}

/// Chooses where segment files are kept: a configured directory that is blank
/// stands for the system's temporary directory.
pub fn cache_root(cfg: &SegmentConfig) -> (r: CacheRoot)
    ensures
        if trimmed(cfg.cache_dir@).len() == 0 {
            r is SystemTemp
        } else {
            r matches CacheRoot::Directory(d) && d@ == cfg.cache_dir@
        },
{
    if trim(cfg.cache_dir.as_str()).as_str().is_empty() {
        CacheRoot::SystemTemp
    } else {
        CacheRoot::Directory(cfg.cache_dir.clone())
    }
}

/// Prefix of the directory that a stream's segment files are written to.
pub fn segment_dir_prefix(stream_id: &str) -> (r: String)
    ensures
        r@ == "livestream-rs-segment-"@ + stream_id@ + "-"@,
{
    let mut s: String = "livestream-rs-segment-".to_owned();
    s.push_str(stream_id);
    s.push_str("-");
    s
}

/// Name of the directory that holds the staged segments of all streams.
pub fn artifacts_dir() -> (r: String)
    ensures
        r@ == "livestream-rs-artifacts"@,
{
    "livestream-rs-artifacts".to_owned()
}

/// Name of a stream's playlist.
pub fn playlist_filename() -> (r: String)
    ensures
        r@ == "index.m3u8"@,
{
    "index.m3u8".to_owned()
}

/// File name of the segment with a sequence number.
pub open spec fn segment_name(sequence: u64) -> Seq<char> {
    "segment_"@ + decimal_padded(sequence as nat, 4) + ".ts"@
}

/// File name of the segment with a sequence number, four digits at least.
pub fn segment_filename(sequence: u64) -> (r: String)
    ensures
        r@ == segment_name(sequence),
{
    let mut s: String = "segment_".to_owned();
    push_decimal_padded(&mut s, sequence, 4);
    s.push_str(".ts");
    s
}

/// The number that a run of digits stands for.
spec fn digits_value(s: Seq<char>) -> int
    decreases s.len(),
{
    if s.len() == 0 {
        0
    } else {
        digits_value(s.drop_last()) * 10 + (s.last() as int - 48)
    }
}

proof fn lemma_decimal_value(n: nat)
    ensures
        digits_value(decimal(n)) == n,
    decreases n,
{
    reveal_with_fuel(digits_value, 2);
    if n < 10 {
        assert(decimal(n).drop_last() =~= Seq::empty());
    } else {
        lemma_decimal_value(n / 10);
        assert(decimal(n).drop_last() =~= decimal(n / 10));
    }
}

proof fn lemma_zeros_value(k: nat, s: Seq<char>)
    ensures
        digits_value(Seq::new(k, |i: int| '0') + s) == digits_value(s),
    decreases k + s.len(),
{
    let zeros = Seq::new(k, |i: int| '0');
    let whole = zeros + s;
    if s.len() > 0 {
        lemma_zeros_value(k, s.drop_last());
        assert(whole.drop_last() =~= zeros + s.drop_last());
    } else if k > 0 {
        lemma_zeros_value((k - 1) as nat, s);
        assert(whole.drop_last() =~= Seq::new((k - 1) as nat, |i: int| '0') + s);
    } else {
        assert(whole =~= s);
    }
}

proof fn lemma_padded_value(n: nat, width: nat)
    ensures
        digits_value(decimal_padded(n, width)) == n,
{
    lemma_decimal_value(n);
    if decimal(n).len() < width {
        lemma_zeros_value((width - decimal(n).len()) as nat, decimal(n));
    }
}

/// Segments of one stream never share a file name.
pub proof fn law_segment_names_are_distinct(a: u64, b: u64)
    requires
        segment_name(a) == segment_name(b),
    ensures
        a == b,
{
    let pre = "segment_"@;
    let da = decimal_padded(a as nat, 4);
    let db = decimal_padded(b as nat, 4);
    let na = segment_name(a);
    let nb = segment_name(b);
    assert(na.len() == pre.len() + da.len() + ".ts"@.len());
    assert(da =~= na.subrange(pre.len() as int, (pre.len() + da.len()) as int));
    assert(db =~= nb.subrange(pre.len() as int, (pre.len() + db.len()) as int));
    lemma_padded_value(a as nat, 4);
    lemma_padded_value(b as nat, 4);
}

/// A segment's file is named by its number: `segment_`, the number in four digits at
/// least and no more zeros than that takes, `.ts`.
pub proof fn law_segment_name_reads_back(sequence: u64)
    ensures
        ({
            let name = segment_name(sequence);
            let number = name.subrange(8, name.len() - 3);
            &&& name.len() >= 15
            &&& name.take(8) == "segment_"@
            &&& name.skip(name.len() - 3) == ".ts"@
            &&& is_digits(number)
            &&& number_of(number) == sequence
            &&& sequence < 10000 ==> name.len() == 15
            &&& sequence >= 10000 ==> number[0] != '0'
        }),
{
    reveal_strlit("segment_");
    reveal_strlit(".ts");
    let name = segment_name(sequence);
    let padded = decimal_padded(sequence as nat, 4);
    law_padded_decimal_reads_back(sequence as nat, 4);
    law_decimal_reads_back(sequence as nat);
    assert(vstd::arithmetic::power::pow(10, 4) == 10000) by {
        reveal_with_fuel(vstd::arithmetic::power::pow, 6);
    }
    assert(name.subrange(8, name.len() - 3) =~= padded);
    assert(name.take(8) =~= "segment_"@);
    assert(name.skip(name.len() - 3) =~= ".ts"@);
    if sequence >= 10000 {
        reveal_with_fuel(decimal, 5);
        assert(decimal(sequence as nat).len() >= 5);
    }
}

/// Segment files are kept in the configured directory exactly where its name holds
/// something else than white space.
pub proof fn law_blank_directories_are_the_system_one(cfg: SegmentConfig, r: CacheRoot)
    requires
        call_ensures(cache_root, (&cfg,), r),
    ensures
        r is SystemTemp <==> forall|i: int|
            0 <= i < cfg.cache_dir@.len() ==> is_space(#[trigger] cfg.cache_dir@[i]),
        r matches CacheRoot::Directory(d) ==> d@ == cfg.cache_dir@,
{
    let s = cfg.cache_dir@;
    law_trimming_takes_only_white_space(s);
    let (a, b) = choose|a: int, b: int|
        0 <= a <= b <= s.len() && #[trigger] s.subrange(a, b) == trimmed(s) && (forall|i: int|
            0 <= i < a || b <= i < s.len() ==> is_space(#[trigger] s[i]));
    if trimmed(s).len() > 0 {
        assert(s[a] == trimmed(s)[0]);
    }
}

} // verus!
