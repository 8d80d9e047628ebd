//! AVCC framing: length-prefixed NAL units and the decoder configuration
//! record that announces them.
use crate::bits::{be16, be16_bytes, be32, be32_bytes, law_numbers_are_big_endian, lemma_be_roundtrip, lemma_byte_fields, push_be16, push_slice, u16_from_be};
use crate::buffer::{bytes_mut_of, bytes_of, put_u32};
use crate::codec::annexb::{annexb_nals, slice_views, split_annexb};
use crate::types::Codec;
use bytes::{Bytes, BytesMut};
use vstd::prelude::*;
use vstd::slice::{slice_subrange, slice_to_vec};

verus! {

/// One NAL unit behind its length, the low 32 bits of it, big-endian.
pub open spec fn avcc_unit(nal: Seq<u8>) -> Seq<u8> {
    be32_bytes((nal.len() % 0x1_0000_0000) as u32) + nal
}

/// NAL units in AVCC framing.
pub open spec fn avcc_join(nals: Seq<Seq<u8>>) -> Seq<u8>
    decreases nals.len(),
{
    if nals.len() == 0 {
        Seq::empty()
    } else {
        avcc_join(nals.drop_last()) + avcc_unit(nals.last())
    }
}

/// The NAL units that AVCC data holds, up to the first that is cut short.
pub open spec fn avcc_nals(data: Seq<u8>) -> Seq<Seq<u8>>
    decreases data.len(),
{
    if data.len() < 4 {
        Seq::empty()
    } else {
        let n = be32(data[0], data[1], data[2], data[3]) as int;
        if 4 + n > data.len() {
            Seq::empty()
        } else {
            seq![data.subrange(4, 4 + n)] + avcc_nals(data.skip(4 + n))
        }
    }
}

/// A prefix of the NAL units takes no more room than all of them.
proof fn lemma_avcc_join_prefix(nals: Seq<Seq<u8>>, k: int)
    requires
        0 <= k <= nals.len(),
    ensures
        avcc_join(nals.take(k)).len() <= avcc_join(nals).len(),
    decreases nals.len() - k,
{
    if k < nals.len() {
        let longer = nals.take(k + 1);
        assert(longer.drop_last() =~= nals.take(k));
        lemma_avcc_join_prefix(nals, k + 1);
    } else {
        assert(nals.take(k) =~= nals);
    }
}

/// Converts an Annex B bitstream to AVCC framing.
pub fn annexb_to_avcc(data: &[u8]) -> (r: Bytes)
    requires
        avcc_join(annexb_nals(data@)).len() <= isize::MAX,
    ensures
        bytes_of(r) == avcc_join(annexb_nals(data@)),
{
    let nals: Vec<&[u8]> = split_annexb(data);
    let ghost all = annexb_nals(data@);
    let mut out: BytesMut = BytesMut::new();
    let mut i: usize = 0;
    assert(all.take(0) =~= Seq::empty());
    while i < nals.len()
        invariant
            i <= nals@.len(),
            slice_views(nals@) == all,
            avcc_join(all).len() <= isize::MAX,
            bytes_mut_of(out) == avcc_join(all.take(i as int)),
        decreases nals@.len() - i,
    {
        let nal: &[u8] = nals[i];
        proof {
            assert(all[i as int] == nal@);
            assert(all.take(i + 1).drop_last() =~= all.take(i as int));
            assert(all.take(i + 1).last() == nal@);
            lemma_avcc_join_prefix(all, i + 1);
        }
        let size: usize = nal.len();
        let prefix: u32 = low_32(size);
        put_u32(&mut out, prefix);
        out.extend_from_slice(nal);
        proof {
            assert(bytes_mut_of(out) =~= avcc_join(all.take(i as int)) + avcc_unit(nal@));
        }
        i = i + 1;
    }
    assert(all.take(i as int) =~= all);
    out.freeze()
}

/// The low 32 bits of a length.
fn low_32(n: usize) -> (r: u32)
    ensures
        r == n as nat % 0x1_0000_0000,
{
    (n as u64 % 0x1_0000_0000) as u32
}

#[verifier::spinoff_prover]
#[verifier::rlimit(50)]
proof fn lemma_avcc_nals_join(nals: Seq<Seq<u8>>, tail: Seq<u8>)
    requires
        forall|i: int| 0 <= i < nals.len() ==> (#[trigger] nals[i]).len() < 0x1_0000_0000,
    ensures
        avcc_nals(avcc_join(nals) + tail) == nals + avcc_nals(tail),
    decreases nals.len(),
{
    if nals.len() == 0 {
        assert(avcc_join(nals) + tail =~= tail);
        assert(nals + avcc_nals(tail) =~= avcc_nals(tail));
    } else {
        let front = nals.drop_last();
        let nal = nals.last();
        let rest = avcc_unit(nal) + tail;
        assert(nals[nals.len() - 1].len() < 0x1_0000_0000);
        assert forall|i: int| 0 <= i < front.len() implies (#[trigger] front[i]).len()
            < 0x1_0000_0000 by {
            assert(front[i] == nals[i]);
        }
        lemma_avcc_nals_join(front, rest);
        assert(avcc_join(nals) + tail =~= avcc_join(front) + rest);
        let size = nal.len() as u32;
        lemma_be_roundtrip(0, size);
        assert(rest.subrange(4, 4 + nal.len() as int) =~= nal);
        assert(rest.skip(4 + nal.len() as int) =~= tail);
        assert(avcc_nals(rest) == seq![nal] + avcc_nals(tail));
        assert(front + (seq![nal] + avcc_nals(tail)) =~= nals + avcc_nals(tail));
    }
}

/// AVCC framing loses nothing: reading it gives the NAL units back in order.
/// The length prefix has 32 bits, so a unit must be shorter than that.
pub proof fn law_avcc_framing_is_lossless(nals: Seq<Seq<u8>>)
    requires
        forall|i: int| 0 <= i < nals.len() ==> (#[trigger] nals[i]).len() < 0x1_0000_0000,
    ensures
        avcc_nals(avcc_join(nals)) == nals,
{
    lemma_avcc_nals_join(nals, Seq::empty());
    assert(avcc_join(nals) + Seq::<u8>::empty() =~= avcc_join(nals));
    assert(nals + avcc_nals(Seq::empty()) =~= nals);
}

/// The AVCDecoderConfigurationRecord of one SPS and one PPS: version 1, the
/// SPS's profile, compatibility and level, four-byte NAL lengths, and the two
/// sets, each behind the low 16 bits of its length.
pub open spec fn avcc_record(sps: Seq<u8>, pps: Seq<u8>) -> Seq<u8> {
    seq![1u8] + sps.subrange(1, 4) + seq![0xFFu8, 0xE1u8] + be16_bytes(
        (sps.len() % 0x1_0000) as u16,
    ) + sps + seq![1u8] + be16_bytes((pps.len() % 0x1_0000) as u16) + pps
}

/// Builds the AVCDecoderConfigurationRecord of one SPS and one PPS.
pub fn build_avcc_record(sps: &[u8], pps: &[u8]) -> (r: Vec<u8>)
    requires
        sps@.len() >= 4,
    ensures
        r@ == avcc_record(sps@, pps@),
{
    let mut avcc: Vec<u8> = Vec::new();
    avcc.push(0x01);
    push_slice(&mut avcc, slice_subrange(sps, 1, 4));
    avcc.push(0xFF);
    avcc.push(0xE1);
    let sps_size: u16 = (sps.len() % 0x1_0000) as u16;
    push_be16(&mut avcc, sps_size);
    push_slice(&mut avcc, sps);
    avcc.push(0x01);
    let pps_size: u16 = (pps.len() % 0x1_0000) as u16;
    push_be16(&mut avcc, pps_size);
    push_slice(&mut avcc, pps);
    assert(avcc@ =~= avcc_record(sps@, pps@));
    avcc
}

/// A run of `count` parameter sets from `pos`, each behind its 16-bit length:
/// the sets concatenated and the position behind them, or `None` where one
/// runs past the end.
pub open spec fn parameter_set_run(data: Seq<u8>, pos: int, count: nat) -> Option<(Seq<u8>, int)>
    decreases count,
{
    if count == 0 {
        Some((Seq::empty(), pos))
    } else if pos + 2 > data.len() {
        None
    } else {
        let n = be16(data[pos], data[pos + 1]) as int;
        if pos + 2 + n > data.len() {
            None
        } else {
            match parameter_set_run(data, pos + 2 + n, (count - 1) as nat) {
                Some(tail) => Some((data.subrange(pos + 2, pos + 2 + n) + tail.0, tail.1)),
                None => None,
            }
        }
    }
}

/// The raw SPS and PPS of a decoder configuration record, concatenated. What is
/// no H.264 record, or a record cut short, stays as it is.
pub open spec fn raw_parameter_sets(codec: Codec, extradata: Seq<u8>) -> Seq<u8> {
    if codec != Codec::H264 || extradata.len() < 7 {
        extradata
    } else {
        match parameter_set_run(extradata, 6, (extradata[5] as int % 32) as nat) {
            None => extradata,
            Some((sps, pos)) => if pos >= extradata.len() {
                sps
            } else {
                match parameter_set_run(extradata, pos + 1, extradata[pos] as nat) {
                    None => extradata,
                    Some((pps, _)) => sps + pps,
                }
            },
        }
    }
}

/// Copies `count` parameter sets from `pos` and returns the position behind
/// them, or `None` where one runs past the end.
fn copy_parameter_sets(data: &[u8], pos: usize, count: usize, out: &mut Vec<u8>) -> (r: Option<
    usize,
>)
    requires
        pos <= data@.len(),
    ensures
        match parameter_set_run(data@, pos as int, count as nat) {
            Some((sets, end)) => r matches Some(e) && e == end && end <= data@.len() && final(out)@
                == old(out)@ + sets,
            None => r is None,
        },
    decreases count,
{
    if count == 0 {
        assert(out@ =~= old(out)@ + Seq::<u8>::empty());
        return Some(pos);
    }
    if data.len() - pos < 2 {
        return None;
    }
    let n: usize = u16_from_be(data[pos], data[pos + 1]) as usize;
    let body: usize = pos + 2;
    if data.len() - body < n {
        return None;
    }
    push_slice(out, slice_subrange(data, body, body + n));
    let ghost mid = out@;
    let r = copy_parameter_sets(data, body + n, count - 1, out);
    proof {
        if let Some((tail, _)) = parameter_set_run(data@, body + n, (count - 1) as nat) {
            assert(mid + tail =~= old(out)@ + (data@.subrange(body as int, body + n) + tail));
        }
    }
    r
}

/// Converts AVCDecoderConfigurationRecord extradata to raw SPS+PPS
/// (concatenated, no start codes) for the MPEG-TS muxer.
///
/// Returns the extradata unchanged for other codecs, and where a declared
/// parameter set runs past the end.
pub fn hls_extradata(codec: Codec, extradata: &[u8]) -> (r: Vec<u8>)
    ensures
        r@ == raw_parameter_sets(codec, extradata@),
{
    if codec != Codec::H264 || extradata.len() < 7 {
        return slice_to_vec(extradata);
    }
    proof {
        lemma_byte_fields(extradata@[5]);
    }
    let num_sps: usize = (extradata[5] & 0x1F) as usize;
    let mut out: Vec<u8> = Vec::new();
    let pos: usize = match copy_parameter_sets(extradata, 6, num_sps, &mut out) {
        Some(p) => p,
        None => {
            return slice_to_vec(extradata);
        },
    };
    let ghost sps = out@;
    proof {
        let run = parameter_set_run(extradata@, 6, num_sps as nat);
        assert(out@ =~= (run->0).0);
    }
    if pos >= extradata.len() {
        return out;
    }
    let num_pps: usize = extradata[pos] as usize;
    match copy_parameter_sets(extradata, pos + 1, num_pps, &mut out) {
        Some(_) => out,
        None => slice_to_vec(extradata),
    }
}

/// The raw parameter sets of a record are the ones it was built from. Both
/// lengths must fit the record's 16-bit fields.
pub proof fn law_record_gives_sets_back(sps: Seq<u8>, pps: Seq<u8>)
    requires
        4 <= sps.len() < 0x1_0000,
        pps.len() < 0x1_0000,
    ensures
        raw_parameter_sets(Codec::H264, avcc_record(sps, pps)) == sps + pps,
{
    let rec = avcc_record(sps, pps);
    lemma_be_roundtrip(sps.len() as u16, 0);
    lemma_be_roundtrip(pps.len() as u16, 0);
    reveal_with_fuel(parameter_set_run, 2);
    let end = 8 + sps.len() as int;
    assert(rec[5] == 0xE1);
    assert(be16(rec[6], rec[7]) == sps.len());
    assert(rec.subrange(8, end) =~= sps);
    assert(parameter_set_run(rec, 6, 1) == Some((sps + Seq::<u8>::empty(), end)));
    assert(sps + Seq::<u8>::empty() =~= sps);
    assert(rec[end] == 1);
    assert(be16(rec[end + 1], rec[end + 2]) == pps.len());
    assert(rec.subrange(end + 3, end + 3 + pps.len()) =~= pps);
    assert(pps + Seq::<u8>::empty() =~= pps);
    assert(parameter_set_run(rec, end + 1, 1) == Some(
        (pps + Seq::<u8>::empty(), end + 3 + pps.len()),
    ));
}

/// Extradata of another codec than H.264 is left unchanged.
pub proof fn law_other_extradata_unchanged(codec: Codec, extradata: Seq<u8>)
    requires
        codec != Codec::H264,
    ensures
        raw_parameter_sets(codec, extradata) == extradata,
{
}

proof fn lemma_unit_bytes(nal: Seq<u8>)
    requires
        nal.len() < 0x1_0000_0000,
    ensures
        ({
            let unit = avcc_unit(nal);
            256 * (256 * (256 * unit[0] + unit[1]) + unit[2]) + unit[3] == nal.len()
        }),
{
    law_numbers_are_big_endian(0, nal.len() as u32, 0);
    assert(nal.len() % 0x1_0000_0000 == nal.len());
}

/// Each unit stands behind four bytes that count its bytes, the most significant
/// first, and units follow each other without a gap.
pub proof fn law_avcc_unit_layout(nals: Seq<Seq<u8>>, nal: Seq<u8>)
    requires
        nal.len() < 0x1_0000_0000,
    ensures
        ({
            let before = avcc_join(nals).len() as int;
            let all = avcc_join(nals.push(nal));
            &&& all.take(before) == avcc_join(nals)
            &&& all.len() == before + 4 + nal.len()
            &&& 256 * (256 * (256 * all[before] + all[before + 1]) + all[before + 2]) + all[before
                + 3] == nal.len()
            &&& all.skip(before + 4) == nal
        }),
        avcc_join(Seq::empty()).len() == 0,
{
    let all = avcc_join(nals.push(nal));
    let before = avcc_join(nals).len() as int;
    assert(nals.push(nal).drop_last() =~= nals);
    assert(all.take(before) =~= avcc_join(nals));
    assert(all.skip(before + 4) =~= nal);
    lemma_unit_bytes(nal);
    let unit = avcc_unit(nal);
    assert(all[before] == unit[0] && all[before + 1] == unit[1]);
    assert(all[before + 2] == unit[2] && all[before + 3] == unit[3]);
}

/// A record says what a decoder needs: version 1, profile, compatibility and level of
/// the SPS, NAL lengths of four bytes, then one SPS and one PPS, each behind a count
/// of its bytes, the more significant first.
pub proof fn law_record_layout(sps: Seq<u8>, pps: Seq<u8>)
    requires
        4 <= sps.len() < 0x1_0000,
        pps.len() < 0x1_0000,
    ensures
        ({
            let rec = avcc_record(sps, pps);
            let end = 8 + sps.len() as int;
            &&& rec.len() == 11 + sps.len() + pps.len()
            &&& rec[0] == 1
            &&& rec[1] == sps[1] && rec[2] == sps[2] && rec[3] == sps[3]
            &&& rec[4] == 0xFF
            &&& rec[5] == 0xE1
            &&& 256 * rec[6] + rec[7] == sps.len()
            &&& rec.subrange(8, end) == sps
            &&& rec[end] == 1
            &&& 256 * rec[end + 1] + rec[end + 2] == pps.len()
            &&& rec.skip(end + 3) == pps
        }),
{
    let rec = avcc_record(sps, pps);
    let end = 8 + sps.len() as int;
    assert(rec.subrange(8, end) =~= sps);
    assert(rec.skip(end + 3) =~= pps);
    assert(rec[6] == be16_bytes(sps.len() as u16)[0]);
    assert(rec[end + 1] == be16_bytes(pps.len() as u16)[0]);
}

/// Parameter sets, each behind a count of its bytes.
pub open spec fn counted_sets(sets: Seq<Seq<u8>>) -> Seq<u8>
    decreases sets.len(),
{
    if sets.len() == 0 {
        Seq::empty()
    } else {
        seq![(sets[0].len() / 256) as u8, (sets[0].len() % 256) as u8] + sets[0] + counted_sets(
            sets.skip(1),
        )
    }
}

/// Parameter sets, one behind the other.
pub open spec fn joined_sets(sets: Seq<Seq<u8>>) -> Seq<u8>
    decreases sets.len(),
{
    if sets.len() == 0 {
        Seq::empty()
    } else {
        sets[0] + joined_sets(sets.skip(1))
    }
}

proof fn lemma_set_run(head: Seq<u8>, sets: Seq<Seq<u8>>, tail: Seq<u8>)
    requires
        forall|i: int| 0 <= i < sets.len() ==> (#[trigger] sets[i]).len() < 0x1_0000,
    ensures
        parameter_set_run(head + counted_sets(sets) + tail, head.len() as int, sets.len()) == Some(
            (joined_sets(sets), (head.len() + counted_sets(sets).len()) as int),
        ),
    decreases sets.len(),
{
    let data = head + counted_sets(sets) + tail;
    if sets.len() > 0 {
        let rest = sets.skip(1);
        let n = sets[0].len();
        let next = head + seq![(n / 256) as u8, (n % 256) as u8] + sets[0];
        assert(sets[0].len() < 0x1_0000);
        assert forall|i: int| 0 <= i < rest.len() implies (#[trigger] rest[i]).len()
            < 0x1_0000 by {
            assert(rest[i] == sets[i + 1]);
        }
        lemma_set_run(next, rest, tail);
        assert(data =~= next + counted_sets(rest) + tail);
        let pos = head.len() as int;
        assert(data[pos] == (n / 256) as u8 && data[pos + 1] == (n % 256) as u8);
        assert(be16(data[pos], data[pos + 1]) == n);
        assert(data.subrange(pos + 2, pos + 2 + n as int) =~= sets[0]);
    }
}

/// A record may hold several parameter sets of a kind, and bytes behind them: all SPS
/// come out in order, then all PPS. It holds up to 31 SPS and 255 PPS.
pub proof fn law_all_sets_come_out(
    head: Seq<u8>,
    spss: Seq<Seq<u8>>,
    ppss: Seq<Seq<u8>>,
    tail: Seq<u8>,
)
    requires
        head.len() == 6,
        head[5] % 32 == spss.len(),
        ppss.len() < 256,
        forall|i: int| 0 <= i < spss.len() ==> (#[trigger] spss[i]).len() < 0x1_0000,
        forall|i: int| 0 <= i < ppss.len() ==> (#[trigger] ppss[i]).len() < 0x1_0000,
    ensures
        raw_parameter_sets(
            Codec::H264,
            head + counted_sets(spss) + seq![ppss.len() as u8] + counted_sets(ppss) + tail,
        ) == joined_sets(spss) + joined_sets(ppss),
{
    let data = head + counted_sets(spss) + seq![ppss.len() as u8] + counted_sets(ppss) + tail;
    let after = seq![ppss.len() as u8] + counted_sets(ppss) + tail;
    lemma_set_run(head, spss, after);
    assert(data =~= head + counted_sets(spss) + after);
    assert(data[5] == head[5]);
    let head2 = head + counted_sets(spss) + seq![ppss.len() as u8];
    lemma_set_run(head2, ppss, tail);
    assert(data =~= head2 + counted_sets(ppss) + tail);
    assert(data[head2.len() - 1] == ppss.len() as u8);
}

/// Extradata too short for a record, or one whose first SPS runs past the end, is left
/// unchanged.
pub proof fn law_cut_records_are_unchanged(data: Seq<u8>)
    ensures
        data.len() < 7 ==> raw_parameter_sets(Codec::H264, data) == data,
        data.len() >= 8 && data[5] % 32 > 0 && data.len() < 8 + 256 * data[6] + data[7]
            ==> raw_parameter_sets(Codec::H264, data) == data,
{
}

/// A record that ends behind its SPS gives these alone. One whose first PPS runs past
/// the end is left unchanged.
pub proof fn law_records_without_whole_pps(
    head: Seq<u8>,
    spss: Seq<Seq<u8>>,
    count: u8,
    rest: Seq<u8>,
)
    requires
        head.len() == 6,
        head[5] % 32 == spss.len(),
        spss.len() > 0,
        forall|i: int| 0 <= i < spss.len() ==> (#[trigger] spss[i]).len() < 0x1_0000,
        count > 0,
        rest.len() < 2 || rest.len() < 2 + 256 * rest[0] + rest[1],
    ensures
        raw_parameter_sets(Codec::H264, head + counted_sets(spss)) == joined_sets(spss),
        raw_parameter_sets(Codec::H264, head + counted_sets(spss) + seq![count] + rest) == head
            + counted_sets(spss) + seq![count] + rest,
{
    let whole = head + counted_sets(spss);
    lemma_set_run(head, spss, Seq::empty());
    assert(whole + Seq::<u8>::empty() =~= whole);
    assert(whole[5] == head[5]);
    let data = whole + seq![count] + rest;
    lemma_set_run(head, spss, seq![count] + rest);
    assert(data =~= whole + (seq![count] + rest));
    assert(data[5] == head[5]);
    let pos = whole.len() as int;
    assert(data[pos] == count);
    if rest.len() >= 2 {
        assert(data[pos + 1] == rest[0] && data[pos + 2] == rest[1]);
    }
}

} // verus!
