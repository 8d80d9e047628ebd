//! Annex B bitstreams: NAL units delimited by start codes.
use crate::bits::lemma_byte_fields;
use vstd::prelude::*;
use vstd::slice::{slice_subrange, slice_to_vec};

verus! {

/// NAL unit type of a sequence parameter set.
pub const NAL_TYPE_SPS: u8 = 7;

/// NAL unit type of a picture parameter set.
pub const NAL_TYPE_PPS: u8 = 8;

/// Whether a `00 00 01` start code stands at position `i`.
pub open spec fn code_at(data: Seq<u8>, i: int) -> bool {
    0 <= i && i + 3 <= data.len() && data[i] == 0 && data[i + 1] == 0 && data[i + 2] == 1
}

/// Position of the first start code.
pub open spec fn first_code(data: Seq<u8>) -> Option<int>
    decreases data.len(),
{
    if data.len() < 3 {
        None
    } else if code_at(data, 0) {
        Some(0)
    } else {
        match first_code(data.skip(1)) {
            Some(j) => Some(j + 1),
            None => None,
        }
    }
}

/// Where a NAL unit ends that is followed by the start code at `j`: a zero byte
/// before the code belongs to the four-byte form `00 00 00 01`.
pub open spec fn nal_end(data: Seq<u8>, j: int) -> int {
    if j > 0 && data[j - 1] == 0 {
        j - 1
    } else {
        j
    }
}

/// The NAL units of a bitstream that starts just behind a start code.
pub open spec fn nals_after_code(data: Seq<u8>) -> Seq<Seq<u8>>
    decreases data.len(),
{
    match first_code(data) {
        None => seq![data],
        Some(j) => if 0 <= j && j + 3 <= data.len() {
            seq![data.take(nal_end(data, j))] + nals_after_code(data.skip(j + 3))
        } else {
            seq![data]
        },
    }
}

/// The NAL units of an Annex B bitstream. What stands before the first start
/// code is no NAL unit.
pub open spec fn annexb_nals(data: Seq<u8>) -> Seq<Seq<u8>> {
    match first_code(data) {
        None => Seq::empty(),
        Some(j) => nals_after_code(data.skip(j + 3)),
    }
}

/// The contents of a run of slices.
pub open spec fn slice_views(s: Seq<&[u8]>) -> Seq<Seq<u8>> {
    Seq::new(s.len(), |i: int| s[i]@)
}

/// The first start code is the one that no other precedes.
pub proof fn lemma_first_code_some(data: Seq<u8>, j: int)
    requires
        code_at(data, j),
        forall|k: int| 0 <= k < j ==> !code_at(data, k),
    ensures
        first_code(data) == Some(j),
    decreases data.len(),
{
    if j > 0 {
        let tail = data.skip(1);
        assert forall|k: int| 0 <= k < j - 1 implies !code_at(tail, k) by {
            assert(!code_at(data, k + 1));
        }
        assert(!code_at(data, 0));
        lemma_first_code_some(tail, j - 1);
    }
}

/// Without a start code there is no first one.
pub proof fn lemma_first_code_none(data: Seq<u8>)
    requires
        forall|k: int| 0 <= k < data.len() ==> !code_at(data, k),
    ensures
        first_code(data) is None,
    decreases data.len(),
{
    if data.len() >= 3 {
        let tail = data.skip(1);
        assert forall|k: int| 0 <= k < tail.len() implies !code_at(tail, k) by {
            assert(!code_at(data, k + 1));
        }
        assert(!code_at(data, 0));
        lemma_first_code_none(tail);
    }
}

/// Splits an Annex B bitstream into NAL units, skipping `00 00 01` and
/// `00 00 00 01` start codes.
pub fn split_annexb(data: &[u8]) -> (r: Vec<&[u8]>)
    ensures
        slice_views(r@) == annexb_nals(data@),
{
    let mut nals: Vec<&[u8]> = Vec::new();
    let mut start: Option<usize> = None;
    let mut i: usize = 0;
    let n: usize = data.len();
    while i < n && n - i > 2
        invariant
            n == data@.len(),
            i <= n,
            i > 0 && (start matches Some(s) ==> s < i) ==> !(data@[i - 1] == 0 && code_at(
                data@,
                i as int,
            )),
            match start {
                None => {
                    &&& nals@.len() == 0
                    &&& forall|k: int| 0 <= k < i ==> !code_at(data@, k)
                },
                Some(s) => {
                    &&& s <= i
                    &&& forall|k: int| s <= k < i ==> !code_at(data@, k)
                    &&& slice_views(nals@) + nals_after_code(data@.skip(s as int)) == annexb_nals(
                        data@,
                    )
                },
            },
        decreases n - i,
    {
        if data[i] == 0 && data[i + 1] == 0 && data[i + 2] == 1 {
            proof {
                lemma_step(data@, start, i as int, i as int, slice_views(nals@));
            }
            if let Some(s) = start {
                let ghost before = nals@;
                nals.push(slice_subrange(data, s, i));
                assert(slice_views(nals@) =~= slice_views(before).push(
                    data@.subrange(s as int, i as int),
                ));
            }
            i = i + 3;
            start = Some(i);
            continue ;
        }
        if n - i > 3 && data[i] == 0 && data[i + 1] == 0 && data[i + 2] == 0 && data[i + 3] == 1 {
            proof {
                assert(code_at(data@, i + 1));
                lemma_step(data@, start, i as int, i + 1, slice_views(nals@));
            }
            if let Some(s) = start {
                let ghost before = nals@;
                nals.push(slice_subrange(data, s, i));
                assert(slice_views(nals@) =~= slice_views(before).push(
                    data@.subrange(s as int, i as int),
                ));
            }
            i = i + 4;
            start = Some(i);
            continue ;
        }
        i = i + 1;
    }
    if let Some(s) = start {
        proof {
            let rest = data@.skip(s as int);
            assert forall|k: int| 0 <= k < rest.len() implies !code_at(rest, k) by {
                assert(!code_at(data@, k + s));
            }
            lemma_first_code_none(rest);
        }
        let ghost before = nals@;
        nals.push(slice_subrange(data, s, n));
        assert(data@.subrange(s as int, n as int) =~= data@.skip(s as int));
        assert(slice_views(nals@) =~= slice_views(before).push(data@.skip(s as int)));
        assert(slice_views(nals@) =~= slice_views(before) + seq![data@.skip(s as int)]);
    } else {
        proof {
            lemma_first_code_none(data@);
        }
        assert(slice_views(nals@) =~= annexb_nals(data@));
    }
    nals
}

/// One start code met while splitting: the scan stands at `i`, the three-byte
/// code at `j`, and `done` holds the NAL units that are complete.
proof fn lemma_step(data: Seq<u8>, start: Option<usize>, i: int, j: int, done: Seq<Seq<u8>>)
    requires
        0 <= i <= j <= i + 1,
        code_at(data, j),
        j == i + 1 ==> data[i] == 0,
        i > 0 && j == i && (start matches Some(s) ==> s < i) ==> data[i - 1] != 0,
        match start {
            None => {
                &&& done.len() == 0
                &&& forall|k: int| 0 <= k < j ==> !code_at(data, k)
            },
            Some(s) => {
                &&& s <= i
                &&& forall|k: int| s <= k < j ==> !code_at(data, k)
                &&& done + nals_after_code(data.skip(s as int)) == annexb_nals(data)
            },
        },
    ensures
        match start {
            None => nals_after_code(data.skip(j + 3)) == annexb_nals(data),
            Some(s) => done.push(data.subrange(s as int, i)) + nals_after_code(data.skip(j + 3))
                == annexb_nals(data),
        },
{
    match start {
        None => {
            lemma_first_code_some(data, j);
        },
        Some(s) => {
            let rest = data.skip(s as int);
            assert forall|k: int| 0 <= k < j - s implies !code_at(rest, k) by {
                assert(!code_at(data, k + s));
            }
            assert(code_at(rest, j - s));
            lemma_first_code_some(rest, j - s);
            assert(rest.skip(j - s + 3) =~= data.skip(j + 3));
            assert(nal_end(rest, j - s) == i - s);
            assert(rest.take(i - s) =~= data.subrange(s as int, i));
            assert(done.push(data.subrange(s as int, i)) + nals_after_code(data.skip(j + 3))
                =~= done + (seq![rest.take(i - s)] + nals_after_code(rest.skip(j - s + 3))));
        },
    }
}

/// A bitstream with each NAL unit behind a four-byte start code.
pub open spec fn annexb_join(nals: Seq<Seq<u8>>) -> Seq<u8>
    decreases nals.len(),
{
    if nals.len() == 0 {
        Seq::empty()
    } else {
        seq![0u8, 0u8, 0u8, 1u8] + nals[0] + annexb_join(nals.skip(1))
    }
}

/// Whether a NAL unit can be told from start codes: it holds none.
pub open spec fn is_clean_nal(nal: Seq<u8>) -> bool {
    forall|k: int| !code_at(nal, k)
}

proof fn lemma_split_behind_code(first: Seq<u8>, rest: Seq<Seq<u8>>)
    requires
        is_clean_nal(first),
        forall|i: int| 0 <= i < rest.len() ==> is_clean_nal(#[trigger] rest[i]),
    ensures
        nals_after_code(first + annexb_join(rest)) == seq![first] + rest,
    decreases rest.len(),
{
    let data = first + annexb_join(rest);
    if rest.len() == 0 {
        assert(data =~= first);
        lemma_first_code_none(data);
        assert(seq![first] + rest =~= seq![first]);
    } else {
        let tail = rest.skip(1);
        let j = first.len() as int + 1;
        assert(data =~= first + seq![0u8, 0u8, 0u8, 1u8] + (rest[0] + annexb_join(tail)));
        assert(code_at(data, j));
        assert forall|k: int| 0 <= k < j implies !code_at(data, k) by {
            if k + 3 <= first.len() {
                assert(!code_at(first, k));
            }
        }
        lemma_first_code_some(data, j);
        assert(nal_end(data, j) == first.len());
        assert(data.take(first.len() as int) =~= first);
        assert(data.skip(j + 3) =~= rest[0] + annexb_join(tail));
        assert forall|i: int| 0 <= i < tail.len() implies is_clean_nal(#[trigger] tail[i]) by {
            assert(is_clean_nal(rest[i + 1]));
        }
        assert(is_clean_nal(rest[0]));
        lemma_split_behind_code(rest[0], tail);
        assert(seq![first] + (seq![rest[0]] + tail) =~= seq![first] + rest);
    }
}

/// Splitting undoes joining: NAL units that hold no start code come back unchanged
/// and in order.
pub proof fn law_split_inverts_join(nals: Seq<Seq<u8>>)
    requires
        forall|i: int| 0 <= i < nals.len() ==> is_clean_nal(#[trigger] nals[i]),
    ensures
        annexb_nals(annexb_join(nals)) == nals,
{
    let data = annexb_join(nals);
    if nals.len() == 0 {
        assert(annexb_nals(data) =~= nals);
    } else {
        let tail = nals.skip(1);
        assert(!code_at(data, 0));
        assert(code_at(data, 1));
        lemma_first_code_some(data, 1);
        assert(data.skip(4) =~= nals[0] + annexb_join(tail));
        assert forall|i: int| 0 <= i < tail.len() implies is_clean_nal(#[trigger] tail[i]) by {
            assert(is_clean_nal(nals[i + 1]));
        }
        assert(is_clean_nal(nals[0]));
        lemma_split_behind_code(nals[0], tail);
        assert(seq![nals[0]] + tail =~= nals);
    }
}

/// The first NAL unit of the given type.
pub open spec fn first_of_type(nals: Seq<Seq<u8>>, nal_type: int) -> Option<Seq<u8>>
    decreases nals.len(),
{
    if nals.len() == 0 {
        None
    } else if nals[0].len() > 0 && nals[0][0] as int % 32 == nal_type {
        Some(nals[0])
    } else {
        first_of_type(nals.skip(1), nal_type)
    }
}

/// The parameter sets of a bitstream: its first SPS and its first PPS. An SPS
/// of fewer than four bytes has no profile and level to copy.
pub open spec fn parameter_sets(data: Seq<u8>) -> Option<(Seq<u8>, Seq<u8>)> {
    let nals = annexb_nals(data);
    match (first_of_type(nals, 7), first_of_type(nals, 8)) {
        (Some(sps), Some(pps)) => if sps.len() >= 4 {
            Some((sps, pps))
        } else {
            None
        },
        _ => None,
    }
}

/// One more NAL unit seen: the first of a type stays, or is this one.
proof fn lemma_first_of_type_push(nals: Seq<Seq<u8>>, nal: Seq<u8>, nal_type: int)
    ensures
        first_of_type(nals.push(nal), nal_type) == match first_of_type(nals, nal_type) {
            Some(x) => Some(x),
            None => if nal.len() > 0 && nal[0] as int % 32 == nal_type {
                Some(nal)
            } else {
                None
            },
        },
    decreases nals.len(),
{
    reveal_with_fuel(first_of_type, 2);
    if nals.len() == 0 {
        assert(nals.push(nal).skip(1) =~= Seq::empty());
    } else {
        lemma_first_of_type_push(nals.skip(1), nal, nal_type);
        assert(nals.push(nal).skip(1) =~= nals.skip(1).push(nal));
        assert(nals.push(nal)[0] == nals[0]);
    }
}

/// A NAL unit found in a prefix is the first of the whole.
proof fn lemma_first_of_type_prefix(nals: Seq<Seq<u8>>, k: int, nal_type: int)
    requires
        0 <= k <= nals.len(),
        first_of_type(nals.take(k), nal_type) is Some,
    ensures
        first_of_type(nals, nal_type) == first_of_type(nals.take(k), nal_type),
    decreases nals.len() - k,
{
    if k < nals.len() {
        assert(nals.take(k + 1) =~= nals.take(k).push(nals[k]));
        lemma_first_of_type_push(nals.take(k), nals[k], nal_type);
        lemma_first_of_type_prefix(nals, k + 1, nal_type);
    } else {
        assert(nals.take(k) =~= nals);
    }
}

/// The bytes of an optional vector.
pub open spec fn opt_vec(v: Option<Vec<u8>>) -> Option<Seq<u8>> {
    match v {
        Some(x) => Some(x@),
        None => None,
    }
}

/// Returns the first SPS (NAL type 7) and PPS (NAL type 8) of an Annex B
/// bitstream, start codes excluded, or `None` where either is missing.
pub fn extract_sps_pps(annexb: &[u8]) -> (r: Option<(Vec<u8>, Vec<u8>)>)
    ensures
        match parameter_sets(annexb@) {
            Some(sets) => r matches Some(p) && p.0@ == sets.0 && p.1@ == sets.1,
            None => r is None,
        },
{
    let nals: Vec<&[u8]> = split_annexb(annexb);
    let ghost all = annexb_nals(annexb@);
    let mut sps: Option<Vec<u8>> = None;
    let mut pps: Option<Vec<u8>> = None;
    let mut i: usize = 0;
    while i < nals.len() && !(sps.is_some() && pps.is_some())
        invariant
            i <= nals@.len(),
            slice_views(nals@) == all,
            opt_vec(sps) == first_of_type(all.take(i as int), 7),
            opt_vec(pps) == first_of_type(all.take(i as int), 8),
        decreases nals@.len() - i,
    {
        let nal: &[u8] = nals[i];
        proof {
            assert(all[i as int] == nal@);
            assert(all.take(i + 1) =~= all.take(i as int).push(nal@));
            lemma_first_of_type_push(all.take(i as int), nal@, 7);
            lemma_first_of_type_push(all.take(i as int), nal@, 8);
        }
        if nal.len() > 0 {
            let nal_type: u8 = nal[0] & 0x1F;
            proof {
                lemma_byte_fields(nal@[0]);
            }
            if nal_type == NAL_TYPE_SPS && sps.is_none() {
                sps = Some(slice_to_vec(nal));
            } else if nal_type == NAL_TYPE_PPS && pps.is_none() {
                pps = Some(slice_to_vec(nal));
            }
        }
        i = i + 1;
    }
    proof {
        if first_of_type(all.take(i as int), 7) is Some {
            lemma_first_of_type_prefix(all, i as int, 7);
        }
        if first_of_type(all.take(i as int), 8) is Some {
            lemma_first_of_type_prefix(all, i as int, 8);
        }
        if i == nals@.len() {
            assert(all.take(i as int) =~= all);
        }
    }
    match (sps, pps) {
        (Some(s), Some(p)) => if s.len() >= 4 {
            Some((s, p))
        } else {
            None
        },
        _ => None,
    }
}

proof fn lemma_units_after_code_fit(data: Seq<u8>)
    ensures
        forall|i: int|
            0 <= i < nals_after_code(data).len() ==> (#[trigger] nals_after_code(data)[i]).len()
                <= data.len(),
    decreases data.len(),
{
    match first_code(data) {
        Some(j) if 0 <= j && j + 3 <= data.len() => {
            lemma_units_after_code_fit(data.skip(j + 3));
            let rest = nals_after_code(data.skip(j + 3));
            let all = nals_after_code(data);
            assert forall|i: int| 0 <= i < all.len() implies (#[trigger] all[i]).len()
                <= data.len() by {
                if i > 0 {
                    assert(all[i] == rest[i - 1]);
                }
            }
        },
        _ => {},
    }
}

proof fn lemma_first_code_in_range(data: Seq<u8>)
    ensures
        first_code(data) matches Some(j) ==> code_at(data, j) && forall|k: int|
            0 <= k < j ==> !code_at(data, k),
        first_code(data) is None ==> forall|k: int| !code_at(data, k),
    decreases data.len(),
{
    if data.len() >= 3 && !code_at(data, 0) {
        let tail = data.skip(1);
        lemma_first_code_in_range(tail);
        assert forall|k: int| 0 < k && code_at(data, k) implies code_at(tail, k - 1) by {}
        match first_code(tail) {
            Some(j) => {
                assert(code_at(data, j + 1));
                assert forall|k: int| 0 <= k < j + 1 implies !code_at(data, k) by {
                    if k > 0 {
                        assert(!code_at(tail, k - 1));
                    }
                }
            },
            None => {
                assert forall|k: int| !code_at(data, k) by {
                    if k > 0 && code_at(data, k) {
                        assert(code_at(tail, k - 1));
                    }
                }
            },
        }
    }
}

/// No unit is longer than the bitstream it comes from.
pub proof fn lemma_units_fit(data: Seq<u8>)
    ensures
        forall|i: int|
            0 <= i < annexb_nals(data).len() ==> (#[trigger] annexb_nals(data)[i]).len()
                <= data.len(),
{
    lemma_first_code_in_range(data);
    if let Some(j) = first_code(data) {
        lemma_units_after_code_fit(data.skip(j + 3));
    }
}

/// A bitstream with each NAL unit behind a start code, of four bytes where `long` says
/// so and of three otherwise.
pub open spec fn annexb_join_as(nals: Seq<Seq<u8>>, long: Seq<bool>) -> Seq<u8>
    decreases nals.len(),
{
    if nals.len() == 0 {
        Seq::empty()
    } else {
        (if long[0] {
            seq![0u8, 0u8, 0u8, 1u8]
        } else {
            seq![0u8, 0u8, 1u8]
        }) + nals[0] + annexb_join_as(nals.skip(1), long.skip(1))
    }
}

proof fn lemma_split_behind_any_code(first: Seq<u8>, rest: Seq<Seq<u8>>, long: Seq<bool>)
    requires
        long.len() == rest.len(),
        is_clean_nal(first),
        first.len() > 0 ==> first.last() != 0,
        forall|i: int|
            0 <= i < rest.len() ==> is_clean_nal(#[trigger] rest[i]) && (rest[i].len() > 0
                ==> rest[i].last() != 0),
    ensures
        nals_after_code(first + annexb_join_as(rest, long)) == seq![first] + rest,
    decreases rest.len(),
{
    let data = first + annexb_join_as(rest, long);
    if rest.len() == 0 {
        assert(data =~= first);
        lemma_first_code_none(data);
        assert(seq![first] + rest =~= seq![first]);
    } else {
        let tail = rest.skip(1);
        let code = if long[0] {
            seq![0u8, 0u8, 0u8, 1u8]
        } else {
            seq![0u8, 0u8, 1u8]
        };
        let j = first.len() as int + code.len() - 3;
        assert(data =~= first + code + (rest[0] + annexb_join_as(tail, long.skip(1))));
        assert(code_at(data, j));
        assert forall|k: int| 0 <= k < j implies !code_at(data, k) by {
            if k + 3 <= first.len() {
                assert(!code_at(first, k));
            }
        }
        lemma_first_code_some(data, j);
        assert(nal_end(data, j) == first.len());
        assert(data.take(first.len() as int) =~= first);
        assert(data.skip(j + 3) =~= rest[0] + annexb_join_as(tail, long.skip(1)));
        assert forall|i: int| 0 <= i < tail.len() implies is_clean_nal(#[trigger] tail[i]) && (
        tail[i].len() > 0 ==> tail[i].last() != 0) by {
            assert(is_clean_nal(rest[i + 1]));
        }
        assert(is_clean_nal(rest[0]));
        lemma_split_behind_any_code(rest[0], tail, long.skip(1));
        assert(seq![first] + (seq![rest[0]] + tail) =~= seq![first] + rest);
    }
}

/// Start codes of three and of four bytes are the same to a reader, and what stands
/// before the first one is passed over: the units come back unchanged and in order. A
/// unit holds no start code and, as every NAL unit does, ends in a byte other than
/// zero; what precedes the first code holds none either.
pub proof fn law_split_takes_both_codes(junk: Seq<u8>, nals: Seq<Seq<u8>>, long: Seq<bool>)
    requires
        long.len() == nals.len(),
        is_clean_nal(junk),
        forall|i: int|
            0 <= i < nals.len() ==> is_clean_nal(#[trigger] nals[i]) && (nals[i].len() > 0
                ==> nals[i].last() != 0),
    ensures
        annexb_nals(junk + annexb_join_as(nals, long)) == nals,
{
    let data = junk + annexb_join_as(nals, long);
    if nals.len() == 0 {
        assert(data =~= junk);
        lemma_first_code_none(data);
        assert(annexb_nals(data) =~= nals);
    } else {
        let tail = nals.skip(1);
        let code = if long[0] {
            seq![0u8, 0u8, 0u8, 1u8]
        } else {
            seq![0u8, 0u8, 1u8]
        };
        assert(data =~= junk + code + (nals[0] + annexb_join_as(tail, long.skip(1))));
        lemma_first_code_in_range(data);
        let j = junk.len() as int + code.len() - 3;
        assert(code_at(data, j));
        let f = first_code(data)->0;
        if f < j {
            if f + 3 <= junk.len() {
                assert(code_at(junk, f));
            }
        }
        assert(f == j);
        assert(data.skip(j + 3) =~= nals[0] + annexb_join_as(tail, long.skip(1)));
        assert forall|i: int| 0 <= i < tail.len() implies is_clean_nal(#[trigger] tail[i]) && (
        tail[i].len() > 0 ==> tail[i].last() != 0) by {
            assert(is_clean_nal(nals[i + 1]));
        }
        assert(is_clean_nal(nals[0]));
        lemma_split_behind_any_code(nals[0], tail, long.skip(1));
        assert(seq![nals[0]] + tail =~= nals);
    }
}

proof fn lemma_first_of_type_is_first(nals: Seq<Seq<u8>>, nal_type: int)
    ensures
        match first_of_type(nals, nal_type) {
            Some(x) => exists|k: int|
                0 <= k < nals.len() && #[trigger] nals[k] == x && x.len() > 0 && x[0] % 32
                    == nal_type && forall|j: int|
                    0 <= j < k ==> (#[trigger] nals[j]).len() == 0 || nals[j][0] % 32 != nal_type,
            None => forall|j: int|
                0 <= j < nals.len() ==> (#[trigger] nals[j]).len() == 0 || nals[j][0] % 32
                    != nal_type,
        },
    decreases nals.len(),
{
    if nals.len() > 0 {
        if nals[0].len() > 0 && nals[0][0] as int % 32 == nal_type {
            assert(nals[0] == nals[0]);
        } else {
            let tail = nals.skip(1);
            lemma_first_of_type_is_first(tail, nal_type);
            match first_of_type(tail, nal_type) {
                Some(x) => {
                    let k = choose|k: int|
                        0 <= k < tail.len() && #[trigger] tail[k] == x && x.len() > 0 && x[0] % 32
                            == nal_type && forall|j: int|
                            0 <= j < k ==> (#[trigger] tail[j]).len() == 0 || tail[j][0] % 32
                                != nal_type;
                    assert(nals[k + 1] == x);
                    assert forall|j: int| 0 <= j < k + 1 implies (#[trigger] nals[j]).len() == 0
                        || nals[j][0] % 32 != nal_type by {
                        if j > 0 {
                            assert(nals[j] == tail[j - 1]);
                        }
                    }
                },
                None => {
                    assert forall|j: int| 0 <= j < nals.len() implies (
                    #[trigger] nals[j]).len() == 0 || nals[j][0] % 32 != nal_type by {
                        if j > 0 {
                            assert(nals[j] == tail[j - 1]);
                        }
                    }
                },
            }
        }
    }
}

/// The unit of a type: some unit's first five bits from the right name it.
pub open spec fn is_first_of_type(nals: Seq<Seq<u8>>, k: int, nal_type: int) -> bool {
    &&& 0 <= k < nals.len()
    &&& nals[k].len() > 0 && nals[k][0] % 32 == nal_type
    &&& forall|j: int|
        0 <= j < k ==> (#[trigger] nals[j]).len() == 0 || nals[j][0] % 32 != nal_type
}

/// The parameter sets of a bitstream are its first unit of type 7 and its first of
/// type 8. They are there exactly where both types are and the SPS has four bytes.
pub proof fn law_parameter_sets_are_first_of_their_type(data: Seq<u8>, s: int, p: int)
    requires
        is_first_of_type(annexb_nals(data), s, 7),
        is_first_of_type(annexb_nals(data), p, 8),
    ensures
        annexb_nals(data)[s].len() >= 4 ==> parameter_sets(data) == Some(
            (annexb_nals(data)[s], annexb_nals(data)[p]),
        ),
        annexb_nals(data)[s].len() < 4 ==> parameter_sets(data) is None,
{
    let nals = annexb_nals(data);
    lemma_first_of_type_is_first(nals, 7);
    lemma_first_of_type_is_first(nals, 8);
    assert(nals[s].len() > 0 && nals[p].len() > 0);
    let a = choose|k: int|
        0 <= k < nals.len() && #[trigger] nals[k] == first_of_type(nals, 7)->0 && nals[k].len() > 0
            && nals[k][0] % 32 == 7 && forall|j: int|
            0 <= j < k ==> (#[trigger] nals[j]).len() == 0 || nals[j][0] % 32 != 7;
    let b = choose|k: int|
        0 <= k < nals.len() && #[trigger] nals[k] == first_of_type(nals, 8)->0 && nals[k].len() > 0
            && nals[k][0] % 32 == 8 && forall|j: int|
            0 <= j < k ==> (#[trigger] nals[j]).len() == 0 || nals[j][0] % 32 != 8;
    assert(a == s);
    assert(b == p);
}

/// Without a unit of type 7 or without one of type 8 there are no parameter sets.
pub proof fn law_both_parameter_sets_are_needed(data: Seq<u8>, nal_type: int)
    requires
        nal_type == 7 || nal_type == 8,
        forall|j: int|
            0 <= j < annexb_nals(data).len() ==> (#[trigger] annexb_nals(data)[j]).len() == 0
                || annexb_nals(data)[j][0] % 32 != nal_type,
    ensures
        parameter_sets(data) is None,
{
    lemma_first_of_type_is_first(annexb_nals(data), nal_type);
}

} // verus!
