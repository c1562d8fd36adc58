//! Length bookkeeping for vectored writes.
//!
//! A `writev` call hands the kernel an array of (address, length) records,
//! one per segment, and on success reports the total number of bytes
//! written: the length of the concatenation of the segments.  The addresses
//! can only be produced by unverified code, but the lengths are the part
//! the kernel trusts blindly, so they are computed here with exact
//! contracts: each record's length equals its segment's byte length, and
//! the expected total equals the sum of those lengths, which is proved to
//! be the length of the concatenation.

use vstd::prelude::*;

verus! {

/// The byte sequences of a list of segments.
pub open spec fn byte_views(segs: Seq<Vec<u8>>) -> Seq<Seq<u8>> {
    segs.map_values(|v: Vec<u8>| v@)
}

/// The sum of the byte lengths of the segments.
pub open spec fn total_len(segs: Seq<Seq<u8>>) -> int
    decreases segs.len(),
{
    if segs.len() == 0 {
        0
    } else {
        total_len(segs.drop_last()) + segs.last().len()
    }
}

/// Dropping segments from the end can only shrink the sum of lengths.
pub proof fn lemma_total_len_prefix_le(segs: Seq<Seq<u8>>, i: int)
    requires
        0 <= i <= segs.len(),
    ensures
        total_len(segs.subrange(0, i)) <= total_len(segs),
    decreases segs.len(),
{
    if i == segs.len() {
        assert(segs.subrange(0, i) =~= segs);
    } else {
        assert(segs.drop_last().subrange(0, i) =~= segs.subrange(0, i));
        lemma_total_len_prefix_le(segs.drop_last(), i);
    }
}

/// The sum of the segments' lengths is exactly the length of their
/// concatenation: a vectored write and a write of the concatenated buffer
/// report the same byte count.
pub proof fn lemma_total_len_is_concat_len(segs: Seq<Seq<u8>>)
    ensures
        total_len(segs) == segs.flatten().len(),
    decreases segs.len(),
{
    segs.lemma_flatten_and_flatten_alt_are_equivalent();
    if segs.len() > 0 {
        lemma_total_len_is_concat_len(segs.drop_last());
        segs.drop_last().lemma_flatten_and_flatten_alt_are_equivalent();
    }
}

/// The sum of a list of length records.
pub open spec fn sum_lens(lens: Seq<u64>) -> int
    decreases lens.len(),
{
    if lens.len() == 0 {
        0
    } else {
        sum_lens(lens.drop_last()) + lens.last()
    }
}

/// The vectored-write law: when each length record carries its segment's
/// byte length, as `segment_lengths` ensures, the records sum to the length
/// of the segments' concatenation, which is the byte count a fully
/// successful `writev` of those records reports.
pub proof fn lemma_records_sum_to_concat_len(lens: Seq<u64>, segs: Seq<Seq<u8>>)
    requires
        lens.len() == segs.len(),
        forall|i: int| 0 <= i < segs.len() ==> lens[i] == segs[i].len(),
    ensures
        sum_lens(lens) == segs.flatten().len(),
    decreases segs.len(),
{
    if segs.len() == 0 {
        lemma_total_len_is_concat_len(segs);
    } else {
        lemma_records_sum_to_concat_len(lens.drop_last(), segs.drop_last());
        segs.lemma_flatten_and_flatten_alt_are_equivalent();
        segs.drop_last().lemma_flatten_and_flatten_alt_are_equivalent();
    }
}

/// The length record for each segment, in order: entry `i` is the byte
/// length of segment `i`, exactly what an iovec record must carry.
pub fn segment_lengths(segs: &Vec<Vec<u8>>) -> (lens: Vec<u64>)
    ensures
        lens@.len() == segs@.len(),
        forall|i: int| 0 <= i < segs@.len() ==> lens@[i] == segs@[i]@.len(),
{
    let mut lens: Vec<u64> = Vec::new();
    let mut i: usize = 0;
    while i < segs.len()
        invariant
            i <= segs.len(),
            lens@.len() == i,
            forall|j: int| 0 <= j < i ==> lens@[j] == segs@[j]@.len(),
        decreases segs.len() - i,
    {
        lens.push(segs[i].len() as u64);
        i = i + 1;
    }
    lens
}

/// The total byte count a fully successful vectored write of `segs` must
/// report: the sum of the segments' lengths.  Returns `None` exactly when
/// that sum does not fit in the kernel's 64-bit length word.
pub fn total_length(segs: &Vec<Vec<u8>>) -> (r: Option<u64>)
    ensures
        match r {
            Some(t) => t == total_len(byte_views(segs@)),
            None => total_len(byte_views(segs@)) > u64::MAX,
        },
{
    let ghost views = byte_views(segs@);
    let mut total: u64 = 0;
    let mut i: usize = 0;
    while i < segs.len()
        invariant
            i <= segs.len(),
            views == byte_views(segs@),
            views.len() == segs@.len(),
            forall|j: int| 0 <= j < segs@.len() ==> views[j] == segs@[j]@,
            total == total_len(views.subrange(0, i as int)),
        decreases segs.len() - i,
    {
        let l: u64 = segs[i].len() as u64;
        proof {
            assert(views.subrange(0, i + 1).drop_last() =~= views.subrange(0, i as int));
            assert(views.subrange(0, i + 1).last() == segs@[i as int]@);
        }
        if l > u64::MAX - total {
            proof {
                lemma_total_len_prefix_le(views, i + 1);
            }
            return None;
        }
        total = total + l;
        i = i + 1;
    }
    proof {
        assert(views.subrange(0, views.len() as int) =~= views);
    }
    Some(total)
}

/// The concatenation of the segments, in order: the byte sequence that a
/// fully successful vectored write of `segs` puts on the stream.
pub fn concat_segments(segs: &Vec<Vec<u8>>) -> (out: Vec<u8>)
    ensures
        out@ == byte_views(segs@).flatten(),
{
    let ghost views = byte_views(segs@);
    let mut out: Vec<u8> = Vec::new();
    let mut i: usize = 0;
    while i < segs.len()
        invariant
            i <= segs.len(),
            views == byte_views(segs@),
            views.len() == segs@.len(),
            forall|j: int| 0 <= j < segs@.len() ==> views[j] == segs@[j]@,
            out@ == views.subrange(0, i as int).flatten(),
        decreases segs.len() - i,
    {
        let ghost seg = segs@[i as int]@;
        let mut k: usize = 0;
        let ghost out0 = out@;
        while k < segs[i].len()
            invariant
                i < segs.len(),
                seg == segs@[i as int]@,
                k <= seg.len(),
                out@ == out0 + seg.subrange(0, k as int),
            decreases seg.len() - k,
        {
            let b: u8 = segs[i][k];
            out.push(b);
            proof {
                assert(seg.subrange(0, k + 1) =~= seg.subrange(0, k as int).push(b));
            }
            k = k + 1;
        }
        proof {
            assert(seg.subrange(0, seg.len() as int) =~= seg);
            assert(views.subrange(0, i + 1) =~= views.subrange(0, i as int).push(seg));
            views.subrange(0, i as int).lemma_flatten_push(seg);
            assert(out@ =~= views.subrange(0, i + 1).flatten());
        }
        i = i + 1;
    }
    proof {
        assert(views.subrange(0, views.len() as int) =~= views);
    }
    out
}

} // verus!
