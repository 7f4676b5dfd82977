//! Cross-fade bookkeeping shared by the voice changer and its manager.
//!
//! When two consecutive audio blocks have the same length, the first
//! `overlap` samples of the new block are blended with the tail kept from
//! the previous block. The blend weights are floating point, so the caller
//! supplies the per-sample blend; everything else (which samples are
//! blended, what is kept for the next block) is decided here.
use vstd::prelude::*;

verus! {

/// One sample position of a cross-fade: the kept sample of the previous
/// block, the sample of the current block, the position in the fade, the
/// fade's length, and the two fade rates as `f32` bit patterns.
#[derive(Clone, Copy, Debug)]
pub struct CrossfadePoint {
    pub prev: i16,
    pub cur: i16,
    pub index: usize,
    pub size: usize,
    pub offset_rate_bits: u32,
    pub end_rate_bits: u32,
}

pub open spec fn min_nat(a: int, b: int) -> int {
    if a <= b { a } else { b }
}

/// Number of leading samples that are blended with the previous block.
pub open spec fn fade_len(prev_len: int, block_len: int, overlap: usize) -> int {
    if prev_len == block_len { min_nat(overlap as int, block_len) } else { 0 }
}

/// Number of trailing samples kept for the next block.
pub open spec fn keep_len(block_len: int, overlap: usize) -> int {
    min_nat(overlap as int, block_len)
}

pub open spec fn point_at(
    prev: Seq<i16>,
    cur: Seq<i16>,
    i: int,
    n: int,
    offset_rate_bits: u32,
    end_rate_bits: u32,
) -> CrossfadePoint {
    CrossfadePoint {
        prev: prev[i],
        cur: cur[i],
        index: i as usize,
        size: n as usize,
        offset_rate_bits,
        end_rate_bits,
    }
}

/// What one cross-fade step produces: `out` is `cur` with its first
/// `fade_len` samples replaced by blends, and `next_prev` is the tail of
/// `out` that the next block is faded against.
pub open spec fn crossfaded<F: Fn(CrossfadePoint) -> i16>(
    blend: F,
    prev: Seq<i16>,
    cur: Seq<i16>,
    overlap: usize,
    offset_rate_bits: u32,
    end_rate_bits: u32,
    out: Seq<i16>,
    next_prev: Seq<i16>,
) -> bool {
    let n = fade_len(prev.len() as int, cur.len() as int, overlap);
    let k = keep_len(cur.len() as int, overlap);
    &&& out.len() == cur.len()
    &&& forall|i: int|
        0 <= i < n ==> blend.ensures(
            (point_at(prev, cur, i, n, offset_rate_bits, end_rate_bits),),
            #[trigger] out[i],
        )
    &&& forall|i: int| n <= i < cur.len() ==> #[trigger] out[i] == cur[i]
    &&& next_prev == out.subrange(out.len() - k, out.len() as int)
}

/// A block is faded only against a kept tail of its own length, and the
/// tail kept after it is as long as the overlap allows.
pub proof fn law_fade_needs_matching_length<F: Fn(CrossfadePoint) -> i16>(
    blend: F,
    prev: Seq<i16>,
    cur: Seq<i16>,
    overlap: usize,
    offset_rate_bits: u32,
    end_rate_bits: u32,
    out: Seq<i16>,
    next_prev: Seq<i16>,
)
    requires
        crossfaded(blend, prev, cur, overlap, offset_rate_bits, end_rate_bits, out, next_prev),
    ensures
        prev.len() != cur.len() ==> out == cur,
        next_prev.len() == keep_len(cur.len() as int, overlap),
        forall|i: int| 0 <= i < next_prev.len() ==> next_prev[i] == out[out.len() - next_prev.len() + i],
{
    if prev.len() != cur.len() {
        assert(out =~= cur);
    }
}

/// One cross-fade step, stated over the overlap itself: the output has
/// the block's length; where the kept tail has the block's length, each of
/// the first `min(overlap, len)` samples is the blend of the kept sample
/// and the block's sample at that position, and every later sample is the
/// block's own; where the lengths differ the block comes out unchanged.
/// The tail kept for the next block is exactly the last
/// `min(overlap, len)` samples of the output.
pub proof fn law_crossfade_step<F: Fn(CrossfadePoint) -> i16>(
    blend: F,
    prev: Seq<i16>,
    cur: Seq<i16>,
    overlap: usize,
    offset_rate_bits: u32,
    end_rate_bits: u32,
    out: Seq<i16>,
    next_prev: Seq<i16>,
)
    requires
        crossfaded(blend, prev, cur, overlap, offset_rate_bits, end_rate_bits, out, next_prev),
    ensures
        ({
            let m: int = if (overlap as int) < cur.len() { overlap as int } else { cur.len() as int };
            &&& out.len() == cur.len()
            &&& next_prev == out.subrange(out.len() - m, out.len() as int)
            &&& prev.len() != cur.len() ==> out == cur
            &&& prev.len() == cur.len() ==> forall|i: int|
                0 <= i < m ==> blend.ensures(
                    (CrossfadePoint {
                        prev: prev[i],
                        cur: cur[i],
                        index: i as usize,
                        size: m as usize,
                        offset_rate_bits,
                        end_rate_bits,
                    },),
                    #[trigger] out[i],
                )
            &&& forall|i: int| m <= i < cur.len() ==> #[trigger] out[i] == cur[i]
        }),
{
    if prev.len() != cur.len() {
        assert(out =~= cur);
    }
}

/// Blends the head of `cur` with `prev` and replaces `prev` by the tail of
/// the result.
pub fn crossfade<F: Fn(CrossfadePoint) -> i16>(
    prev: &mut Vec<i16>,
    cur: Vec<i16>,
    overlap: usize,
    offset_rate_bits: u32,
    end_rate_bits: u32,
    blend: F,
) -> (out: Vec<i16>)
    requires
        forall|p: CrossfadePoint| blend.requires((p,)),
    ensures
        crossfaded(blend, old(prev)@, cur@, overlap, offset_rate_bits, end_rate_bits, out@, final(prev)@),
{
    let len = cur.len();
    let n: usize = if prev.len() == len {
        if overlap < len { overlap } else { len }
    } else {
        0
    };
    let ghost p0 = prev@;
    let mut out: Vec<i16> = Vec::new();
    let mut i: usize = 0;
    while i < len
        invariant
            len == cur.len(),
            n == fade_len(p0.len() as int, len as int, overlap),
            n <= len,
            n > 0 ==> p0.len() == len,
            prev@ == p0,
            i <= len,
            out.len() == i,
            forall|p: CrossfadePoint| blend.requires((p,)),
            forall|j: int|
                0 <= j < i && j < n ==> blend.ensures(
                    (point_at(p0, cur@, j, n as int, offset_rate_bits, end_rate_bits),),
                    #[trigger] out@[j],
                ),
            forall|j: int| n <= j < i ==> #[trigger] out@[j] == cur@[j],
        decreases len - i,
    {
        if i < n {
            let pt = CrossfadePoint {
                prev: prev[i],
                cur: cur[i],
                index: i,
                size: n,
                offset_rate_bits,
                end_rate_bits,
            };
            assert(pt == point_at(p0, cur@, i as int, n as int, offset_rate_bits, end_rate_bits));
            let v = blend(pt);
            out.push(v);
        } else {
            out.push(cur[i]);
        }
        i = i + 1;
    }
    let keep: usize = if overlap < len { overlap } else { len };
    let mut tail: Vec<i16> = Vec::new();
    let mut j: usize = len - keep;
    while j < len
        invariant
            len == out.len(),
            keep <= len,
            len - keep <= j <= len,
            tail@ == out@.subrange(len - keep, j as int),
        decreases len - j,
    {
        tail.push(out[j]);
        j = j + 1;
    }
    *prev = tail;
    out
}

} // verus!
