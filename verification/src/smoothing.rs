//! The smoothing stage: a deterministic moving average over each decoded
//! frame, window size 3, clipped at the sequence boundaries (the first and
//! last bars average a 2-element window; a single-bar frame is unchanged).
//! The average uses truncating integer division.

use vstd::prelude::*;

verus! {

/// First index of the window centred on bar `i`.
pub open spec fn window_start(i: int) -> int {
    if i == 0 {
        0
    } else {
        i - 1
    }
}

/// One past the last index of the window centred on bar `i` in a frame of
/// `n` bars.
pub open spec fn window_end(i: int, n: int) -> int {
    if i + 2 <= n {
        i + 2
    } else {
        n
    }
}

/// Sum of the magnitudes at indices `lo..hi`.
pub open spec fn range_sum(s: Seq<u16>, lo: int, hi: int) -> int
    decreases hi - lo,
{
    if lo >= hi {
        0
    } else {
        range_sum(s, lo, hi - 1) + s[hi - 1]
    }
}

/// The smoothed value of bar `i`: the integer average of its clipped window.
pub open spec fn smoothed_at(s: Seq<u16>, i: int) -> u16 {
    (range_sum(s, window_start(i), window_end(i, s.len() as int)) / (window_end(
        i,
        s.len() as int,
    ) - window_start(i))) as u16
}

/// The smoothed frame: same length, each bar averaged over its window.
pub open spec fn smoothed(s: Seq<u16>) -> Seq<u16> {
    Seq::new(s.len(), |i: int| smoothed_at(s, i))
}

/// A range sum of 16-bit values is bounded by the range's width times the
/// largest 16-bit value.
proof fn lemma_range_sum_bounds(s: Seq<u16>, lo: int, hi: int)
    requires
        0 <= lo <= hi,
        hi <= s.len(),
    ensures
        0 <= range_sum(s, lo, hi) <= (hi - lo) * 65535,
    decreases hi - lo,
{
    if lo < hi {
        lemma_range_sum_bounds(s, lo, hi - 1);
        assert((hi - lo) * 65535 == (hi - 1 - lo) * 65535 + 65535) by (nonlinear_arith);
    }
}

/// Applies the clipped moving average to one frame.
pub fn smooth_frame(data: &Vec<u16>) -> (out: Vec<u16>)
    ensures
        out@ == smoothed(data@),
        out@.len() == data@.len(),
{
    let n = data.len();
    let mut out: Vec<u16> = Vec::new();
    let mut i: usize = 0;
    while i < n
        invariant
            i <= n,
            n == data@.len(),
            out@ == smoothed(data@).take(i as int),
        decreases n - i,
    {
        let start = if i == 0 {
            0
        } else {
            i - 1
        };
        let end = if n - i >= 2 {
            i + 2
        } else {
            n
        };
        let mut sum: u32 = 0;
        let mut j = start;
        while j < end
            invariant
                start <= j <= end,
                window_start(i as int) == start,
                window_end(i as int, data@.len() as int) == end,
                end <= n == data@.len(),
                end - start <= 3,
                sum == range_sum(data@, start as int, j as int),
            decreases end - j,
        {
            proof {
                lemma_range_sum_bounds(data@, start as int, j as int);
            }
            sum = sum + data[j] as u32;
            j = j + 1;
        }
        proof {
            lemma_range_sum_bounds(data@, start as int, end as int);
            vstd::arithmetic::div_mod::lemma_div_is_ordered(
                sum as int,
                (end - start) * 65535,
                (end - start) as int,
            );
            vstd::arithmetic::div_mod::lemma_div_multiples_vanish(
                65535,
                (end - start) as int,
            );
        }
        let avg: u32 = sum / (end - start) as u32;
        out.push(avg as u16);
        proof {
            assert(out@ =~= smoothed(data@).take(i + 1));
        }
        i = i + 1;
    }
    proof {
        assert(out@ =~= smoothed(data@));
    }
    out
}

/// Smoothing a flat frame changes nothing: if every bar holds the same
/// magnitude, the smoothed frame equals the input, so smoothing a flat
/// frame any number of times leaves it unchanged.
pub proof fn lemma_smooth_flat(s: Seq<u16>, c: u16)
    requires
        forall|i: int| 0 <= i < s.len() ==> s[i] == c,
    ensures
        smoothed(s) == s,
{
    assert forall|i: int| 0 <= i < s.len() implies smoothed(s)[i] == s[i] by {
        let lo = window_start(i);
        let hi = window_end(i, s.len() as int);
        lemma_range_sum_flat(s, c, lo, hi);
        vstd::arithmetic::div_mod::lemma_div_multiples_vanish(c as int, hi - lo);
    }
    assert(smoothed(s) =~= s);
}

/// Sum of a flat range is the width times the common magnitude.
proof fn lemma_range_sum_flat(s: Seq<u16>, c: u16, lo: int, hi: int)
    requires
        0 <= lo <= hi <= s.len(),
        forall|i: int| 0 <= i < s.len() ==> s[i] == c,
    ensures
        range_sum(s, lo, hi) == (hi - lo) * c,
    decreases hi - lo,
{
    if lo < hi {
        lemma_range_sum_flat(s, c, lo, hi - 1);
        assert((hi - lo) * c == (hi - 1 - lo) * c + c) by (nonlinear_arith);
        assert(range_sum(s, lo, hi) == range_sum(s, lo, hi - 1) + s[hi - 1]);
    } else {
        assert((hi - lo) * c == 0) by (nonlinear_arith)
            requires
                hi == lo,
        ;
    }
}

/// A single-bar frame is unchanged by smoothing: its window holds only the
/// bar itself.
pub proof fn lemma_smooth_single(s: Seq<u16>)
    requires
        s.len() == 1,
    ensures
        smoothed(s) == s,
{
    assert(range_sum(s, 0, 1) == range_sum(s, 0, 0) + s[0]);
    vstd::arithmetic::div_mod::lemma_div_basics(s[0] as int);
    assert(smoothed(s) =~= s);
}

} // verus!
