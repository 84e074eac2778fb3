use vstd::prelude::*;

use crate::extract::{
    body_from, bundle_spec, classify_spec, extract_spec, head_count, head_from, tail_from, tail_stamp,
    tail_start, Classification, TimeWindow,
};
use crate::stamp::{stamp_of, Instant, Stamp};

verus! {

/// `idx` lists, in increasing order, positions of `s` at or after `lo`
/// that hold the lines of `r`, one for each.
pub open spec fn picks(r: Seq<Seq<char>>, s: Seq<Seq<char>>, idx: Seq<int>, lo: int) -> bool {
    &&& idx.len() == r.len()
    &&& forall|k: int| 0 <= k < idx.len() ==> lo <= #[trigger] idx[k] < s.len() && r[k] == s[idx[k]]
    &&& forall|k: int, l: int| 0 <= k < l < idx.len() ==> idx[k] < idx[l]
}

pub(crate) proof fn lemma_head_agrees(a: Seq<Seq<char>>, b: Seq<Seq<char>>, i: int, h: int)
    requires
        0 <= i <= h < a.len(),
        h < b.len(),
        a.subrange(0, h + 1) == b.subrange(0, h + 1),
        head_from(a, i) == h,
    ensures
        head_from(b, i) == h,
    decreases h - i,
{
    assert(a[i] == a.subrange(0, h + 1)[i]);
    assert(b[i] == b.subrange(0, h + 1)[i]);
    lemma_head_is_marked(a, i + 1);
    if i < h {
        lemma_head_agrees(a, b, i + 1, h);
    }
}

proof fn lemma_tail_agrees(a: Seq<Seq<char>>, b: Seq<Seq<char>>, lo: int, j: int, n: int)
    requires
        0 <= lo <= j <= n,
        a.len() == n,
        b.len() == n,
        a.subrange(lo, n) == b.subrange(lo, n),
    ensures
        tail_from(a, lo, j) == tail_from(b, lo, j),
    decreases j - lo,
{
    if j > lo {
        assert(a[j - 1] == a.subrange(lo, n)[j - 1 - lo]);
        assert(b[j - 1] == b.subrange(lo, n)[j - 1 - lo]);
        lemma_tail_agrees(a, b, lo, j - 1, n);
    }
}

pub(crate) proof fn lemma_head_is_marked(a: Seq<Seq<char>>, i: int)
    requires
        0 <= i,
    ensures
        i <= head_from(a, i) <= a.len() || (i > a.len() && head_from(a, i) == a.len()),
        head_from(a, i) < a.len() ==> !(stamp_of(a[head_from(a, i)]) is Plain),
    decreases a.len() - i,
{
    if i < a.len() && stamp_of(a[i]) is Plain {
        lemma_head_is_marked(a, i + 1);
    }
}

/// A skipped file is decided by its lines up to and including the first
/// timestamped one and by the lines of the tail probe: any file of the same
/// length that agrees with it there is skipped too and yields nothing, so no
/// other line needs to be read.
pub proof fn lemma_skip_reads_head_and_tail(a: Seq<Seq<char>>, b: Seq<Seq<char>>, w: TimeWindow)
    requires
        classify_spec(a, w) == Some(Classification::Skip),
        a.len() == b.len(),
        head_count(a) < a.len() ==> a.subrange(0, head_count(a) + 1) == b.subrange(
            0,
            head_count(a) + 1,
        ),
        a.subrange(tail_start(a.len() as int), a.len() as int) == b.subrange(
            tail_start(a.len() as int),
            a.len() as int,
        ),
    ensures
        classify_spec(b, w) == Some(Classification::Skip),
        extract_spec(b, w) == Some(Seq::<Seq<char>>::empty()),
{
    let h = head_count(a);
    lemma_head_is_marked(a, 0);
    assert(h < a.len());
    lemma_head_agrees(a, b, 0, h);
    assert(a[h] == a.subrange(0, h + 1)[h]);
    assert(b[h] == b.subrange(0, h + 1)[h]);
    lemma_tail_agrees(a, b, tail_start(a.len() as int), a.len() as int, a.len() as int);
}

/// A file whose first timestamp is after the window yields nothing, and
/// that is decided by its lines up to that timestamp alone: whatever
/// follows, any file that starts with the same lines yields nothing.
pub proof fn lemma_starts_after_window(a: Seq<Seq<char>>, b: Seq<Seq<char>>, w: TimeWindow, t: Instant)
    requires
        head_count(a) < a.len(),
        stamp_of(a[head_count(a)]) == Stamp::At(t),
        w.end.spec_before(t),
        head_count(a) < b.len(),
        a.subrange(0, head_count(a) + 1) == b.subrange(0, head_count(a) + 1),
    ensures
        classify_spec(a, w) == Some(Classification::Skip),
        extract_spec(a, w) == Some(Seq::<Seq<char>>::empty()),
        classify_spec(b, w) == Some(Classification::Skip),
        extract_spec(b, w) == Some(Seq::<Seq<char>>::empty()),
{
    let h = head_count(a);
    lemma_head_is_marked(a, 0);
    lemma_head_agrees(a, b, 0, h);
    assert(a[h] == a.subrange(0, h + 1)[h]);
    assert(b[h] == b.subrange(0, h + 1)[h]);
}

/// A file that starts before the window and whose tail probe finds a
/// timestamp before the window yields nothing, without a scan from its start.
pub proof fn lemma_ends_before_window(a: Seq<Seq<char>>, w: TimeWindow, t: Instant, u: Instant)
    requires
        head_count(a) < a.len(),
        stamp_of(a[head_count(a)]) == Stamp::At(t),
        t.spec_before(w.start),
        tail_stamp(a) == Stamp::At(u),
        u.spec_before(w.start),
    ensures
        classify_spec(a, w) == Some(Classification::Skip),
        extract_spec(a, w) == Some(Seq::<Seq<char>>::empty()),
{
}

/// A file of one line stamped `t` gives that line for the window `[t, t]`,
/// and nothing for a window that ends before `t`.
pub proof fn lemma_single_line(a: Seq<Seq<char>>, t: Instant, w: TimeWindow)
    requires
        a.len() == 1,
        stamp_of(a[0]) == Stamp::At(t),
    ensures
        extract_spec(a, TimeWindow { start: t, end: t }) == Some(a),
        w.end.spec_before(t) ==> extract_spec(a, w) == Some(Seq::<Seq<char>>::empty()),
{
    let tw = TimeWindow { start: t, end: t };
    assert(head_from(a, 0) == 0);
    assert(tail_start(1) == 0);
    assert(body_from(a, 1, tw) == Some(Seq::<Seq<char>>::empty()));
    assert(seq![a[0]] + Seq::<Seq<char>>::empty() =~= a);
}

proof fn lemma_body_picks(a: Seq<Seq<char>>, i: int, w: TimeWindow) -> (idx: Seq<int>)
    requires
        0 <= i,
        body_from(a, i, w) is Some,
    ensures
        picks(body_from(a, i, w)->0, a, idx, i),
    decreases a.len() - i,
{
    if i >= a.len() {
        Seq::empty()
    } else {
        let r = body_from(a, i, w)->0;
        match stamp_of(a[i]) {
            Stamp::At(t) => {
                if t.spec_before(w.start) {
                    lemma_body_picks(a, i + 1, w)
                } else if w.end.spec_before(t) {
                    Seq::empty()
                } else {
                    let rest = lemma_body_picks(a, i + 1, w);
                    let idx = seq![i] + rest;
                    assert(r == seq![a[i]] + body_from(a, i + 1, w)->0);
                    assert forall|k: int| 0 <= k < idx.len() implies i <= #[trigger] idx[k] < a.len()
                        && r[k] == a[idx[k]] by {
                        if k > 0 {
                            assert(idx[k] == rest[k - 1]);
                        }
                    }
                    assert forall|k: int, l: int| 0 <= k < l < idx.len() implies idx[k] < idx[l] by {
                        if k > 0 {
                            assert(idx[k] == rest[k - 1]);
                        }
                        assert(idx[l] == rest[l - 1]);
                    }
                    idx
                }
            },
            _ => {
                let rest = lemma_body_picks(a, i + 1, w);
                let idx = seq![i] + rest;
                assert(r == seq![a[i]] + body_from(a, i + 1, w)->0);
                assert forall|k: int| 0 <= k < idx.len() implies i <= #[trigger] idx[k] < a.len()
                    && r[k] == a[idx[k]] by {
                    if k > 0 {
                        assert(idx[k] == rest[k - 1]);
                    }
                }
                assert forall|k: int, l: int| 0 <= k < l < idx.len() implies idx[k] < idx[l] by {
                    if k > 0 {
                        assert(idx[k] == rest[k - 1]);
                    }
                    assert(idx[l] == rest[l - 1]);
                }
                idx
            },
        }
    }
}

/// The lines taken from a file are lines of that file, in their order,
/// each taken at most once.
pub proof fn lemma_extract_is_subsequence(a: Seq<Seq<char>>, w: TimeWindow)
    requires
        extract_spec(a, w) is Some,
    ensures
        exists|idx: Seq<int>| #[trigger] picks(extract_spec(a, w)->0, a, idx, 0),
{
    match classify_spec(a, w) {
        Some(Classification::Skip) => {
            assert(picks(extract_spec(a, w)->0, a, Seq::<int>::empty(), 0));
        },
        Some(Classification::ScanFromStart(h)) => {
            let idx = lemma_body_picks(a, h as int, w);
            assert(picks(extract_spec(a, w)->0, a, idx, 0));
        },
        Some(Classification::ScanAfterTailProbe(h)) => {
            let idx = lemma_body_picks(a, h as int, w);
            assert(picks(extract_spec(a, w)->0, a, idx, 0));
        },
        None => {},
    }
}

/// Extracting twice from the same files with the same window gives the same
/// bundle: the bundle is a function of the files' lines and the window.
pub proof fn lemma_bundle_repeatable(
    first: Seq<Seq<Seq<char>>>,
    second: Seq<Seq<Seq<char>>>,
    w: TimeWindow,
)
    requires
        first == second,
    ensures
        bundle_spec(first, w) == bundle_spec(second, w),
{
}

} // verus!
