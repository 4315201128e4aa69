//! Proved laws of the cleaning passes.
//!
//! Each public proof function here states a property of the merge engine
//! over the mathematical document model: idempotence, conservation of the
//! total frame count, the barrier behavior of non-frame-bulk lines, and the
//! strictness of frame-time comparison.

use vstd::prelude::*;

use crate::cleaners::{absorbed_at, bump_last, bumped, count_of, lemma_merged_last,
    lemma_merged_len, merged, mergeable, pair_absorbable};
use crate::types::{doc_wf, FrameBulkView, LineView};

verus! {

/// The total number of frames carried by a document: the sum of the frame
/// counts of its frame bulks.
pub open spec fn total_frames(s: Seq<LineView>) -> nat
    decreases s.len(),
{
    if s.len() == 0 {
        0
    } else {
        total_frames(s.drop_last()) + count_of(s.last())
    }
}

/// A document with no absorbable pair of adjacent lines.
pub open spec fn no_adjacent_mergeable(s: Seq<LineView>) -> bool {
    forall|i: int| !absorbed_at(s, i)
}

/// The merge engine leaves no absorbable pair behind.
proof fn lemma_merged_no_adjacent(s: Seq<LineView>)
    ensures
        no_adjacent_mergeable(merged(s)),
    decreases s.len(),
{
    if s.len() == 0 {
    } else {
        let u = s.drop_last();
        let m = merged(s);
        let mu = merged(u);
        lemma_merged_no_adjacent(u);
        if absorbed_at(s, s.len() - 1) {
            lemma_merged_last(u);
            assert(u.last() == s[s.len() - 2]);
            assert(m == bump_last(mu, count_of(s.last())));
            assert forall|i: int| !absorbed_at(m, i) by {
                if 0 < i < m.len() {
                    if i < m.len() - 1 {
                        assert(m[i - 1] == mu[i - 1] && m[i] == mu[i]);
                        assert(!absorbed_at(mu, i));
                    } else {
                        assert(m[i - 1] == mu[i - 1]);
                        assert(m[i] == bumped(mu[i], count_of(s.last())));
                        assert(!absorbed_at(mu, i));
                    }
                }
            }
        } else {
            assert(m == mu.push(s.last()));
            assert forall|i: int| !absorbed_at(m, i) by {
                if 0 < i < m.len() {
                    if i < m.len() - 1 {
                        assert(m[i - 1] == mu[i - 1] && m[i] == mu[i]);
                        assert(!absorbed_at(mu, i));
                    } else {
                        if u.len() > 0 {
                            lemma_merged_last(u);
                            assert(m[i - 1] == mu.last());
                            assert(m[i] == s.last());
                            assert(u.last() == s[s.len() - 2]);
                            assert(!pair_absorbable(s[s.len() - 2], s.last()));
                        }
                    }
                }
            }
        }
    }
}

/// On a document with no absorbable pair, the merge engine is the identity.
proof fn lemma_merged_identity(s: Seq<LineView>)
    requires
        no_adjacent_mergeable(s),
    ensures
        merged(s) == s,
    decreases s.len(),
{
    if s.len() == 0 {
        assert(merged(s) =~= s);
    } else {
        let u = s.drop_last();
        assert(forall|i: int| absorbed_at(u, i) ==> absorbed_at(s, i));
        lemma_merged_identity(u);
        assert(!absorbed_at(s, s.len() - 1));
        assert(merged(s) == u.push(s.last()));
        assert(u.push(s.last()) =~= s);
    }
}

/// Idempotence of merge: running the merge engine on an already-merged
/// document changes nothing, so running it twice equals running it once.
pub proof fn lemma_merge_idempotent(s: Seq<LineView>)
    ensures
        merged(merged(s)) == merged(s),
{
    lemma_merged_no_adjacent(s);
    lemma_merged_identity(merged(s));
}

/// Count conservation: the merge engine redistributes frame counts onto
/// fewer lines but never creates or destroys frames.
pub proof fn lemma_merge_count_conservation(s: Seq<LineView>)
    ensures
        total_frames(merged(s)) == total_frames(s),
    decreases s.len(),
{
    if s.len() == 0 {
    } else {
        let u = s.drop_last();
        let mu = merged(u);
        lemma_merge_count_conservation(u);
        if absorbed_at(s, s.len() - 1) {
            lemma_merged_last(u);
            let c = count_of(s.last());
            let m = bump_last(mu, c);
            assert(m.drop_last() =~= mu.drop_last());
            assert(count_of(m.last()) == count_of(mu.last()) + c);
            assert(total_frames(m) == total_frames(mu.drop_last()) + count_of(mu.last()) + c);
        } else {
            assert(merged(s).drop_last() =~= mu);
        }
    }
}

/// The merge engine preserves well-formedness: every frame bulk of the
/// merged document still has a strictly positive frame count.
pub proof fn lemma_merged_preserves_wf(s: Seq<LineView>)
    requires
        doc_wf(s),
    ensures
        doc_wf(merged(s)),
    decreases s.len(),
{
    if s.len() > 0 {
        let u = s.drop_last();
        assert(forall|i: int| 0 <= i < u.len() ==> u[i] == s[i]);
        lemma_merged_preserves_wf(u);
        let mu = merged(u);
        if absorbed_at(s, s.len() - 1) {
            lemma_merged_len(u);
            lemma_merged_last(u);
            let m = bump_last(mu, count_of(s.last()));
            assert forall|i: int|
                0 <= i < m.len() implies (#[trigger] m[i] matches LineView::FrameBulk(fb)
                ==> fb.frame_count >= 1) by {
                if i < m.len() - 1 {
                    assert(m[i] == mu[i]);
                } else {
                    assert(m[i] == bumped(mu.last(), count_of(s.last())));
                }
            }
        } else {
            let m = mu.push(s.last());
            assert forall|i: int|
                0 <= i < m.len() implies (#[trigger] m[i] matches LineView::FrameBulk(fb)
                ==> fb.frame_count >= 1) by {
                if i < m.len() - 1 {
                    assert(m[i] == mu[i]);
                } else {
                    assert(m[i] == s.last());
                    assert(s.last() == s[s.len() - 1]);
                }
            }
        }
    }
}

/// Non-frame-bulk lines are barriers: the merge of a document splits at any
/// line that is not a frame bulk, which is kept as is and absorbs nothing
/// across it.
pub proof fn lemma_barrier_splits_merge(s: Seq<LineView>, i: int)
    requires
        0 <= i < s.len(),
        !(s[i] is FrameBulk),
    ensures
        merged(s) == merged(s.take(i)) + seq![s[i]] + merged(s.skip(i + 1)),
    decreases s.len(),
{
    if i == s.len() - 1 {
        assert(s.take(i) =~= s.drop_last());
        assert(s.skip(i + 1).len() == 0);
        assert(merged(s.skip(i + 1)) =~= Seq::<LineView>::empty());
        assert(!absorbed_at(s, s.len() - 1));
        assert(merged(s) == merged(s.drop_last()).push(s.last()));
        assert(merged(s) =~= merged(s.take(i)) + seq![s[i]] + merged(s.skip(i + 1)));
    } else {
        let u = s.drop_last();
        let x = s.last();
        assert(u[i] == s[i]);
        lemma_barrier_splits_merge(u, i);
        assert(u.take(i) =~= s.take(i));
        let v = s.skip(i + 1);
        assert(u.skip(i + 1) =~= v.drop_last());
        assert(v.last() == x);
        if absorbed_at(s, s.len() - 1) {
            assert(v.len() >= 2) by {
                if v.len() == 1 {
                    assert(s[s.len() - 2] == s[i]);
                }
            }
            assert(v[v.len() - 2] == s[s.len() - 2]);
            assert(absorbed_at(v, v.len() - 1));
            let c = count_of(x);
            let mw = merged(u.skip(i + 1));
            lemma_merged_len(u.skip(i + 1));
            assert(merged(s) == bump_last(merged(u), c));
            assert(merged(v) == bump_last(mw, c));
            assert(bump_last(merged(s.take(i)) + seq![s[i]] + mw, c) =~= merged(s.take(i)) + seq![
                s[i],
            ] + bump_last(mw, c));
        } else {
            if v.len() >= 2 {
                assert(v[v.len() - 2] == s[s.len() - 2]);
            }
            assert(!absorbed_at(v, v.len() - 1));
            assert(merged(s) == merged(u).push(x));
            assert(merged(v) == merged(v.drop_last()).push(x));
            assert(merged(u).push(x) =~= merged(s.take(i)) + seq![s[i]] + merged(v));
        }
    }
}

/// Non-adjacency non-merge: a comment or directive line interposed between
/// two frame bulks prevents their merge even when the bulks are identical;
/// the three lines come through the merge engine untouched.
pub proof fn lemma_interposed_line_blocks_merge(a: FrameBulkView, c: LineView, b: FrameBulkView)
    requires
        !(c is FrameBulk),
    ensures
        merged(seq![LineView::FrameBulk(a), c, LineView::FrameBulk(b)]) == seq![
            LineView::FrameBulk(a),
            c,
            LineView::FrameBulk(b),
        ],
{
    let s = seq![LineView::FrameBulk(a), c, LineView::FrameBulk(b)];
    assert(!absorbed_at(s, 1));
    assert(!absorbed_at(s, 2));
    lemma_merged_identity(s);
}

/// Strict equality on frame time: frame bulks whose frame times differ by
/// anything at all, however small, are never merged.
pub proof fn lemma_frame_time_strict(a: FrameBulkView, b: FrameBulkView)
    requires
        a.frame_time != b.frame_time,
    ensures
        !mergeable(a, b),
        merged(seq![LineView::FrameBulk(a), LineView::FrameBulk(b)]) == seq![
            LineView::FrameBulk(a),
            LineView::FrameBulk(b),
        ],
{
    let s = seq![LineView::FrameBulk(a), LineView::FrameBulk(b)];
    assert(!absorbed_at(s, 1));
    lemma_merged_identity(s);
}

} // verus!
