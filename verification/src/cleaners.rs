//! The cleaning passes over a script document.
//!
//! Two passes live here: the merge engine, which collapses maximal runs of
//! consecutive, behaviorally-identical frame bulks into one line while
//! summing their frame counts, and the comment stripper, which removes every
//! comment line. Both report the indices they touched; indices refer to the
//! document as it stood before the pass ran.

use vstd::prelude::*;

use crate::types::{bytes_eq, doc_view, duplicate_line, opt_bytes_eq, opt_u32_eq, FrameBulk,
    FrameBulkView, Line, LineView};

verus! {

/// What a pass did to the document.
///
/// `lines_changed` holds the indices of the lines a pass modified and
/// `lines_removed` the indices of the lines it deleted, both ascending and
/// both referring to the document as it stood when the pass started.
#[derive(Debug, Default, PartialEq)]
pub struct CleanerResult {
    pub lines_changed: Vec<usize>,
    pub lines_removed: Vec<usize>,
}

/// A fatal condition detected by a pass, with the index of the offending
/// line.
#[derive(Debug, Clone, Copy, PartialEq, Eq, Structural)]
pub enum CleanerError {
    /// Summing merged frame counts would exceed the representable maximum.
    CountOverflow { index: usize },
    /// An angle field holds a non-finite value and cannot be normalized.
    NonFiniteAngle { index: usize },
}

/// Two frame bulks are mergeable when every setting except the frame count is
/// equal by value: flags, auto-action descriptor, pitch bits, console command
/// bytes and frame-time bytes must all match exactly.
pub open spec fn mergeable(a: FrameBulkView, b: FrameBulkView) -> bool {
    &&& a.auto_actions == b.auto_actions
    &&& a.movement_keys == b.movement_keys
    &&& a.action_keys == b.action_keys
    &&& a.frame_time == b.frame_time
    &&& a.pitch == b.pitch
    &&& a.console_command == b.console_command
}

/// A line is absorbed into its immediate predecessor when both are frame
/// bulks and they are mergeable. Any other kind of line in between breaks the
/// pair.
pub open spec fn pair_absorbable(prev: LineView, cur: LineView) -> bool {
    &&& prev matches LineView::FrameBulk(p)
    &&& cur matches LineView::FrameBulk(q)
    &&& mergeable(p, q)
}

/// Whether the line at index `i` of `s` is absorbed into its predecessor by
/// the merge engine.
pub open spec fn absorbed_at(s: Seq<LineView>, i: int) -> bool {
    &&& 0 < i < s.len()
    &&& pair_absorbable(s[i - 1], s[i])
}

/// The frame count carried by a line: the count of a frame bulk, zero for
/// every other kind.
pub open spec fn count_of(l: LineView) -> nat {
    match l {
        LineView::FrameBulk(fb) => fb.frame_count,
        _ => 0,
    }
}

/// A frame bulk with `c` more frames; any other line kind unchanged.
pub open spec fn bumped(l: LineView, c: nat) -> LineView {
    match l {
        LineView::FrameBulk(fb) => LineView::FrameBulk(
            FrameBulkView { frame_count: fb.frame_count + c, ..fb },
        ),
        _ => l,
    }
}

/// `s` with `c` more frames on its last line.
pub open spec fn bump_last(s: Seq<LineView>, c: nat) -> Seq<LineView> {
    s.update(s.len() - 1, bumped(s.last(), c))
}

/// The document after the merge engine: scanning left to right, a frame bulk
/// that is mergeable with its immediate predecessor frame bulk is folded into
/// the run head, adding its frame count; every other line is kept as is.
pub open spec fn merged(s: Seq<LineView>) -> Seq<LineView>
    decreases s.len(),
{
    if s.len() == 0 {
        Seq::empty()
    } else {
        let prev = merged(s.drop_last());
        if absorbed_at(s, s.len() - 1) {
            bump_last(prev, count_of(s.last()))
        } else {
            prev.push(s.last())
        }
    }
}

/// The ascending list of original indices of the lines the merge engine
/// removes: every line absorbed into its predecessor.
pub open spec fn removed_indices(s: Seq<LineView>) -> Seq<int>
    decreases s.len(),
{
    if s.len() == 0 {
        Seq::empty()
    } else {
        let prev = removed_indices(s.drop_last());
        if absorbed_at(s, s.len() - 1) {
            prev.push(s.len() - 1)
        } else {
            prev
        }
    }
}

/// The ascending list of original indices of the lines the merge engine
/// rewrites: the head of every run that absorbs at least one line.
pub open spec fn changed_indices(s: Seq<LineView>) -> Seq<int>
    decreases s.len(),
{
    if s.len() == 0 {
        Seq::empty()
    } else {
        let prev = changed_indices(s.drop_last());
        if absorbed_at(s, s.len() - 1) && !absorbed_at(s, s.len() - 2) {
            prev.push(s.len() - 2)
        } else {
            prev
        }
    }
}

/// Whether folding the line at index `i` into its run head pushes the
/// accumulated frame count of the run past `u32::MAX`.
pub open spec fn overflow_at(s: Seq<LineView>, i: int) -> bool {
    &&& absorbed_at(s, i)
    &&& count_of(merged(s.take(i + 1)).last()) > u32::MAX
}

/// The document after the comment stripper: every comment line removed, all
/// other lines kept in order.
pub open spec fn stripped(s: Seq<LineView>) -> Seq<LineView>
    decreases s.len(),
{
    if s.len() == 0 {
        Seq::empty()
    } else {
        let prev = stripped(s.drop_last());
        if s.last() is Comment {
            prev
        } else {
            prev.push(s.last())
        }
    }
}

/// The ascending list of indices of the comment lines of `s`.
pub open spec fn comment_indices(s: Seq<LineView>) -> Seq<int>
    decreases s.len(),
{
    if s.len() == 0 {
        Seq::empty()
    } else {
        let prev = comment_indices(s.drop_last());
        if s.last() is Comment {
            prev.push(s.len() - 1)
        } else {
            prev
        }
    }
}

/// A sequence of `usize` indices, as mathematical integers.
pub open spec fn as_ints(v: Seq<usize>) -> Seq<int> {
    Seq::new(v.len(), |k: int| v[k] as int)
}

proof fn lemma_as_ints_push(v: Seq<usize>, x: usize)
    ensures
        as_ints(v.push(x)) == as_ints(v).push(x as int),
{
    assert(as_ints(v.push(x)) =~= as_ints(v).push(x as int));
}

/// How one more line extends the merge scan: the spec functions over
/// `t.push(x)` in terms of their value over `t`.
proof fn lemma_merge_scan_push(t: Seq<LineView>, x: LineView)
    ensures
        merged(t.push(x)) == (if t.len() > 0 && pair_absorbable(t.last(), x) {
            bump_last(merged(t), count_of(x))
        } else {
            merged(t).push(x)
        }),
        removed_indices(t.push(x)) == (if t.len() > 0 && pair_absorbable(t.last(), x) {
            removed_indices(t).push(t.len() as int)
        } else {
            removed_indices(t)
        }),
        changed_indices(t.push(x)) == (if t.len() > 0 && pair_absorbable(t.last(), x)
            && !absorbed_at(t, t.len() - 1) {
            changed_indices(t).push(t.len() - 1)
        } else {
            changed_indices(t)
        }),
{
    let s = t.push(x);
    assert(s.drop_last() =~= t);
    assert(s.last() == x);
    assert(absorbed_at(s, s.len() - 1) == (t.len() > 0 && pair_absorbable(t.last(), x)));
    assert(absorbed_at(s, s.len() - 2) == absorbed_at(t, t.len() - 1));
}

/// How one more line extends the comment scan.
proof fn lemma_strip_scan_push(t: Seq<LineView>, x: LineView)
    ensures
        stripped(t.push(x)) == (if x is Comment {
            stripped(t)
        } else {
            stripped(t).push(x)
        }),
        comment_indices(t.push(x)) == (if x is Comment {
            comment_indices(t).push(t.len() as int)
        } else {
            comment_indices(t)
        }),
{
    let s = t.push(x);
    assert(s.drop_last() =~= t);
    assert(s.last() == x);
}

pub(crate) proof fn lemma_doc_view_push(v: Seq<Line>, x: Line)
    ensures
        doc_view(v.push(x)) == doc_view(v).push(x@),
{
    assert(doc_view(v.push(x)) =~= doc_view(v).push(x@));
}

pub(crate) proof fn lemma_merged_len(s: Seq<LineView>)
    ensures
        merged(s).len() <= s.len(),
        s.len() > 0 ==> merged(s).len() > 0,
    decreases s.len(),
{
    if s.len() > 0 {
        lemma_merged_len(s.drop_last());
    }
}

/// The last line of the merged document mirrors the last line of the input:
/// an input ending in a frame bulk ends in the head of that bulk's run, with
/// the same settings; any other last line is kept as is.
pub(crate) proof fn lemma_merged_last(s: Seq<LineView>)
    requires
        s.len() > 0,
    ensures
        merged(s).len() > 0,
        s.last() matches LineView::FrameBulk(q) ==> (merged(s).last() matches LineView::FrameBulk(h)
            && mergeable(h, q)),
        !(s.last() is FrameBulk) ==> merged(s).last() == s.last(),
    decreases s.len(),
{
    lemma_merged_len(s);
    if s.len() == 1 {
        assert(s.drop_last().len() == 0);
    } else {
        let u = s.drop_last();
        lemma_merged_last(u);
        if absorbed_at(s, s.len() - 1) {
            assert(u.last() == s[s.len() - 2]);
        }
    }
}

/// Whether two frame bulks are mergeable.
pub fn mergeable_bulks(a: &FrameBulk, b: &FrameBulk) -> (r: bool)
    ensures
        r == mergeable(a@, b@),
{
    a.auto_actions == b.auto_actions && a.movement_keys == b.movement_keys && a.action_keys
        == b.action_keys && bytes_eq(&a.frame_time, &b.frame_time) && opt_u32_eq(
        &a.pitch,
        &b.pitch,
    ) && opt_bytes_eq(&a.console_command, &b.console_command)
}

/// If `cur` can be absorbed into `prev`, its frame count; `None` otherwise.
fn try_absorb(prev: &Line, cur: &Line) -> (r: Option<u32>)
    ensures
        (r is Some) == pair_absorbable(prev@, cur@),
        r matches Some(c) ==> c as nat == count_of(cur@),
{
    match (prev, cur) {
        (Line::FrameBulk(p), Line::FrameBulk(q)) => {
            if mergeable_bulks(p, q) {
                Some(q.frame_count)
            } else {
                None
            }
        },
        _ => None,
    }
}

/// Combines duplicate framebulks together.
///
/// Scans the document once; a frame bulk that is mergeable with its immediate
/// predecessor frame bulk (identical in everything but frame count, with no
/// other line in between) is folded into the head of its run, which
/// accumulates the frame counts. The report lists, in ascending order and as
/// indices into the document as it stood before the call, the run heads that
/// were rewritten (`lines_changed`) and the absorbed lines that were removed
/// (`lines_removed`).
///
/// If accumulating a run's frame count would exceed `u32::MAX`, the call
/// fails with [`CleanerError::CountOverflow`] naming the first line whose
/// absorption would overflow, and the document is left unchanged.
pub fn no_dupe_framebulks(lines: &mut Vec<Line>) -> (r: Result<CleanerResult, CleanerError>)
    ensures
        match r {
            Ok(res) => {
                &&& doc_view(final(lines)@) == merged(doc_view(old(lines)@))
                &&& as_ints(res.lines_changed@) == changed_indices(doc_view(old(lines)@))
                &&& as_ints(res.lines_removed@) == removed_indices(doc_view(old(lines)@))
                &&& forall|i: int| !overflow_at(doc_view(old(lines)@), i)
            },
            Err(e) => {
                &&& final(lines)@ == old(lines)@
                &&& e matches CleanerError::CountOverflow { index }
                &&& overflow_at(doc_view(old(lines)@), index as int)
                &&& forall|j: int| j < index as int ==> !overflow_at(doc_view(old(lines)@), j)
            },
        },
{
    let ghost s = doc_view(lines@);
    let mut out: Vec<Line> = Vec::new();
    let mut changed: Vec<usize> = Vec::new();
    let mut removed: Vec<usize> = Vec::new();
    let mut prev_absorbed: bool = false;
    let mut i: usize = 0;
    while i < lines.len()
        invariant
            lines@ == old(lines)@,
            s == doc_view(lines@),
            i <= lines@.len(),
            doc_view(out@) == merged(s.take(i as int)),
            as_ints(changed@) == changed_indices(s.take(i as int)),
            as_ints(removed@) == removed_indices(s.take(i as int)),
            prev_absorbed == absorbed_at(s, i as int - 1),
            forall|j: int| j < i as int ==> !overflow_at(s, j),
        decreases lines@.len() - i,
    {
        let ghost t = s.take(i as int);
        proof {
            assert(s.take(i as int + 1) =~= t.push(s[i as int]));
            lemma_merge_scan_push(t, s[i as int]);
            assert(s[i as int] == lines@[i as int]@);
            if i > 0 {
                assert(t.last() == s[i as int - 1]);
                assert(s[i as int - 1] == lines@[i as int - 1]@);
            }
        }
        let absorb = if i > 0 {
            try_absorb(&lines[i - 1], &lines[i])
        } else {
            None
        };
        proof {
            assert((absorb is Some) == absorbed_at(s, i as int));
            assert(absorbed_at(t, i as int - 1) == absorbed_at(s, i as int - 1));
        }
        match absorb {
            Some(c) => {
                proof {
                    lemma_merged_last(t);
                }
                if !prev_absorbed {
                    proof {
                        lemma_as_ints_push(changed@, (i - 1) as usize);
                    }
                    changed.push(i - 1);
                }
                proof {
                    lemma_as_ints_push(removed@, i);
                }
                removed.push(i);
                let ghost old_out = out@;
                let head = out.pop().unwrap();
                proof {
                    assert(head@ == doc_view(old_out).last());
                }
                match head {
                    Line::FrameBulk(fb) => {
                        if fb.frame_count <= u32::MAX - c {
                            let nb = FrameBulk { frame_count: fb.frame_count + c, ..fb };
                            out.push(Line::FrameBulk(nb));
                            proof {
                                assert(out@ =~= old_out.update(
                                    old_out.len() - 1,
                                    Line::FrameBulk(nb),
                                ));
                                assert(doc_view(out@) =~= bump_last(merged(t), c as nat));
                                assert(!overflow_at(s, i as int));
                            }
                        } else {
                            proof {
                                assert(count_of(merged(s.take(i as int + 1)).last()) > u32::MAX);
                                assert(overflow_at(s, i as int));
                            }
                            return Err(CleanerError::CountOverflow { index: i });
                        }
                    },
                    _ => {
                        proof {
                            assert(false);
                        }
                    },
                }
                prev_absorbed = true;
            },
            None => {
                let copy = duplicate_line(&lines[i]);
                proof {
                    lemma_doc_view_push(out@, copy);
                    assert(!overflow_at(s, i as int));
                }
                out.push(copy);
                prev_absorbed = false;
            },
        }
        i += 1;
    }
    proof {
        assert(s.take(s.len() as int) =~= s);
        assert(forall|j: int| j >= s.len() ==> !overflow_at(s, j));
    }
    *lines = out;
    Ok(CleanerResult { lines_changed: changed, lines_removed: removed })
}

/// Removes all comment lines.
///
/// Scans the document once, removes every comment line, and returns the
/// original indices of the removed lines in ascending order. `lines_changed`
/// is always empty; no other line kind is inspected or mutated.
pub fn remove_comments(lines: &mut Vec<Line>) -> (r: CleanerResult)
    ensures
        doc_view(final(lines)@) == stripped(doc_view(old(lines)@)),
        r.lines_changed@.len() == 0,
        as_ints(r.lines_removed@) == comment_indices(doc_view(old(lines)@)),
{
    let ghost s = doc_view(lines@);
    let mut out: Vec<Line> = Vec::new();
    let mut removed: Vec<usize> = Vec::new();
    let mut i: usize = 0;
    while i < lines.len()
        invariant
            lines@ == old(lines)@,
            s == doc_view(lines@),
            i <= lines@.len(),
            doc_view(out@) == stripped(s.take(i as int)),
            as_ints(removed@) == comment_indices(s.take(i as int)),
        decreases lines@.len() - i,
    {
        proof {
            assert(s.take(i as int + 1) =~= s.take(i as int).push(s[i as int]));
            lemma_strip_scan_push(s.take(i as int), s[i as int]);
        }
        match &lines[i] {
            Line::Comment(_) => {
                proof {
                    lemma_as_ints_push(removed@, i);
                }
                removed.push(i);
            },
            _ => {
                proof {
                    lemma_doc_view_push(out@, lines@[i as int]);
                }
                let copy = duplicate_line(&lines[i]);
                proof {
                    lemma_doc_view_push(out@, copy);
                }
                out.push(copy);
            },
        }
        i += 1;
    }
    proof {
        assert(s.take(s.len() as int) =~= s);
    }
    *lines = out;
    CleanerResult { lines_changed: Vec::new(), lines_removed: removed }
}

} // verus!
