//! Support for the angle normalizer.
//!
//! Angle fields are carried as the bit patterns of the external format's
//! 32-bit floats. The numeric wrapping into the canonical `[0, 360)` range is
//! floating-point work and belongs to the caller; this module does everything
//! else: it knows which fields of which line kinds are angles, extracts them
//! in document order (rejecting non-finite values as fatal), and writes a
//! wrapped list back into the same slots without touching anything else.

use vstd::prelude::*;

use crate::cleaners::{lemma_doc_view_push, CleanerError};
use crate::types::{copy_bytes, copy_u32s, doc_view, duplicate_bulk, AutoActions, AutoMovement,
    ChangeDirective, FrameBulk, Line, LineView, StrafeDir, StrafeSettings, VectorialConstraint};

verus! {

/// Whether a 32-bit float, given by its bit pattern, is finite: an IEEE 754
/// single-precision value is infinite or not-a-number exactly when all its
/// exponent bits are set.
pub open spec fn is_finite_bits(b: u32) -> bool {
    (b >> 23) & 0xff != 0xff
}

/// Executable check of [`is_finite_bits`].
pub fn bits_finite(b: u32) -> (r: bool)
    ensures
        r == is_finite_bits(b),
{
    (b >> 23) & 0xff != 0xff
}

/// All values of a list are finite.
pub open spec fn all_finite(q: Seq<u32>) -> bool {
    forall|k: int| 0 <= k < q.len() ==> is_finite_bits(#[trigger] q[k])
}

/// The angles of an auto-action descriptor: the yaw of a set-yaw action, or
/// the yaw of a yaw-based or line-based strafing direction.
pub open spec fn auto_angles(a: AutoActions) -> Seq<u32> {
    match a.movement {
        Some(AutoMovement::SetYaw(y)) => seq![y],
        Some(AutoMovement::Strafe(st)) => match st.dir {
            StrafeDir::Yaw(y) => seq![y],
            StrafeDir::StrafeLine { yaw } => seq![yaw],
            _ => Seq::empty(),
        },
        None => Seq::empty(),
    }
}

/// The angle values of one line, in field order.
pub open spec fn line_angles(l: LineView) -> Seq<u32> {
    match l {
        LineView::FrameBulk(fb) => auto_angles(fb.auto_actions),
        LineView::Comment(_) => Seq::empty(),
        LineView::SetYaw { yaw } => seq![yaw],
        LineView::TargetYawOverride(ys) => ys,
        LineView::Change(c) => seq![c.final_value],
        LineView::VectorialConstraint(c) => match c {
            VectorialConstraint::FixedYaw { yaw, .. } => seq![yaw],
            VectorialConstraint::YawRange { from, to } => seq![from, to],
            VectorialConstraint::Other { .. } => Seq::empty(),
        },
        LineView::Other { .. } => Seq::empty(),
    }
}

/// The angle values of a whole document, in document order.
pub open spec fn doc_angles(s: Seq<LineView>) -> Seq<u32>
    decreases s.len(),
{
    if s.len() == 0 {
        Seq::empty()
    } else {
        doc_angles(s.drop_last()) + line_angles(s.last())
    }
}

/// An auto-action descriptor with its angles replaced by the leading values
/// of `a`; descriptors without an angle are unchanged.
pub open spec fn auto_with_angles(aa: AutoActions, a: Seq<u32>) -> AutoActions {
    match aa.movement {
        Some(AutoMovement::SetYaw(_)) => AutoActions {
            movement: Some(AutoMovement::SetYaw(a[0])),
            ..aa
        },
        Some(AutoMovement::Strafe(st)) => match st.dir {
            StrafeDir::Yaw(_) => AutoActions {
                movement: Some(AutoMovement::Strafe(StrafeSettings { dir: StrafeDir::Yaw(a[0]), ..st })),
                ..aa
            },
            StrafeDir::StrafeLine { .. } => AutoActions {
                movement: Some(
                    AutoMovement::Strafe(StrafeSettings { dir: StrafeDir::StrafeLine { yaw: a[0] }, ..st }),
                ),
                ..aa
            },
            _ => aa,
        },
        None => aa,
    }
}

/// A line with its angle fields replaced by the values of `a`, which must
/// hold exactly as many values as the line has angles; everything else is
/// unchanged.
pub open spec fn line_with_angles(l: LineView, a: Seq<u32>) -> LineView {
    match l {
        LineView::FrameBulk(fb) => LineView::FrameBulk(
            crate::types::FrameBulkView { auto_actions: auto_with_angles(fb.auto_actions, a), ..fb },
        ),
        LineView::Comment(t) => LineView::Comment(t),
        LineView::SetYaw { .. } => LineView::SetYaw { yaw: a[0] },
        LineView::TargetYawOverride(_) => LineView::TargetYawOverride(a),
        LineView::Change(c) => LineView::Change(ChangeDirective { final_value: a[0], ..c }),
        LineView::VectorialConstraint(c) => LineView::VectorialConstraint(
            match c {
                VectorialConstraint::FixedYaw { yaw: _, tolerance } => VectorialConstraint::FixedYaw {
                    yaw: a[0],
                    tolerance,
                },
                VectorialConstraint::YawRange { .. } => VectorialConstraint::YawRange {
                    from: a[0],
                    to: a[1],
                },
                VectorialConstraint::Other { token } => VectorialConstraint::Other { token },
            },
        ),
        LineView::Other { token } => LineView::Other { token },
    }
}

/// The document with every angle slot `k` holding `vals[k]`, in document
/// order; line structure and non-angle fields unchanged.
pub open spec fn with_angles(s: Seq<LineView>, vals: Seq<u32>) -> Seq<LineView>
    decreases s.len(),
{
    if s.len() == 0 {
        Seq::empty()
    } else {
        let k = line_angles(s.last()).len();
        with_angles(s.drop_last(), vals.take(vals.len() - k)).push(
            line_with_angles(s.last(), vals.skip(vals.len() - k)),
        )
    }
}

proof fn lemma_doc_angles_push(t: Seq<LineView>, x: LineView)
    ensures
        doc_angles(t.push(x)) == doc_angles(t) + line_angles(x),
{
    assert(t.push(x).drop_last() =~= t);
    assert(t.push(x).last() == x);
}

proof fn lemma_with_angles_push(t: Seq<LineView>, x: LineView, w: Seq<u32>)
    ensures
        with_angles(t.push(x), w) == with_angles(t, w.take(w.len() - line_angles(x).len())).push(
            line_with_angles(x, w.skip(w.len() - line_angles(x).len())),
        ),
{
    assert(t.push(x).drop_last() =~= t);
    assert(t.push(x).last() == x);
}

/// The angle list of a prefix is never longer than that of the whole
/// document.
proof fn lemma_doc_angles_take_bound(s: Seq<LineView>, i: int)
    requires
        0 <= i <= s.len(),
    ensures
        doc_angles(s.take(i)).len() <= doc_angles(s).len(),
    decreases s.len() - i,
{
    if i == s.len() {
        assert(s.take(i) =~= s);
    } else {
        assert(s.take(i + 1) =~= s.take(i).push(s[i]));
        lemma_doc_angles_push(s.take(i), s[i]);
        lemma_doc_angles_take_bound(s, i + 1);
    }
}

/// A vector holding the one value `y`.
fn one_angle(y: u32) -> (v: Vec<u32>)
    ensures
        v@ == seq![y],
{
    let mut v: Vec<u32> = Vec::new();
    v.push(y);
    proof {
        assert(v@ =~= seq![y]);
    }
    v
}

/// A vector holding the two values `x` then `y`.
fn two_angles(x: u32, y: u32) -> (v: Vec<u32>)
    ensures
        v@ == seq![x, y],
{
    let mut v: Vec<u32> = Vec::new();
    v.push(x);
    v.push(y);
    proof {
        assert(v@ =~= seq![x, y]);
    }
    v
}

/// The angle values of one line, as a vector.
fn line_angles_vec(l: &Line) -> (v: Vec<u32>)
    ensures
        v@ == line_angles(l@),
{
    match l {
        Line::FrameBulk(fb) => match fb.auto_actions.movement {
            Some(AutoMovement::SetYaw(y)) => one_angle(y),
            Some(AutoMovement::Strafe(st)) => match st.dir {
                StrafeDir::Yaw(y) => one_angle(y),
                StrafeDir::StrafeLine { yaw } => one_angle(yaw),
                _ => Vec::new(),
            },
            None => Vec::new(),
        },
        Line::Comment(_) => Vec::new(),
        Line::SetYaw { yaw } => one_angle(*yaw),
        Line::TargetYawOverride(ys) => copy_u32s(ys),
        Line::Change(c) => one_angle(c.final_value),
        Line::VectorialConstraint(c) => match c {
            VectorialConstraint::FixedYaw { yaw, .. } => one_angle(*yaw),
            VectorialConstraint::YawRange { from, to } => two_angles(*from, *to),
            VectorialConstraint::Other { .. } => Vec::new(),
        },
        Line::Other { .. } => Vec::new(),
    }
}

/// Whether every value of the vector is finite.
fn all_finite_vec(v: &Vec<u32>) -> (r: bool)
    ensures
        r == all_finite(v@),
{
    let mut i: usize = 0;
    while i < v.len()
        invariant
            i <= v@.len(),
            forall|k: int| 0 <= k < i ==> is_finite_bits(#[trigger] v@[k]),
        decreases v@.len() - i,
    {
        if !bits_finite(v[i]) {
            assert(!is_finite_bits(v@[i as int]));
            return false;
        }
        i += 1;
    }
    true
}

/// Collects every angle value of the document, in document order.
///
/// Fails with [`CleanerError::NonFiniteAngle`] naming the first line holding
/// an angle that is not finite: such a value cannot be meaningfully wrapped
/// into the canonical range. On success every collected value is finite.
pub fn collect_angles(lines: &Vec<Line>) -> (r: Result<Vec<u32>, CleanerError>)
    ensures
        match r {
            Ok(v) => {
                &&& v@ == doc_angles(doc_view(lines@))
                &&& forall|j: int|
                    0 <= j < lines@.len() ==> all_finite(line_angles(#[trigger] doc_view(lines@)[j]))
            },
            Err(e) => {
                &&& e matches CleanerError::NonFiniteAngle { index }
                &&& (index as int) < lines@.len()
                &&& !all_finite(line_angles(doc_view(lines@)[index as int]))
                &&& forall|j: int|
                    0 <= j < index as int ==> all_finite(line_angles(#[trigger] doc_view(lines@)[j]))
            },
        },
{
    let ghost s = doc_view(lines@);
    let mut out: Vec<u32> = Vec::new();
    let mut i: usize = 0;
    while i < lines.len()
        invariant
            s == doc_view(lines@),
            i <= lines@.len(),
            out@ == doc_angles(s.take(i as int)),
            forall|j: int| 0 <= j < i ==> all_finite(line_angles(#[trigger] s[j])),
        decreases lines@.len() - i,
    {
        proof {
            assert(s.take(i as int + 1) =~= s.take(i as int).push(s[i as int]));
            lemma_doc_angles_push(s.take(i as int), s[i as int]);
            assert(s[i as int] == lines@[i as int]@);
        }
        let mut la = line_angles_vec(&lines[i]);
        if !all_finite_vec(&la) {
            return Err(CleanerError::NonFiniteAngle { index: i });
        }
        out.append(&mut la);
        i += 1;
    }
    proof {
        assert(s.take(s.len() as int) =~= s);
    }
    Ok(out)
}

/// A copy of the window `vals[k..k + n]`.
fn copy_angle_window(vals: &Vec<u32>, k: usize, n: usize) -> (nv: Vec<u32>)
    requires
        k + n <= vals@.len(),
    ensures
        nv@ == vals@.subrange(k as int, k as int + n as int),
{
    let total: usize = vals.len();
    let mut nv: Vec<u32> = Vec::new();
    let mut j: usize = 0;
    while j < n
        invariant
            j <= n,
            k + n <= total,
            total == vals@.len(),
            nv@ == vals@.subrange(k as int, k as int + j as int),
        decreases n - j,
    {
        nv.push(vals[k + j]);
        proof {
            assert(nv@ =~= vals@.subrange(k as int, k as int + j as int + 1));
        }
        j += 1;
    }
    nv
}

/// A frame bulk rebuilt with its auto-action angles taken from `vals[k..]`;
/// returns the new bulk and how many values it consumed.
fn bulk_with_angles_exec(fb: &FrameBulk, vals: &Vec<u32>, k: usize) -> (res: (FrameBulk, usize))
    requires
        k as int + auto_angles(fb.auto_actions).len() <= vals@.len(),
    ensures
        res.1 as int == auto_angles(fb.auto_actions).len(),
        res.0@.auto_actions == auto_with_angles(
            fb.auto_actions,
            vals@.subrange(k as int, k as int + auto_angles(fb.auto_actions).len()),
        ),
        res.0@.movement_keys == fb@.movement_keys,
        res.0@.action_keys == fb@.action_keys,
        res.0@.frame_time == fb@.frame_time,
        res.0@.pitch == fb@.pitch,
        res.0@.frame_count == fb@.frame_count,
        res.0@.console_command == fb@.console_command,
{
    let mut nb = duplicate_bulk(fb);
    match fb.auto_actions.movement {
        Some(AutoMovement::SetYaw(_)) => {
            nb.auto_actions = AutoActions {
                movement: Some(AutoMovement::SetYaw(vals[k])),
                ..nb.auto_actions
            };
            (nb, 1)
        },
        Some(AutoMovement::Strafe(st)) => match st.dir {
            StrafeDir::Yaw(_) => {
                nb.auto_actions = AutoActions {
                    movement: Some(
                        AutoMovement::Strafe(StrafeSettings { dir: StrafeDir::Yaw(vals[k]), ..st }),
                    ),
                    ..nb.auto_actions
                };
                (nb, 1)
            },
            StrafeDir::StrafeLine { .. } => {
                nb.auto_actions = AutoActions {
                    movement: Some(
                        AutoMovement::Strafe(
                            StrafeSettings { dir: StrafeDir::StrafeLine { yaw: vals[k] }, ..st },
                        ),
                    ),
                    ..nb.auto_actions
                };
                (nb, 1)
            },
            _ => (nb, 0),
        },
        None => (nb, 0),
    }
}

/// One line rebuilt with its angles taken from `vals[k..]`; returns the new
/// line and how many values it consumed.
fn line_with_angles_exec(l: &Line, vals: &Vec<u32>, k: usize) -> (res: (Line, usize))
    requires
        k as int + line_angles(l@).len() <= vals@.len(),
    ensures
        res.1 as int == line_angles(l@).len(),
        res.0@ == line_with_angles(l@, vals@.subrange(k as int, k as int + line_angles(l@).len())),
{
    let total: usize = vals.len();
    match l {
        Line::FrameBulk(fb) => {
            let (nb, used) = bulk_with_angles_exec(fb, vals, k);
            (Line::FrameBulk(nb), used)
        },
        Line::Comment(t) => (Line::Comment(copy_bytes(t)), 0),
        Line::SetYaw { .. } => (Line::SetYaw { yaw: vals[k] }, 1),
        Line::TargetYawOverride(ys) => {
            let n = ys.len();
            let nv = copy_angle_window(vals, k, n);
            (Line::TargetYawOverride(nv), n)
        },
        Line::Change(c) => (
            Line::Change(ChangeDirective { final_value: vals[k], ..*c }),
            1,
        ),
        Line::VectorialConstraint(c) => match c {
            VectorialConstraint::FixedYaw { yaw: _, tolerance } => (
                Line::VectorialConstraint(
                    VectorialConstraint::FixedYaw { yaw: vals[k], tolerance: *tolerance },
                ),
                1,
            ),
            VectorialConstraint::YawRange { .. } => (
                Line::VectorialConstraint(
                    VectorialConstraint::YawRange { from: vals[k], to: vals[k + 1] },
                ),
                2,
            ),
            VectorialConstraint::Other { token } => (
                Line::VectorialConstraint(VectorialConstraint::Other { token: *token }),
                0,
            ),
        },
        Line::Other { token } => (Line::Other { token: *token }, 0),
    }
}

/// Writes a list of angle values back into the document's angle slots, in
/// document order: slot `k` receives `vals[k]`.
///
/// Returns `true` and rewrites the document exactly when `vals` holds one
/// value per angle slot; with any other length it returns `false` and leaves
/// the document unchanged. No line is added, removed or reordered and no
/// non-angle field is touched.
pub fn apply_angles(lines: &mut Vec<Line>, vals: &Vec<u32>) -> (r: bool)
    ensures
        r == (vals@.len() == doc_angles(doc_view(old(lines)@)).len()),
        r ==> doc_view(final(lines)@) == with_angles(doc_view(old(lines)@), vals@),
        !r ==> final(lines)@ == old(lines)@,
{
    let ghost s = doc_view(lines@);
    let mut out: Vec<Line> = Vec::new();
    let mut k: usize = 0;
    let mut i: usize = 0;
    while i < lines.len()
        invariant
            lines@ == old(lines)@,
            s == doc_view(lines@),
            i <= lines@.len(),
            k as int == doc_angles(s.take(i as int)).len(),
            k <= vals@.len(),
            doc_view(out@) == with_angles(s.take(i as int), vals@.take(k as int)),
        decreases lines@.len() - i,
    {
        let ghost t = s.take(i as int);
        proof {
            assert(s.take(i as int + 1) =~= t.push(s[i as int]));
            lemma_doc_angles_push(t, s[i as int]);
            assert(s[i as int] == lines@[i as int]@);
        }
        let la = line_angles_vec(&lines[i]);
        let cnt = la.len();
        if cnt > vals.len() - k {
            proof {
                lemma_doc_angles_take_bound(s, i as int + 1);
            }
            return false;
        }
        let (nl, used) = line_with_angles_exec(&lines[i], vals, k);
        proof {
            lemma_with_angles_push(t, s[i as int], vals@.take(k as int + cnt as int));
            assert(vals@.take(k as int + cnt as int).take(k as int) =~= vals@.take(k as int));
            assert(vals@.take(k as int + cnt as int).skip(k as int) =~= vals@.subrange(
                k as int,
                k as int + cnt as int,
            ));
            lemma_doc_view_push(out@, nl);
        }
        out.push(nl);
        k += used;
        i += 1;
    }
    proof {
        assert(s.take(s.len() as int) =~= s);
    }
    if k != vals.len() {
        return false;
    }
    proof {
        assert(vals@.take(k as int) =~= vals@);
    }
    *lines = out;
    true
}

} // verus!
