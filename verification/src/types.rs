//! The typed line model of a script document.
//!
//! A document is an ordered `Vec<Line>`. Every field that the cleaning passes
//! read is held as a plain value: angle and pitch fields carry the raw bit
//! pattern of the external format's 32-bit float (compared and moved around
//! bit-for-bit, never interpreted arithmetically here), textual fields carry
//! their exact bytes, and frame counts are plain `u32` values that are
//! strictly positive in any well-formed document.

use vstd::prelude::*;

verus! {

/// Manually specified movement keys of a frame bulk.
#[derive(Clone, Copy, PartialEq, Eq, Structural, Debug, Default)]
pub struct MovementKeys {
    pub forward: bool,
    pub left: bool,
    pub right: bool,
    pub back: bool,
    pub up: bool,
    pub down: bool,
}

/// Manually specified action keys of a frame bulk.
#[derive(Clone, Copy, PartialEq, Eq, Structural, Debug, Default)]
pub struct ActionKeys {
    pub jump: bool,
    pub duck: bool,
    pub use_: bool,
    pub attack_1: bool,
    pub attack_2: bool,
    pub reload: bool,
}

/// How many times an automatic action runs.
#[derive(Clone, Copy, PartialEq, Eq, Structural, Debug)]
pub enum Times {
    UnlimitedWithinFrameBulk,
    Limited(u32),
}

/// Speed at which to leave the ground.
#[derive(Clone, Copy, PartialEq, Eq, Structural, Debug)]
pub enum LeaveGroundActionSpeed {
    Any,
    Optimal,
    OptimalWithFullMaxspeed,
}

/// How to leave the ground.
#[derive(Clone, Copy, PartialEq, Eq, Structural, Debug)]
pub enum LeaveGroundActionType {
    Jump,
    DuckTap { zero_ms: bool },
}

/// Leave the ground automatically.
#[derive(Clone, Copy, PartialEq, Eq, Structural, Debug)]
pub struct LeaveGroundAction {
    pub speed: LeaveGroundActionSpeed,
    pub times: Times,
    pub type_: LeaveGroundActionType,
}

/// Automatic jump-bug settings.
#[derive(Clone, Copy, PartialEq, Eq, Structural, Debug)]
pub struct JumpBug {
    pub times: Times,
}

/// Duck right before a non-ground collision.
#[derive(Clone, Copy, PartialEq, Eq, Structural, Debug)]
pub struct DuckBeforeCollision {
    pub times: Times,
    pub including_ceilings: bool,
}

/// Duck before collision with the ground.
#[derive(Clone, Copy, PartialEq, Eq, Structural, Debug)]
pub struct DuckBeforeGround {
    pub times: Times,
}

/// Duck right before jumping.
#[derive(Clone, Copy, PartialEq, Eq, Structural, Debug)]
pub struct DuckWhenJump {
    pub times: Times,
}

/// Type of automatic strafing. Float-valued settings hold the bit pattern of
/// the external 32-bit float.
#[derive(Clone, Copy, PartialEq, Eq, Structural, Debug)]
pub enum StrafeType {
    MaxAccel,
    MaxAngle,
    MaxDeccel,
    ConstSpeed,
    ConstYawspeed(u32),
    MaxAccelYawOffset { start: u32, target: u32, accel: u32 },
}

/// Direction of automatic strafing. The `Yaw` and `StrafeLine` directions are
/// yaw-based: their angle is subject to angle normalization.
#[derive(Clone, Copy, PartialEq, Eq, Structural, Debug)]
pub enum StrafeDir {
    Left,
    Right,
    Best,
    Yaw(u32),
    Point { x: u32, y: u32 },
    StrafeLine { yaw: u32 },
    LeftRight(u32),
    RightLeft(u32),
}

/// Automatic strafing settings.
#[derive(Clone, Copy, PartialEq, Eq, Structural, Debug)]
pub struct StrafeSettings {
    pub type_: StrafeType,
    pub dir: StrafeDir,
}

/// Automatic yaw adjustment of a frame bulk: either a direct set-yaw action
/// or automatic strafing.
#[derive(Clone, Copy, PartialEq, Eq, Structural, Debug)]
pub enum AutoMovement {
    SetYaw(u32),
    Strafe(StrafeSettings),
}

/// The auto-action descriptor of a frame bulk.
#[derive(Clone, Copy, PartialEq, Eq, Structural, Debug, Default)]
pub struct AutoActions {
    pub movement: Option<AutoMovement>,
    pub leave_ground_action: Option<LeaveGroundAction>,
    pub jump_bug: Option<JumpBug>,
    pub duck_before_collision: Option<DuckBeforeCollision>,
    pub duck_before_ground: Option<DuckBeforeGround>,
    pub duck_when_jump: Option<DuckWhenJump>,
}

/// Values a change directive can target.
#[derive(Clone, Copy, PartialEq, Eq, Structural, Debug)]
pub enum ChangeTarget {
    Yaw,
    Pitch,
    VectorialStrafingYaw,
    VectorialStrafingYawOffset,
}

/// A directive that smoothly changes a value to `final_value` (an angle, as
/// float bits) over `over` seconds (float bits).
#[derive(Clone, Copy, PartialEq, Eq, Structural, Debug)]
pub struct ChangeDirective {
    pub target: ChangeTarget,
    pub final_value: u32,
    pub over: u32,
}

/// A vectorial-strafing constraint directive. Only the fixed-yaw and
/// yaw-range variants carry angles; every other constraint kind is opaque to
/// the cleaning passes and is carried through under a caller-chosen token.
#[derive(Clone, Copy, PartialEq, Eq, Structural, Debug)]
pub enum VectorialConstraint {
    FixedYaw { yaw: u32, tolerance: u32 },
    YawRange { from: u32, to: u32 },
    Other { token: usize },
}

/// One or more identical simulation frames sharing all settings.
///
/// `frame_time` is kept as its exact textual bytes and compared for merging
/// byte-for-byte: near-but-not-equal frame times never compare equal.
/// `frame_count` is strictly positive in a well-formed document.
#[derive(Debug)]
pub struct FrameBulk {
    pub auto_actions: AutoActions,
    pub movement_keys: MovementKeys,
    pub action_keys: ActionKeys,
    pub frame_time: Vec<u8>,
    pub pitch: Option<u32>,
    pub frame_count: u32,
    pub console_command: Option<Vec<u8>>,
}

/// A line of the document: the tagged union the cleaning passes work on.
///
/// Line kinds with no meaning to any pass are `Other`; the token is chosen by
/// the caller (for example an index into a side table of original lines) and
/// is carried through untouched.
#[derive(Debug)]
pub enum Line {
    FrameBulk(FrameBulk),
    Comment(Vec<u8>),
    SetYaw { yaw: u32 },
    TargetYawOverride(Vec<u32>),
    Change(ChangeDirective),
    VectorialConstraint(VectorialConstraint),
    Other { token: usize },
}

/// Mathematical view of a frame bulk: byte fields become sequences and the
/// frame count becomes an unbounded natural number.
pub struct FrameBulkView {
    pub auto_actions: AutoActions,
    pub movement_keys: MovementKeys,
    pub action_keys: ActionKeys,
    pub frame_time: Seq<u8>,
    pub pitch: Option<u32>,
    pub frame_count: nat,
    pub console_command: Option<Seq<u8>>,
}

/// Mathematical view of a line.
pub enum LineView {
    FrameBulk(FrameBulkView),
    Comment(Seq<u8>),
    SetYaw { yaw: u32 },
    TargetYawOverride(Seq<u32>),
    Change(ChangeDirective),
    VectorialConstraint(VectorialConstraint),
    Other { token: usize },
}

impl View for FrameBulk {
    type V = FrameBulkView;

    open spec fn view(&self) -> FrameBulkView {
        FrameBulkView {
            auto_actions: self.auto_actions,
            movement_keys: self.movement_keys,
            action_keys: self.action_keys,
            frame_time: self.frame_time@,
            pitch: self.pitch,
            frame_count: self.frame_count as nat,
            console_command: match self.console_command {
                Some(c) => Some(c@),
                None => None,
            },
        }
    }
}

impl View for Line {
    type V = LineView;

    open spec fn view(&self) -> LineView {
        match *self {
            Line::FrameBulk(fb) => LineView::FrameBulk(fb@),
            Line::Comment(text) => LineView::Comment(text@),
            Line::SetYaw { yaw } => LineView::SetYaw { yaw },
            Line::TargetYawOverride(yaws) => LineView::TargetYawOverride(yaws@),
            Line::Change(c) => LineView::Change(c),
            Line::VectorialConstraint(c) => LineView::VectorialConstraint(c),
            Line::Other { token } => LineView::Other { token },
        }
    }
}

/// The view of a whole document: each line replaced by its view.
pub open spec fn doc_view(lines: Seq<Line>) -> Seq<LineView> {
    lines.map_values(|l: Line| l@)
}

/// A document is well-formed when every frame bulk has a strictly positive
/// frame count.
pub open spec fn doc_wf(doc: Seq<LineView>) -> bool {
    forall|i: int|
        0 <= i < doc.len() ==> (#[trigger] doc[i] matches LineView::FrameBulk(fb) ==> fb.frame_count
            >= 1)
}

/// Byte-for-byte equality of two byte vectors.
pub fn bytes_eq(a: &Vec<u8>, b: &Vec<u8>) -> (r: bool)
    ensures
        r == (a@ == b@),
{
    if a.len() != b.len() {
        return false;
    }
    let mut i: usize = 0;
    while i < a.len()
        invariant
            i <= a@.len(),
            a@.len() == b@.len(),
            forall|j: int| 0 <= j < i ==> a@[j] == b@[j],
        decreases a@.len() - i,
    {
        if a[i] != b[i] {
            return false;
        }
        i += 1;
    }
    proof {
        assert(a@ =~= b@);
    }
    true
}

/// An element-for-element copy of a byte vector.
pub fn copy_bytes(v: &Vec<u8>) -> (r: Vec<u8>)
    ensures
        r@ == v@,
{
    let mut r: Vec<u8> = Vec::new();
    let mut i: usize = 0;
    while i < v.len()
        invariant
            i <= v@.len(),
            r@ == v@.take(i as int),
        decreases v@.len() - i,
    {
        r.push(v[i]);
        proof {
            assert(r@ =~= v@.take(i as int + 1));
        }
        i += 1;
    }
    proof {
        assert(v@.take(v@.len() as int) =~= v@);
    }
    r
}

/// Element-for-element equality of two vectors of 32-bit values.
pub fn u32s_eq(a: &Vec<u32>, b: &Vec<u32>) -> (r: bool)
    ensures
        r == (a@ == b@),
{
    if a.len() != b.len() {
        return false;
    }
    let mut i: usize = 0;
    while i < a.len()
        invariant
            i <= a@.len(),
            a@.len() == b@.len(),
            forall|j: int| 0 <= j < i ==> a@[j] == b@[j],
        decreases a@.len() - i,
    {
        if a[i] != b[i] {
            return false;
        }
        i += 1;
    }
    proof {
        assert(a@ =~= b@);
    }
    true
}

/// An element-for-element copy of a vector of 32-bit values.
pub fn copy_u32s(v: &Vec<u32>) -> (r: Vec<u32>)
    ensures
        r@ == v@,
{
    let mut r: Vec<u32> = Vec::new();
    let mut i: usize = 0;
    while i < v.len()
        invariant
            i <= v@.len(),
            r@ == v@.take(i as int),
        decreases v@.len() - i,
    {
        r.push(v[i]);
        proof {
            assert(r@ =~= v@.take(i as int + 1));
        }
        i += 1;
    }
    proof {
        assert(v@.take(v@.len() as int) =~= v@);
    }
    r
}

/// Equality of two optional byte vectors, at the level of their views.
pub(crate) fn opt_bytes_eq(a: &Option<Vec<u8>>, b: &Option<Vec<u8>>) -> (r: bool)
    ensures
        r == (opt_bytes_view(*a) == opt_bytes_view(*b)),
{
    match (a, b) {
        (None, None) => true,
        (Some(x), Some(y)) => bytes_eq(x, y),
        _ => false,
    }
}

/// The view of an optional byte vector.
pub open spec fn opt_bytes_view(o: Option<Vec<u8>>) -> Option<Seq<u8>> {
    match o {
        Some(c) => Some(c@),
        None => None,
    }
}

/// Equality of two optional 32-bit values.
pub(crate) fn opt_u32_eq(a: &Option<u32>, b: &Option<u32>) -> (r: bool)
    ensures
        r == (*a == *b),
{
    match (a, b) {
        (None, None) => true,
        (Some(x), Some(y)) => *x == *y,
        _ => false,
    }
}

/// A copy of a frame bulk, equal to the original at the view level.
pub fn duplicate_bulk(fb: &FrameBulk) -> (r: FrameBulk)
    ensures
        r@ == fb@,
{
    FrameBulk {
        auto_actions: fb.auto_actions,
        movement_keys: fb.movement_keys,
        action_keys: fb.action_keys,
        frame_time: copy_bytes(&fb.frame_time),
        pitch: fb.pitch,
        frame_count: fb.frame_count,
        console_command: match &fb.console_command {
            Some(c) => Some(copy_bytes(c)),
            None => None,
        },
    }
}

/// A copy of a line, equal to the original at the view level.
pub fn duplicate_line(l: &Line) -> (r: Line)
    ensures
        r@ == l@,
{
    match l {
        Line::FrameBulk(fb) => Line::FrameBulk(duplicate_bulk(fb)),
        Line::Comment(text) => Line::Comment(copy_bytes(text)),
        Line::SetYaw { yaw } => Line::SetYaw { yaw: *yaw },
        Line::TargetYawOverride(yaws) => Line::TargetYawOverride(copy_u32s(yaws)),
        Line::Change(c) => Line::Change(*c),
        Line::VectorialConstraint(c) => Line::VectorialConstraint(*c),
        Line::Other { token } => Line::Other { token: *token },
    }
}

/// Equality of two lines at the view level.
pub fn line_eq(a: &Line, b: &Line) -> (r: bool)
    ensures
        r == (a@ == b@),
{
    match (a, b) {
        (Line::FrameBulk(x), Line::FrameBulk(y)) => {
            let same = x.auto_actions == y.auto_actions && x.movement_keys == y.movement_keys
                && x.action_keys == y.action_keys && bytes_eq(&x.frame_time, &y.frame_time)
                && opt_u32_eq(&x.pitch, &y.pitch) && x.frame_count == y.frame_count
                && opt_bytes_eq(&x.console_command, &y.console_command);
            same
        },
        (Line::Comment(x), Line::Comment(y)) => bytes_eq(x, y),
        (Line::SetYaw { yaw: x }, Line::SetYaw { yaw: y }) => *x == *y,
        (Line::TargetYawOverride(x), Line::TargetYawOverride(y)) => u32s_eq(x, y),
        (Line::Change(x), Line::Change(y)) => *x == *y,
        (Line::VectorialConstraint(x), Line::VectorialConstraint(y)) => *x == *y,
        (Line::Other { token: x }, Line::Other { token: y }) => *x == *y,
        _ => false,
    }
}

/// Equality of two documents at the view level.
pub fn lines_eq(a: &Vec<Line>, b: &Vec<Line>) -> (r: bool)
    ensures
        r == (doc_view(a@) == doc_view(b@)),
{
    if a.len() != b.len() {
        proof {
            assert(doc_view(a@).len() != doc_view(b@).len());
        }
        return false;
    }
    let mut i: usize = 0;
    while i < a.len()
        invariant
            i <= a@.len(),
            a@.len() == b@.len(),
            forall|j: int| 0 <= j < i ==> #[trigger] doc_view(a@)[j] == doc_view(b@)[j],
        decreases a@.len() - i,
    {
        if !line_eq(&a[i], &b[i]) {
            proof {
                assert(doc_view(a@)[i as int] != doc_view(b@)[i as int]);
            }
            return false;
        }
        i += 1;
    }
    proof {
        assert(doc_view(a@) =~= doc_view(b@));
    }
    true
}

} // verus!
