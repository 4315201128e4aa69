//! The cleaning passes exercised on parsed script text.
//!
//! Scripts are parsed with the `hltas` crate and converted into the library's
//! line model; expected outputs are parsed and converted the same way and
//! compared at the model level.

use hltas::types as ht;
use hltas::HLTAS;
use hltas_cleaner::types::{
    ActionKeys, AutoActions, AutoMovement, ChangeDirective, ChangeTarget, FrameBulk,
    LeaveGroundAction, LeaveGroundActionSpeed, LeaveGroundActionType, Line, MovementKeys,
    StrafeDir, StrafeSettings, StrafeType, Times, VectorialConstraint,
};
use hltas_cleaner::types::{lines_eq, DuckBeforeCollision, DuckBeforeGround, DuckWhenJump, JumpBug};
use hltas_cleaner::{no_dupe_framebulks, remove_comments};

fn convert_times(t: ht::Times) -> Times {
    match t {
        ht::Times::UnlimitedWithinFrameBulk => Times::UnlimitedWithinFrameBulk,
        ht::Times::Limited(n) => Times::Limited(n.get()),
    }
}

fn convert_auto(a: &ht::AutoActions) -> AutoActions {
    AutoActions {
        movement: a.movement.map(|m| match m {
            ht::AutoMovement::SetYaw(y) => AutoMovement::SetYaw(y.to_bits()),
            ht::AutoMovement::Strafe(st) => AutoMovement::Strafe(StrafeSettings {
                type_: match st.type_ {
                    ht::StrafeType::MaxAccel => StrafeType::MaxAccel,
                    ht::StrafeType::MaxAngle => StrafeType::MaxAngle,
                    ht::StrafeType::MaxDeccel => StrafeType::MaxDeccel,
                    ht::StrafeType::ConstSpeed => StrafeType::ConstSpeed,
                    ht::StrafeType::ConstYawspeed(v) => StrafeType::ConstYawspeed(v.to_bits()),
                    ht::StrafeType::MaxAccelYawOffset { start, target, accel } => {
                        StrafeType::MaxAccelYawOffset {
                            start: start.to_bits(),
                            target: target.to_bits(),
                            accel: accel.to_bits(),
                        }
                    }
                },
                dir: match st.dir {
                    ht::StrafeDir::Left => StrafeDir::Left,
                    ht::StrafeDir::Right => StrafeDir::Right,
                    ht::StrafeDir::Best => StrafeDir::Best,
                    ht::StrafeDir::Yaw(y) => StrafeDir::Yaw(y.to_bits()),
                    ht::StrafeDir::Point { x, y } => StrafeDir::Point {
                        x: x.to_bits(),
                        y: y.to_bits(),
                    },
                    ht::StrafeDir::Line { yaw } => StrafeDir::StrafeLine { yaw: yaw.to_bits() },
                    ht::StrafeDir::LeftRight(n) => StrafeDir::LeftRight(n.get()),
                    ht::StrafeDir::RightLeft(n) => StrafeDir::RightLeft(n.get()),
                },
            }),
        }),
        leave_ground_action: a.leave_ground_action.map(|l| LeaveGroundAction {
            speed: match l.speed {
                ht::LeaveGroundActionSpeed::Any => LeaveGroundActionSpeed::Any,
                ht::LeaveGroundActionSpeed::Optimal => LeaveGroundActionSpeed::Optimal,
                ht::LeaveGroundActionSpeed::OptimalWithFullMaxspeed => {
                    LeaveGroundActionSpeed::OptimalWithFullMaxspeed
                }
            },
            times: convert_times(l.times),
            type_: match l.type_ {
                ht::LeaveGroundActionType::Jump => LeaveGroundActionType::Jump,
                ht::LeaveGroundActionType::DuckTap { zero_ms } => {
                    LeaveGroundActionType::DuckTap { zero_ms }
                }
            },
        }),
        jump_bug: a.jump_bug.map(|j| JumpBug { times: convert_times(j.times) }),
        duck_before_collision: a.duck_before_collision.map(|d| DuckBeforeCollision {
            times: convert_times(d.times),
            including_ceilings: d.including_ceilings,
        }),
        duck_before_ground: a
            .duck_before_ground
            .map(|d| DuckBeforeGround { times: convert_times(d.times) }),
        duck_when_jump: a.duck_when_jump.map(|d| DuckWhenJump { times: convert_times(d.times) }),
    }
}

fn convert_bulk(fb: &ht::FrameBulk) -> FrameBulk {
    FrameBulk {
        auto_actions: convert_auto(&fb.auto_actions),
        movement_keys: MovementKeys {
            forward: fb.movement_keys.forward,
            left: fb.movement_keys.left,
            right: fb.movement_keys.right,
            back: fb.movement_keys.back,
            up: fb.movement_keys.up,
            down: fb.movement_keys.down,
        },
        action_keys: ActionKeys {
            jump: fb.action_keys.jump,
            duck: fb.action_keys.duck,
            use_: fb.action_keys.use_,
            attack_1: fb.action_keys.attack_1,
            attack_2: fb.action_keys.attack_2,
            reload: fb.action_keys.reload,
        },
        frame_time: fb.frame_time.as_bytes().to_vec(),
        pitch: fb.pitch.map(|p| p.to_bits()),
        frame_count: fb.frame_count.get(),
        console_command: fb.console_command.as_ref().map(|c| c.as_bytes().to_vec()),
    }
}

/// Converts parsed script lines into the library's model. Line kinds the
/// passes treat as opaque get consecutive tokens, so two documents converted
/// line-for-line in the same order compare equal exactly when their opaque
/// lines sit at matching positions.
fn convert_lines(src: &[ht::Line]) -> Vec<Line> {
    let mut next_token = 0usize;
    let mut out = Vec::new();
    for l in src {
        let converted = match l {
            ht::Line::FrameBulk(fb) => Line::FrameBulk(convert_bulk(fb)),
            ht::Line::Comment(c) => Line::Comment(c.as_bytes().to_vec()),
            ht::Line::TargetYawOverride(ys) => {
                Line::TargetYawOverride(ys.iter().map(|y| y.to_bits()).collect())
            }
            ht::Line::Change(c) => Line::Change(ChangeDirective {
                target: match c.target {
                    ht::ChangeTarget::Yaw => ChangeTarget::Yaw,
                    ht::ChangeTarget::Pitch => ChangeTarget::Pitch,
                    ht::ChangeTarget::VectorialStrafingYaw => ChangeTarget::VectorialStrafingYaw,
                    ht::ChangeTarget::VectorialStrafingYawOffset => {
                        ChangeTarget::VectorialStrafingYawOffset
                    }
                },
                final_value: c.final_value.to_bits(),
                over: c.over.to_bits(),
            }),
            ht::Line::VectorialStrafingConstraints(vc) => match vc {
                ht::VectorialStrafingConstraints::Yaw { yaw, tolerance } => {
                    Line::VectorialConstraint(VectorialConstraint::FixedYaw {
                        yaw: yaw.to_bits(),
                        tolerance: tolerance.to_bits(),
                    })
                }
                ht::VectorialStrafingConstraints::YawRange { from, to } => {
                    Line::VectorialConstraint(VectorialConstraint::YawRange {
                        from: from.to_bits(),
                        to: to.to_bits(),
                    })
                }
                _ => {
                    let token = next_token;
                    next_token += 1;
                    Line::VectorialConstraint(VectorialConstraint::Other { token })
                }
            },
            _ => {
                let token = next_token;
                next_token += 1;
                Line::Other { token }
            }
        };
        out.push(converted);
    }
    out
}

fn parse_to_model(script: &str) -> Vec<Line> {
    let parsed = HLTAS::from_str(script).unwrap();
    convert_lines(&parsed.lines)
}

#[test]
fn framebulk_dupe_test() {
    let content_before = "\
version 1
frames
----------|------|------|0.001|0|-|1
----------|------|------|0.001|1|-|1
";

    let content_after = "\
version 1
frames
----------|------|------|0.001|-|-|2
        ";

    let mut content_before = parse_to_model(content_before);
    let content_after = parse_to_model(content_after);

    no_dupe_framebulks(&mut content_before).unwrap();

    assert!(!lines_eq(&content_before, &content_after));
}

#[test]
fn framebulk_dupe_test_2() {
    let content_before = "\
version 1
frames
s03l-D-c--|------|------|0.001|280.1407|-|1
s03l-D-c--|------|------|0.001|280.1407|-|2
s03l-D-c--|------|------|0.001|280.1407|-|3
s03l-D-c--|------|------|0.001|280.1407|-|4
s03l-D-c--|------|------|0.001|280.1407|-|5
s03l-D-cg-|------|------|0.001|280.1407|-|5
// im in the way!
target_yaw velocity_lock
s03l-D-c--|------|------|0.001|280.1407|-|6
save buffer
-------c--|------|------|0.001|-|-|50|weapon_shotgun
-------c--|------|------|0.001|-|-|50|weapon_shotgun
";

    let content_after = "\
version 1
frames
s03l-D-c--|------|------|0.001|280.1407|-|15
s03l-D-cg-|------|------|0.001|280.1407|-|5
// im in the way!
target_yaw velocity_lock
s03l-D-c--|------|------|0.001|280.1407|-|6
save buffer
-------c--|------|------|0.001|-|-|100|weapon_shotgun
        ";

    let mut content_before = parse_to_model(content_before);
    let content_after = parse_to_model(content_after);

    no_dupe_framebulks(&mut content_before).unwrap();

    assert!(lines_eq(&content_before, &content_after));
}

#[test]
fn framebulk_dupe_test_3() {
    let content_before = "\
version 1
frames
----------|------|------|0.001|0|-|1|a
----------|------|------|0.001|0|-|2|a
";

    let content_after = "\
version 1
frames
----------|------|------|0.001|0|-|3|a
";

    let mut content_before = parse_to_model(content_before);
    let content_after = parse_to_model(content_after);

    no_dupe_framebulks(&mut content_before).unwrap();

    assert!(lines_eq(&content_before, &content_after));
}

#[test]
fn framebulk_dupe_test_4() {
    let content_before = "\
version 1
frames
----------|------|------|0.001|-|-|1
----------|------|------|0.25|-|-|2
----------|------|------|0.001|-|-|3
----------|------|------|0.001|-|-|4
----------|------|------|0.010000001|-|-|5
----------|------|------|0.001|-|-|6
----------|------|------|0.001|-|-|5
";

    let content_after = "\
version 1
frames
----------|------|------|0.001|-|-|1
----------|------|------|0.25|-|-|2
----------|------|------|0.001|-|-|7
----------|------|------|0.010000001|-|-|5
----------|------|------|0.001|-|-|11
";

    let mut content_before = parse_to_model(content_before);
    let content_after = parse_to_model(content_after);

    no_dupe_framebulks(&mut content_before).unwrap();

    assert!(lines_eq(&content_before, &content_after));
}

#[test]
fn no_comment() {
    let content_before = "\
version 1
frames
// yes
----------|------|------|0.001|-|-|1
// aaaaaaaa something
// yo
----------|------|------|0.001|-|-|1
----------|------|------|0.001|-|-|1
----------|------|------|0.001|-|-|1
// no
";

    let content_after = "\
version 1
frames
----------|------|------|0.001|-|-|1
----------|------|------|0.001|-|-|1
----------|------|------|0.001|-|-|1
----------|------|------|0.001|-|-|1
";
    let mut content_before = parse_to_model(content_before);
    let content_after = parse_to_model(content_after);

    remove_comments(&mut content_before);

    assert!(lines_eq(&content_before, &content_after));
}
