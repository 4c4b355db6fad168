//! Cycling and detachment of body parts, and the movement resolver.

use project_bones::components_events::{
    Action, ActionFlags, ActionState, ArmVec, BodyPart, BodyPartEntity, BodyParts, MouseState,
    Player, Vec2,
};
use project_bones::movement::{camera_follow, cycle_part, detach_part, player_movement};

fn no_flags() -> ActionFlags {
    ActionFlags {
        up: false,
        down: false,
        left: false,
        right: false,
        interact: false,
        cycle_forward: false,
        cycle_backward: false,
        unused: false,
        split: false,
    }
}

fn idle() -> ActionState {
    ActionState { held: no_flags(), fresh: no_flags() }
}

fn still_mouse() -> MouseState {
    MouseState {
        left_just_pressed: false,
        left_just_released: false,
        cursor: Vec2 { x: 0, y: 0 },
    }
}

fn three_part_player() -> BodyParts {
    let mut bp = BodyParts::default();
    bp.body_parts.push(BodyPart::LeftArm);
    bp.body_parts.push(BodyPart::Head);
    bp
}

fn cycle_forward_once(bp: &mut BodyParts) {
    let mut actions = idle();
    actions.fresh.cycle_forward = true;
    let parts: Vec<BodyPartEntity> = Vec::new();
    let mut camera = Vec2 { x: 0, y: 0 };
    cycle_part(&actions, bp, &parts, &mut camera);
}

#[test]
fn cycling_forward_length_times_returns_to_start() {
    for start in 0..3usize {
        let mut bp = three_part_player();
        bp.index = start;
        bp.current_part = bp.body_parts[start];
        for _ in 0..3 {
            cycle_forward_once(&mut bp);
        }
        assert_eq!(bp.index, start);
        assert_eq!(bp.current_part, bp.body_parts[start]);
    }
}

#[test]
fn cycling_single_part_list_is_a_no_op() {
    let mut bp = BodyParts::default();
    cycle_forward_once(&mut bp);
    assert_eq!(bp.index, 0);
    assert_eq!(bp.current_part, BodyPart::Body);
}

#[test]
fn cycle_forward_then_backward_is_identity() {
    let mut bp = three_part_player();
    bp.index = 1;
    bp.current_part = BodyPart::LeftArm;

    let mut actions = idle();
    actions.fresh.cycle_forward = true;
    let parts: Vec<BodyPartEntity> = Vec::new();
    let mut camera = Vec2 { x: 0, y: 0 };
    cycle_part(&actions, &mut bp, &parts, &mut camera);
    assert_eq!(bp.index, 2);

    let mut actions = idle();
    actions.fresh.cycle_backward = true;
    cycle_part(&actions, &mut bp, &parts, &mut camera);
    assert_eq!(bp.index, 1);
    assert_eq!(bp.current_part, BodyPart::LeftArm);
}

#[test]
fn cycle_backward_wraps_to_tail() {
    let mut bp = three_part_player();
    let mut actions = idle();
    actions.fresh.cycle_backward = true;
    let parts: Vec<BodyPartEntity> = Vec::new();
    let mut camera = Vec2 { x: 0, y: 0 };
    cycle_part(&actions, &mut bp, &parts, &mut camera);
    assert_eq!(bp.index, 2);
    assert_eq!(bp.current_part, BodyPart::Head);
}

#[test]
fn cycle_camera_previews_selected_part_with_lift() {
    let mut bp = BodyParts::default();
    bp.body_parts.push(BodyPart::LeftArm);
    let mut parts: Vec<BodyPartEntity> = Vec::new();
    parts.push(BodyPartEntity { part: BodyPart::Body, transform: Vec2 { x: 1, y: 2 } });
    parts.push(BodyPartEntity { part: BodyPart::LeftArm, transform: Vec2 { x: 30, y: 40 } });
    let mut actions = idle();
    actions.fresh.cycle_forward = true;
    let mut camera = Vec2 { x: 0, y: 0 };
    cycle_part(&actions, &mut bp, &parts, &mut camera);
    assert_eq!(bp.current_part, BodyPart::LeftArm);
    assert_eq!(camera, Vec2 { x: 30, y: 40 + 680 });
}

#[test]
fn detach_appends_left_arm_and_jumps_cursor_to_tail() {
    let mut bp = BodyParts::default();
    let mut parts: Vec<BodyPartEntity> = Vec::new();
    parts.push(BodyPartEntity { part: BodyPart::Body, transform: Vec2 { x: 100, y: 50 } });
    let mut actions = idle();
    actions.fresh.split = true;
    let mut camera = Vec2 { x: 0, y: 0 };

    detach_part(&actions, &mut bp, &mut parts, &mut camera);

    assert_eq!(bp.body_parts, vec![BodyPart::Body, BodyPart::LeftArm]);
    assert_eq!(bp.body_parts.len(), 2);
    assert_eq!(bp.index, 1);
    assert_eq!(bp.current_part, BodyPart::LeftArm);
    assert_eq!(parts.len(), 2);
    assert_eq!(parts[1].part, BodyPart::LeftArm);
    assert_eq!(parts[1].transform, Vec2 { x: 80, y: 30 });
    assert_eq!(camera, Vec2 { x: 80, y: 30 });
}

#[test]
fn detach_requires_body_active_and_rising_edge() {
    let mut bp = BodyParts::default();
    bp.body_parts.push(BodyPart::LeftArm);
    bp.index = 1;
    bp.current_part = BodyPart::LeftArm;
    let mut parts: Vec<BodyPartEntity> = Vec::new();
    parts.push(BodyPartEntity { part: BodyPart::Body, transform: Vec2 { x: 0, y: 0 } });
    let mut camera = Vec2 { x: 5, y: 5 };

    // active part is not the body: nothing happens even on the rising edge
    let mut actions = idle();
    actions.fresh.split = true;
    detach_part(&actions, &mut bp, &mut parts, &mut camera);
    assert_eq!(bp.body_parts.len(), 2);
    assert_eq!(parts.len(), 1);

    // body active but no rising edge: nothing happens either
    bp.index = 0;
    bp.current_part = BodyPart::Body;
    let actions = idle();
    detach_part(&actions, &mut bp, &mut parts, &mut camera);
    assert_eq!(bp.body_parts.len(), 2);
    assert_eq!(parts.len(), 1);
    assert_eq!(camera, Vec2 { x: 5, y: 5 });
}

#[test]
fn holding_up_three_ticks_at_speed_two_raises_body_by_six() {
    let player = Player::Moving;
    let bp = BodyParts::default();
    let mut parts: Vec<BodyPartEntity> = Vec::new();
    parts.push(BodyPartEntity { part: BodyPart::Body, transform: Vec2 { x: 11, y: -3 } });
    let mut arm = ArmVec(Vec2 { x: 0, y: 0 });
    let mut actions = idle();
    actions.held.up = true;

    for _ in 0..3 {
        player_movement(&player, &bp, &mut parts, &mut arm, &actions, &still_mouse());
    }

    assert_eq!(parts[0].transform.y, -3 + 6);
    assert_eq!(parts[0].transform.x, 11);
}

#[test]
fn diagonal_holds_compose_additively() {
    let player = Player::Moving;
    let bp = BodyParts::default();
    let mut parts: Vec<BodyPartEntity> = Vec::new();
    parts.push(BodyPartEntity { part: BodyPart::Body, transform: Vec2 { x: 0, y: 0 } });
    let mut arm = ArmVec(Vec2 { x: 0, y: 0 });
    let mut actions = idle();
    actions.held.up = true;
    actions.held.right = true;

    player_movement(&player, &bp, &mut parts, &mut arm, &actions, &still_mouse());

    assert_eq!(parts[0].transform, Vec2 { x: 2, y: 2 });
}

#[test]
fn interacting_mode_suppresses_movement() {
    let player = Player::Interacting;
    let bp = BodyParts::default();
    let mut parts: Vec<BodyPartEntity> = Vec::new();
    parts.push(BodyPartEntity { part: BodyPart::Body, transform: Vec2 { x: 1, y: 1 } });
    let mut arm = ArmVec(Vec2 { x: 0, y: 0 });
    let mut actions = idle();
    actions.held.up = true;

    player_movement(&player, &bp, &mut parts, &mut arm, &actions, &still_mouse());

    assert_eq!(parts[0].transform, Vec2 { x: 1, y: 1 });
}

#[test]
fn arm_drag_moves_every_arm_against_the_drag() {
    let player = Player::Moving;
    let mut bp = BodyParts::default();
    bp.body_parts.push(BodyPart::LeftArm);
    bp.index = 1;
    bp.current_part = BodyPart::LeftArm;

    let mut parts: Vec<BodyPartEntity> = Vec::new();
    parts.push(BodyPartEntity { part: BodyPart::Body, transform: Vec2 { x: 0, y: 0 } });
    parts.push(BodyPartEntity { part: BodyPart::LeftArm, transform: Vec2 { x: 10, y: 10 } });
    parts.push(BodyPartEntity { part: BodyPart::RightArm, transform: Vec2 { x: 20, y: 20 } });
    let mut arm = ArmVec(Vec2 { x: 0, y: 0 });
    let actions = idle();

    // press records the origin
    let press = MouseState {
        left_just_pressed: true,
        left_just_released: false,
        cursor: Vec2 { x: 5, y: 5 },
    };
    player_movement(&player, &bp, &mut parts, &mut arm, &actions, &press);
    assert_eq!(arm.0, Vec2 { x: 5, y: 5 });
    assert_eq!(parts[1].transform, Vec2 { x: 10, y: 10 });

    // release applies the delta to both arms, not to the body
    let release = MouseState {
        left_just_pressed: false,
        left_just_released: true,
        cursor: Vec2 { x: 8, y: 1 },
    };
    player_movement(&player, &bp, &mut parts, &mut arm, &actions, &release);
    assert_eq!(parts[0].transform, Vec2 { x: 0, y: 0 });
    assert_eq!(parts[1].transform, Vec2 { x: 10 - 3, y: 10 + 4 });
    assert_eq!(parts[2].transform, Vec2 { x: 20 - 3, y: 20 + 4 });
}

#[test]
fn camera_follows_last_entity_with_active_tag() {
    let bp = BodyParts::default();
    let mut parts: Vec<BodyPartEntity> = Vec::new();
    parts.push(BodyPartEntity { part: BodyPart::Body, transform: Vec2 { x: 1, y: 2 } });
    parts.push(BodyPartEntity { part: BodyPart::Body, transform: Vec2 { x: 3, y: 4 } });
    let mut camera = Vec2 { x: 9, y: 9 };
    camera_follow(&bp, &parts, &mut camera);
    assert_eq!(camera, Vec2 { x: 3, y: 4 });
}

#[test]
fn camera_stays_without_matching_part() {
    let mut bp = BodyParts::default();
    bp.body_parts.push(BodyPart::Head);
    bp.index = 1;
    bp.current_part = BodyPart::Head;
    let mut parts: Vec<BodyPartEntity> = Vec::new();
    parts.push(BodyPartEntity { part: BodyPart::Body, transform: Vec2 { x: 1, y: 2 } });
    let mut camera = Vec2 { x: 9, y: 9 };
    camera_follow(&bp, &parts, &mut camera);
    assert_eq!(camera, Vec2 { x: 9, y: 9 });
}

#[test]
fn action_queries_read_the_recorded_flags() {
    let mut actions = idle();
    actions.held.left = true;
    actions.fresh.interact = true;
    assert!(actions.pressed(Action::Left));
    assert!(!actions.pressed(Action::Right));
    assert!(actions.just_pressed(Action::Interact));
    assert!(!actions.just_pressed(Action::Split));
}
