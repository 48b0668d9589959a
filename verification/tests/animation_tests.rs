use my_bevy_game::animation::{
    first_frame, flip_x, frame_after_tick, AnimationState, Animator, FRAME_BACK, FRAME_FRONT_IDLE,
    FRAME_FRONT_STEP, FRAME_SIDE,
};
use my_bevy_game::player::{
    weapon_offset_x, MovementKeys, Player, StepDirection, PLAYER_ANIMATION_NANOS,
};

fn keys(up: bool, down: bool, left: bool, right: bool) -> MovementKeys {
    MovementKeys { up, down, left, right }
}

#[test]
fn first_frames() {
    assert_eq!(first_frame(AnimationState::Idle), FRAME_FRONT_IDLE);
    assert_eq!(first_frame(AnimationState::WalkingFront), FRAME_FRONT_IDLE);
    assert_eq!(first_frame(AnimationState::WalkingSide), FRAME_SIDE);
    assert_eq!(first_frame(AnimationState::WalkingBack), FRAME_BACK);
}

#[test]
fn ticks_advance_only_the_front_walk() {
    assert_eq!(frame_after_tick(AnimationState::WalkingFront, FRAME_FRONT_IDLE), FRAME_FRONT_STEP);
    assert_eq!(frame_after_tick(AnimationState::WalkingFront, FRAME_FRONT_STEP), FRAME_FRONT_IDLE);
    assert_eq!(frame_after_tick(AnimationState::WalkingSide, FRAME_SIDE), FRAME_SIDE);
    assert_eq!(frame_after_tick(AnimationState::WalkingBack, FRAME_BACK), FRAME_BACK);
    assert_eq!(frame_after_tick(AnimationState::Idle, FRAME_FRONT_IDLE), FRAME_FRONT_IDLE);
}

#[test]
fn mirroring() {
    assert!(flip_x(AnimationState::WalkingSide, true));
    assert!(!flip_x(AnimationState::WalkingSide, false));
    assert!(!flip_x(AnimationState::WalkingBack, true));
    assert!(flip_x(AnimationState::WalkingBack, false));
    assert!(!flip_x(AnimationState::Idle, true));
    assert!(!flip_x(AnimationState::WalkingFront, true));
}

#[test]
fn animator_changes_animation_then_ticks() {
    let mut a = Animator::new();
    let shown = a.animate(true);
    assert_eq!(shown.index, FRAME_FRONT_IDLE);
    assert!(!shown.restart_timer);
    a.animation_state = AnimationState::WalkingFront;
    // The change wins over a tick: start from the first frame, restart the timer.
    let shown = a.animate(true);
    assert_eq!(shown.index, FRAME_FRONT_IDLE);
    assert!(shown.restart_timer);
    assert_eq!(a.previous_state, AnimationState::WalkingFront);
    let shown = a.animate(false);
    assert_eq!(shown.index, FRAME_FRONT_IDLE);
    let shown = a.animate(true);
    assert_eq!(shown.index, FRAME_FRONT_STEP);
    let shown = a.animate(true);
    assert_eq!(shown.index, FRAME_FRONT_IDLE);
    a.animation_state = AnimationState::WalkingSide;
    a.facing_left = true;
    let shown = a.animate(false);
    assert_eq!(shown.index, FRAME_SIDE);
    assert!(shown.flip_x);
    assert!(shown.restart_timer);
}

#[test]
fn movement_keys_give_direction_and_animation() {
    let mut p = Player::new();
    assert_eq!(p.apply_movement_keys(keys(true, false, false, false)), StepDirection { x: 0, y: 1 });
    assert_eq!(p.animation_state, AnimationState::WalkingBack);
    assert_eq!(p.apply_movement_keys(keys(false, true, false, false)), StepDirection { x: 0, y: -1 });
    assert_eq!(p.animation_state, AnimationState::WalkingFront);
    assert_eq!(p.apply_movement_keys(keys(false, false, true, false)), StepDirection { x: -1, y: 0 });
    assert_eq!(p.animation_state, AnimationState::WalkingSide);
    assert!(p.facing_left);
    assert_eq!(p.apply_movement_keys(keys(false, false, false, true)), StepDirection { x: 1, y: 0 });
    assert!(!p.facing_left);
    assert_eq!(p.apply_movement_keys(keys(false, false, false, false)), StepDirection { x: 0, y: 0 });
    assert_eq!(p.animation_state, AnimationState::Idle);
}

#[test]
fn opposite_keys_cancel() {
    let mut p = Player::new();
    assert_eq!(p.apply_movement_keys(keys(true, true, false, false)), StepDirection { x: 0, y: 0 });
    assert_eq!(p.animation_state, AnimationState::Idle);
    assert_eq!(p.apply_movement_keys(keys(false, false, true, true)), StepDirection { x: 0, y: 0 });
    assert_eq!(p.animation_state, AnimationState::Idle);
    // Right wins over left for the way the player faces.
    assert!(!p.facing_left);
    // Up and down cancel, left remains: a side walk, but no turn.
    assert_eq!(p.apply_movement_keys(keys(true, true, true, false)), StepDirection { x: -1, y: 0 });
    assert_eq!(p.animation_state, AnimationState::WalkingSide);
    assert!(!p.facing_left);
}

#[test]
fn diagonal_walk() {
    let mut p = Player::new();
    assert_eq!(p.apply_movement_keys(keys(true, false, true, false)), StepDirection { x: -1, y: 1 });
    assert_eq!(p.animation_state, AnimationState::WalkingBack);
    // A vertical key is held, so the player does not turn.
    assert!(!p.facing_left);
    assert_eq!(p.apply_movement_keys(keys(false, true, false, true)), StepDirection { x: 1, y: -1 });
    assert_eq!(p.animation_state, AnimationState::WalkingFront);
}

#[test]
fn player_animation_follows_its_movement() {
    let mut p = Player::new();
    p.apply_movement_keys(keys(false, false, true, false));
    let shown = p.animate(0);
    assert_eq!(shown.index, FRAME_SIDE);
    assert!(shown.flip_x);
    assert!(shown.restart_timer);
    assert_eq!(p.animation_timer.elapsed, 0);
    p.apply_movement_keys(keys(true, false, false, false));
    let shown = p.animate(PLAYER_ANIMATION_NANOS);
    assert_eq!(shown.index, FRAME_BACK);
    // Seen from the back, a player facing left is not mirrored.
    assert!(!shown.flip_x);
    assert!(shown.restart_timer);
    let shown = p.animate(PLAYER_ANIMATION_NANOS);
    assert_eq!(shown.index, FRAME_BACK);
    assert!(!shown.restart_timer);
}

#[test]
fn front_walk_steps_with_the_animation_timer() {
    let mut p = Player::new();
    p.apply_movement_keys(keys(false, true, false, false));
    assert_eq!(p.animate(0).index, FRAME_FRONT_IDLE);
    // Less than a frame time: no step yet.
    assert_eq!(p.animate(PLAYER_ANIMATION_NANOS - 1).index, FRAME_FRONT_IDLE);
    assert_eq!(p.animate(1).index, FRAME_FRONT_STEP);
    assert_eq!(p.animate(PLAYER_ANIMATION_NANOS).index, FRAME_FRONT_IDLE);
    assert_eq!(p.animate(PLAYER_ANIMATION_NANOS / 2).index, FRAME_FRONT_IDLE);
    assert_eq!(p.animate(PLAYER_ANIMATION_NANOS / 2).index, FRAME_FRONT_STEP);
}

#[test]
fn weapon_offsets() {
    assert_eq!(weapon_offset_x(true), -15);
    assert_eq!(weapon_offset_x(false), 15);
}
