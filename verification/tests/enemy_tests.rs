use my_bevy_game::animation::{AnimationState, FRAME_BACK, FRAME_FRONT_IDLE, FRAME_FRONT_STEP, FRAME_SIDE};
use my_bevy_game::enemy::{
    Enemy, EnemyAnimationState, EnemySpawner, ENEMY_ANIMATION_NANOS, ENEMY_FIRE_COOLDOWN_NANOS,
    SPAWN_COOLDOWN_NANOS,
};

#[test]
fn enemy_states_map_to_animations() {
    assert_eq!(EnemyAnimationState::Idle.as_animation(), AnimationState::Idle);
    assert_eq!(EnemyAnimationState::WalkingFront.as_animation(), AnimationState::WalkingFront);
    assert_eq!(EnemyAnimationState::WalkingSide.as_animation(), AnimationState::WalkingSide);
    assert_eq!(EnemyAnimationState::WalkingBack.as_animation(), AnimationState::WalkingBack);
}

#[test]
fn enemy_faces_its_target() {
    let mut e = Enemy::new();
    e.face_target(true, true, true);
    assert!(e.facing_left);
    assert_eq!(e.animation_state, EnemyAnimationState::WalkingBack);
    e.face_target(false, true, false);
    assert!(!e.facing_left);
    assert_eq!(e.animation_state, EnemyAnimationState::WalkingFront);
    e.face_target(true, false, true);
    assert_eq!(e.animation_state, EnemyAnimationState::WalkingSide);
    e.halt();
    assert_eq!(e.animation_state, EnemyAnimationState::Idle);
    // Halting keeps the way the enemy faces.
    assert!(e.facing_left);
}

#[test]
fn enemy_animation() {
    let mut e = Enemy::new();
    e.face_target(true, false, false);
    let shown = e.animate(0);
    assert_eq!(shown.index, FRAME_SIDE);
    assert!(shown.flip_x);
    assert!(shown.restart_timer);
    e.face_target(false, true, false);
    let shown = e.animate(ENEMY_ANIMATION_NANOS);
    assert_eq!(shown.index, FRAME_FRONT_IDLE);
    let shown = e.animate(ENEMY_ANIMATION_NANOS);
    assert_eq!(shown.index, FRAME_FRONT_STEP);
    assert!(!shown.restart_timer);
    let shown = e.animate(ENEMY_ANIMATION_NANOS);
    assert_eq!(shown.index, FRAME_FRONT_IDLE);
    e.face_target(false, true, true);
    let shown = e.animate(ENEMY_ANIMATION_NANOS);
    assert_eq!(shown.index, FRAME_BACK);
    assert!(shown.flip_x);
}

#[test]
fn default_spawner() {
    let s = EnemySpawner::default();
    assert_eq!(s.count, 0);
    assert_eq!(s.max_enemies, 4);
    assert!(s.wave_active);
    assert!(s.may_spawn());
}

#[test]
fn wave_of_four() {
    let mut s = EnemySpawner::default();
    for k in 1..=4 {
        assert!(s.may_spawn());
        s.record_spawn();
        assert_eq!(s.count, k);
        assert_eq!(s.wave_active, k < 4);
    }
    assert!(!s.may_spawn());
}

#[test]
fn defeat_reopens_full_wave() {
    let mut s = EnemySpawner::default();
    for _ in 0..4 {
        s.record_spawn();
    }
    assert!(!s.may_spawn());
    s.record_defeat();
    assert_eq!(s.count, 3);
    assert!(s.wave_active);
    assert!(s.may_spawn());
    s.record_spawn();
    assert_eq!(s.count, 4);
    assert!(!s.may_spawn());
}

#[test]
fn try_spawn_needs_room_interval_and_clear_site() {
    let mut s = EnemySpawner::default();
    assert!(!s.spawn_due());
    assert!(!s.try_spawn(true));
    s.tick_cooldown(SPAWN_COOLDOWN_NANOS - 1);
    assert!(!s.spawn_due());
    assert!(!s.try_spawn(true));
    s.tick_cooldown(1);
    assert!(s.spawn_due());
    assert!(!s.try_spawn(false));
    assert_eq!(s.count, 0);
    assert!(s.try_spawn(true));
    assert_eq!(s.count, 1);
    for _ in 0..3 {
        s.tick_cooldown(SPAWN_COOLDOWN_NANOS);
        assert!(s.try_spawn(true));
    }
    assert_eq!(s.count, 4);
    assert!(!s.wave_active);
    s.tick_cooldown(SPAWN_COOLDOWN_NANOS);
    assert!(!s.spawn_due());
    assert!(!s.try_spawn(true));
    assert_eq!(s.count, 4);
    s.record_defeat();
    assert!(s.spawn_due());
    assert!(s.try_spawn(true));
    assert_eq!(s.count, 4);
}

#[test]
fn spawn_interval_carries_over() {
    let mut s = EnemySpawner::default();
    s.tick_cooldown(SPAWN_COOLDOWN_NANOS + 500);
    assert!(s.spawn_due());
    assert_eq!(s.cooldown.elapsed, 500);
    s.tick_cooldown(SPAWN_COOLDOWN_NANOS - 501);
    assert!(!s.spawn_due());
    s.tick_cooldown(1);
    assert!(s.spawn_due());
}

#[test]
fn enemy_gun_fires_every_cooldown() {
    let mut e = Enemy::new();
    assert!(!e.gun.fire_step(ENEMY_FIRE_COOLDOWN_NANOS - 1, true));
    assert!(e.gun.fire_step(1, true));
    assert!(!e.gun.fire_step(0, true));
    assert!(!e.gun.fire_step(ENEMY_FIRE_COOLDOWN_NANOS / 2, true));
    assert!(e.gun.fire_step(ENEMY_FIRE_COOLDOWN_NANOS / 2, true));
}

#[test]
fn defeats_free_room_during_a_wave() {
    let mut s = EnemySpawner::default();
    s.record_spawn();
    s.record_spawn();
    s.record_defeat();
    assert_eq!(s.count, 1);
    assert!(s.may_spawn());
}

#[test]
fn defeat_never_goes_below_zero() {
    let mut s = EnemySpawner::default();
    s.record_defeat();
    assert_eq!(s.count, 0);
    assert!(s.wave_active);
}
