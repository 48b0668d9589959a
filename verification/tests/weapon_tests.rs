use my_bevy_game::animation::AnimationState;
use my_bevy_game::combat::{first_enemy_hit, record_enemy_defeat};
use my_bevy_game::enemy::EnemySpawner;
use my_bevy_game::game_state::GameScore;
use my_bevy_game::player::{
    Gun, MovementKeys, Player, StepDirection, PLAYER_FIRE_COOLDOWN_NANOS,
};
use my_bevy_game::weapon::{player_facing_direction, weapon_pose, WeaponPose};

#[test]
fn facing_directions() {
    let mut p = Player::new();
    assert_eq!(player_facing_direction(&p), StepDirection { x: 1, y: 0 });
    p.apply_movement_keys(MovementKeys { up: false, down: false, left: true, right: false });
    assert_eq!(player_facing_direction(&p), StepDirection { x: -1, y: 0 });
    p.apply_movement_keys(MovementKeys { up: true, down: false, left: false, right: false });
    assert_eq!(player_facing_direction(&p), StepDirection { x: 0, y: 1 });
    p.apply_movement_keys(MovementKeys { up: false, down: true, left: false, right: false });
    assert_eq!(player_facing_direction(&p), StepDirection { x: 0, y: -1 });
    p.apply_movement_keys(MovementKeys { up: false, down: false, left: false, right: false });
    // Idle again, still facing left.
    assert_eq!(player_facing_direction(&p), StepDirection { x: -1, y: 0 });
}

#[test]
fn weapon_poses() {
    assert_eq!(weapon_pose(AnimationState::Idle, false), WeaponPose { x: 10, y: -8, angle_degrees: 0 });
    assert_eq!(weapon_pose(AnimationState::WalkingSide, true), WeaponPose { x: -10, y: -8, angle_degrees: 180 });
    assert_eq!(weapon_pose(AnimationState::WalkingFront, false), WeaponPose { x: 6, y: -14, angle_degrees: 270 });
    assert_eq!(weapon_pose(AnimationState::WalkingFront, true), WeaponPose { x: -6, y: -14, angle_degrees: 270 });
    assert_eq!(weapon_pose(AnimationState::WalkingBack, false), WeaponPose { x: 6, y: -4, angle_degrees: 90 });
    assert_eq!(weapon_pose(AnimationState::WalkingBack, true), WeaponPose { x: -6, y: -4, angle_degrees: 90 });
}

#[test]
fn barrel_points_where_bullets_fly() {
    let states = [
        AnimationState::Idle,
        AnimationState::WalkingFront,
        AnimationState::WalkingSide,
        AnimationState::WalkingBack,
    ];
    for state in states {
        for facing_left in [false, true] {
            let mut p = Player::new();
            p.animation_state = state;
            p.previous_state = state;
            p.facing_left = facing_left;
            let dir = player_facing_direction(&p);
            let pose = weapon_pose(state, facing_left);
            let rad = (pose.angle_degrees as f64).to_radians();
            assert!((rad.cos() - dir.x as f64).abs() < 1e-9);
            assert!((rad.sin() - dir.y as f64).abs() < 1e-9);
        }
    }
}

#[test]
fn firing_needs_trigger_and_cooldown() {
    let mut gun = Gun::new(PLAYER_FIRE_COOLDOWN_NANOS);
    // Not cooled down yet.
    assert!(!gun.fire_step(PLAYER_FIRE_COOLDOWN_NANOS - 1, true));
    // Cooled down, but the trigger is not pressed: no shot, stays ready.
    assert!(!gun.fire_step(1, false));
    assert!(gun.cooldown.finished);
    assert!(!gun.fire_step(0, false));
    // Pressed while ready: a shot, and the cooldown starts over.
    assert!(gun.fire_step(0, true));
    assert_eq!(gun.cooldown.elapsed, 0);
    assert!(!gun.cooldown.finished);
    // Shots are at least the cooldown apart.
    let mut t = 0;
    while t + 10_000_000 < PLAYER_FIRE_COOLDOWN_NANOS {
        assert!(!gun.fire_step(10_000_000, true));
        t += 10_000_000;
    }
    assert!(gun.fire_step(10_000_000, true));
}

#[test]
fn bullet_hits_first_enemy_in_reach() {
    assert_eq!(first_enemy_hit(&vec![]), None);
    assert_eq!(first_enemy_hit(&vec![false, false]), None);
    assert_eq!(first_enemy_hit(&vec![false, true, true]), Some(1));
    assert_eq!(first_enemy_hit(&vec![true, true]), Some(0));
}

#[test]
fn defeat_scores_and_frees_the_wave() {
    let mut score = GameScore::with_high_score(1);
    let mut spawner = EnemySpawner::default();
    spawner.record_spawn();
    spawner.record_spawn();
    assert!(!record_enemy_defeat(&mut score, &mut spawner));
    assert_eq!(score, GameScore { current: 1, high_score: 1 });
    assert_eq!(spawner.count, 1);
    assert!(record_enemy_defeat(&mut score, &mut spawner));
    assert_eq!(score, GameScore { current: 2, high_score: 2 });
    assert_eq!(spawner.count, 0);
    assert!(record_enemy_defeat(&mut score, &mut spawner));
    assert_eq!(spawner.count, 0);
}

#[test]
fn fires_where_it_walks() {
    let singles = [
        MovementKeys { up: true, down: false, left: false, right: false },
        MovementKeys { up: false, down: true, left: false, right: false },
        MovementKeys { up: false, down: false, left: true, right: false },
        MovementKeys { up: false, down: false, left: false, right: true },
    ];
    for start_left in [false, true] {
        for keys in singles {
            let mut p = Player::new();
            p.facing_left = start_left;
            let step = p.apply_movement_keys(keys);
            assert_eq!(player_facing_direction(&p), step);
        }
    }
    // With up and down both held, a step to the left does not turn a player
    // that faces right: it walks left but fires right.
    let mut p = Player::new();
    let step = p.apply_movement_keys(MovementKeys { up: true, down: true, left: true, right: false });
    assert_eq!(step, StepDirection { x: -1, y: 0 });
    assert_eq!(player_facing_direction(&p), StepDirection { x: 1, y: 0 });
}
