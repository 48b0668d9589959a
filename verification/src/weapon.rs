use vstd::prelude::*;

use crate::animation::{spec_flip_x, AnimationState};
use crate::player::{
    spec_axis,
    spec_facing_after_keys,
    spec_movement_animation,
    MovementKeys,
    Player,
    StepDirection,
};

verus! {

/// The direction a player fires in: up when walking away, down when walking
/// towards the viewer, otherwise left or right as it faces.
pub open spec fn spec_facing_direction(state: AnimationState, facing_left: bool) -> StepDirection {
    match state {
        AnimationState::WalkingBack => StepDirection { x: 0, y: 1 },
        AnimationState::WalkingFront => StepDirection { x: 0, y: -1i32 },
        _ => if facing_left {
            StepDirection { x: -1i32, y: 0 }
        } else {
            StepDirection { x: 1, y: 0 }
        },
    }
}

/// The unit direction in which the player's bullets fly.
pub fn player_facing_direction(player: &Player) -> (direction: StepDirection)
    ensures
        direction == spec_facing_direction(player.animation_state, player.facing_left),
{
    match player.animation_state {
        AnimationState::WalkingBack => StepDirection { x: 0, y: 1 },
        AnimationState::WalkingFront => StepDirection { x: 0, y: -1 },
        AnimationState::WalkingSide | AnimationState::Idle => {
            if player.facing_left {
                StepDirection { x: -1, y: 0 }
            } else {
                StepDirection { x: 1, y: 0 }
            }
        },
    }
}

/// Where the gun sits relative to the player, and where its barrel points.
#[derive(Clone, Copy, PartialEq, Eq, Debug, Structural)]
pub struct WeaponPose {
    /// Horizontal offset from the player's centre.
    pub x: i32,
    /// Vertical offset from the player's centre (upwards).
    pub y: i32,
    /// Counter-clockwise angle of the barrel in degrees; 0 points right.
    pub angle_degrees: i32,
}

/// The gun's pose for each animation: held at the side and pointing the way
/// the player faces when idle or walking sideways, hanging low and pointing
/// down when walking to the front, raised and pointing up when walking away.
pub open spec fn spec_weapon_pose(state: AnimationState, facing_left: bool) -> WeaponPose {
    match state {
        AnimationState::Idle | AnimationState::WalkingSide => WeaponPose {
            x: if facing_left {
                -10i32
            } else {
                10
            },
            y: -8i32,
            angle_degrees: if facing_left {
                180
            } else {
                0
            },
        },
        AnimationState::WalkingFront => WeaponPose {
            x: if facing_left {
                -6i32
            } else {
                6
            },
            y: -14i32,
            angle_degrees: 270,
        },
        AnimationState::WalkingBack => WeaponPose {
            x: if facing_left {
                -6i32
            } else {
                6
            },
            y: -4i32,
            angle_degrees: 90,
        },
    }
}

/// The gun's pose for the player's animation and facing.
pub fn weapon_pose(state: AnimationState, facing_left: bool) -> (pose: WeaponPose)
    ensures
        pose == spec_weapon_pose(state, facing_left),
{
    match state {
        AnimationState::Idle | AnimationState::WalkingSide => {
            let x: i32 = if facing_left {
                -10
            } else {
                10
            };
            let angle: i32 = if facing_left {
                180
            } else {
                0
            };
            WeaponPose { x, y: -8, angle_degrees: angle }
        },
        AnimationState::WalkingFront => {
            let x: i32 = if facing_left {
                -6
            } else {
                6
            };
            WeaponPose { x, y: -14, angle_degrees: 270 }
        },
        AnimationState::WalkingBack => {
            let x: i32 = if facing_left {
                -6
            } else {
                6
            };
            WeaponPose { x, y: -4, angle_degrees: 90 }
        },
    }
}

/// The unit direction of a barrel at a multiple of a right angle.
pub open spec fn spec_barrel_direction(angle_degrees: int) -> StepDirection {
    if angle_degrees == 0 {
        StepDirection { x: 1, y: 0 }
    } else if angle_degrees == 90 {
        StepDirection { x: 0, y: 1 }
    } else if angle_degrees == 180 {
        StepDirection { x: -1i32, y: 0 }
    } else {
        StepDirection { x: 0, y: -1i32 }
    }
}

/// The gun's barrel points the way the player's bullets fly, and the gun is
/// held on the side the player faces.
pub proof fn lemma_barrel_points_along_fire_direction(state: AnimationState, facing_left: bool)
    ensures
        spec_barrel_direction(spec_weapon_pose(state, facing_left).angle_degrees as int)
            == spec_facing_direction(state, facing_left),
        (spec_weapon_pose(state, facing_left).x < 0) == facing_left,
{
}

/// A player seen from the side is mirrored exactly when it fires to the left.
pub proof fn lemma_side_view_faces_fire_direction(facing_left: bool)
    ensures
        spec_flip_x(AnimationState::WalkingSide, facing_left) == (spec_facing_direction(
            AnimationState::WalkingSide,
            facing_left,
        ).x < 0),
{
}

/// Walking with a single movement key held turns the player so that it
/// fires in the direction it walks; so does walking sideways while no
/// vertical key is held.
pub proof fn lemma_fires_where_it_walks(keys: MovementKeys, facing_left: bool)
    requires
        (keys.up != keys.down && !keys.left && !keys.right) || (!keys.up && !keys.down
            && keys.left != keys.right),
    ensures
        spec_facing_direction(
            spec_movement_animation(keys),
            spec_facing_after_keys(keys, facing_left),
        ) == (StepDirection {
            x: spec_axis(keys.right, keys.left) as i32,
            y: spec_axis(keys.up, keys.down) as i32,
        }),
{
}

} // verus!
