use vstd::prelude::*;

use crate::animation::{spec_animate, AnimationFrame, AnimationState, Animator, FRAME_FRONT_IDLE};
use crate::timer::{
    lemma_once_timer_measures_time,
    spec_new_timer,
    spec_reset,
    spec_tick,
    spec_tick_all,
    spec_total,
    Timer,
    TimerMode,
    NANOS_PER_MILLI,
};

verus! {

/// Time between two frames of the player's animation: 150 ms.
pub const PLAYER_ANIMATION_NANOS: u64 = 150 * NANOS_PER_MILLI;
/// Time between two shots of the player's gun: 250 ms.
pub const PLAYER_FIRE_COOLDOWN_NANOS: u64 = 250 * NANOS_PER_MILLI;

/// The movement keys held down this frame (W, S, A, D).
#[derive(Clone, Copy, PartialEq, Eq, Debug, Structural)]
pub struct MovementKeys {
    /// Up (W).
    pub up: bool,
    /// Down (S).
    pub down: bool,
    /// Left (A).
    pub left: bool,
    /// Right (D).
    pub right: bool,
}

/// A direction on the grid of unit steps: each component is -1, 0 or 1;
/// `y` grows upwards.
#[derive(Clone, Copy, PartialEq, Eq, Debug, Structural)]
pub struct StepDirection {
    /// Horizontal component.
    pub x: i32,
    /// Vertical component.
    pub y: i32,
}

/// The net effect of a pair of opposite keys: 1, 0 or -1.
pub open spec fn spec_axis(positive: bool, negative: bool) -> int {
    (if positive {
        1int
    } else {
        0int
    }) - (if negative {
        1int
    } else {
        0int
    })
}

/// The animation a player shows while the keys are held: walking away when
/// only up is held, towards the viewer when only down is held, sideways for
/// any other movement, and idle when the keys cancel out or none is held.
pub open spec fn spec_movement_animation(keys: MovementKeys) -> AnimationState {
    if spec_axis(keys.right, keys.left) == 0 && spec_axis(keys.up, keys.down) == 0 {
        AnimationState::Idle
    } else if keys.up && !keys.down {
        AnimationState::WalkingBack
    } else if keys.down && !keys.up {
        AnimationState::WalkingFront
    } else {
        AnimationState::WalkingSide
    }
}

/// The way the player faces after the keys are held: left or right follow
/// the horizontal keys (right winning over left), but only when no vertical
/// key is held.
pub open spec fn spec_facing_after_keys(keys: MovementKeys, facing_left: bool) -> bool {
    if !keys.up && !keys.down {
        if keys.right {
            false
        } else if keys.left {
            true
        } else {
            facing_left
        }
    } else {
        facing_left
    }
}

/// The player character: its animation state and the way it faces.
#[derive(Clone, Copy, PartialEq, Eq, Debug, Structural)]
pub struct Player {
    /// What the player is doing now.
    pub animation_state: AnimationState,
    /// The animation the shown frame belongs to.
    pub previous_state: AnimationState,
    /// Whether the player faces left.
    pub facing_left: bool,
    /// The shown frame.
    pub frame_index: usize,
    /// The frame time of the animation (repeating).
    pub animation_timer: Timer,
}

impl Player {
    /// The player's animation.
    pub open spec fn animator(self) -> Animator {
        Animator {
            animation_state: self.animation_state,
            previous_state: self.previous_state,
            facing_left: self.facing_left,
            frame_index: self.frame_index,
        }
    }

    /// The shown frame belongs to the animation it was chosen for.
    pub open spec fn wf(self) -> bool {
        self.animator().wf()
    }

    /// A new player: idle, facing right, on its first frame.
    pub fn new() -> (player: Self)
        ensures
            player.animation_state == AnimationState::Idle,
            player.previous_state == AnimationState::Idle,
            !player.facing_left,
            player.frame_index == FRAME_FRONT_IDLE,
            player.animation_timer == spec_new_timer(PLAYER_ANIMATION_NANOS, TimerMode::Repeating),
            player.wf(),
    {
        Player {
            animation_state: AnimationState::Idle,
            previous_state: AnimationState::Idle,
            facing_left: false,
            frame_index: FRAME_FRONT_IDLE,
            animation_timer: Timer::new(PLAYER_ANIMATION_NANOS, TimerMode::Repeating),
        }
    }

    /// Applies the held movement keys: sets the way the player faces and what
    /// it is doing, and returns the direction of its step (zero when it stands
    /// still). Opposite keys cancel out.
    pub fn apply_movement_keys(&mut self, keys: MovementKeys) -> (step: StepDirection)
        ensures
            step.x == spec_axis(keys.right, keys.left),
            step.y == spec_axis(keys.up, keys.down),
            final(self).facing_left == spec_facing_after_keys(keys, old(self).facing_left),
            final(self).animation_state == spec_movement_animation(keys),
            final(self).previous_state == old(self).previous_state,
            final(self).frame_index == old(self).frame_index,
            final(self).animation_timer == old(self).animation_timer,
            // The player turns only on a horizontal key, and only while no
            // vertical key is held.
            (keys.up || keys.down || (!keys.left && !keys.right)) ==> final(self).facing_left
                == old(self).facing_left,
            (!keys.up && !keys.down && keys.right) ==> !final(self).facing_left,
            (!keys.up && !keys.down && keys.left && !keys.right) ==> final(self).facing_left,
            // Up alone walks away, down alone towards the viewer, whatever the
            // horizontal keys.
            (keys.up && !keys.down) ==> final(self).animation_state
                == AnimationState::WalkingBack,
            (keys.down && !keys.up) ==> final(self).animation_state
                == AnimationState::WalkingFront,
    {
        let mut x: i32 = 0;
        let mut y: i32 = 0;
        if keys.up {
            y = y + 1;
        }
        if keys.down {
            y = y - 1;
        }
        if keys.left {
            x = x - 1;
        }
        if keys.right {
            x = x + 1;
        }
        if !keys.up && !keys.down {
            if keys.left {
                self.facing_left = true;
            }
            if keys.right {
                self.facing_left = false;
            }
        }
        if x != 0 || y != 0 {
            self.animation_state = if keys.up && !keys.down {
                AnimationState::WalkingBack
            } else if keys.down && !keys.up {
                AnimationState::WalkingFront
            } else {
                AnimationState::WalkingSide
            };
        } else {
            self.animation_state = AnimationState::Idle;
        }
        StepDirection { x, y }
    }

    /// One animation step of the player after `delta` nanoseconds of game
    /// time: the animation timer ticks, the frame advances when it ran out
    /// (see `spec_animate`), and the timer starts over when the animation
    /// changed.
    pub fn animate(&mut self, delta: u64) -> (shown: AnimationFrame)
        ensures
            final(self).animator() == spec_animate(
                old(self).animator(),
                spec_tick(old(self).animation_timer, delta).times_finished_this_tick > 0,
            ),
            final(self).animation_timer == (if old(self).animation_state
                != old(self).previous_state {
                spec_reset(spec_tick(old(self).animation_timer, delta))
            } else {
                spec_tick(old(self).animation_timer, delta)
            }),
            shown.index == final(self).frame_index,
            shown.flip_x == crate::animation::spec_flip_x(
                final(self).animation_state,
                final(self).facing_left,
            ),
            (final(self).animation_state == AnimationState::Idle || final(self).animation_state
                == AnimationState::WalkingFront) ==> !shown.flip_x,
            shown.restart_timer == (old(self).animation_state != old(self).previous_state),
    {
        self.animation_timer.tick(delta);
        let timer_just_finished = self.animation_timer.just_finished();
        let mut animator = Animator {
            animation_state: self.animation_state,
            previous_state: self.previous_state,
            facing_left: self.facing_left,
            frame_index: self.frame_index,
        };
        let shown = animator.animate(timer_just_finished);
        self.previous_state = animator.previous_state;
        self.frame_index = animator.frame_index;
        if shown.restart_timer {
            self.animation_timer.reset();
        }
        shown
    }
}

/// A gun and its cooldown (a once timer).
#[derive(Clone, Copy, PartialEq, Eq, Debug, Structural)]
pub struct Gun {
    /// The time that has to pass between two shots.
    pub cooldown: Timer,
}

/// One frame of a gun after `delta` nanoseconds of game time: the cooldown
/// ticks, and the gun fires when the trigger is pressed and the cooldown has
/// run out, which starts the cooldown over.
pub open spec fn spec_fire_step(gun: Gun, delta: u64, trigger_pressed: bool) -> (Gun, bool) {
    let ticked = spec_tick(gun.cooldown, delta);
    let fires = trigger_pressed && ticked.finished;
    (Gun { cooldown: if fires {
        spec_reset(ticked)
    } else {
        ticked
    } }, fires)
}

impl Gun {
    /// A gun that can fire right after `cooldown` nanoseconds have passed.
    pub fn new(cooldown: u64) -> (gun: Self)
        ensures
            gun.cooldown == spec_new_timer(cooldown, TimerMode::Once),
    {
        Gun { cooldown: Timer::new(cooldown, TimerMode::Once) }
    }

    /// One frame of the gun (see `spec_fire_step`); returns whether it fires.
    pub fn fire_step(&mut self, delta: u64, trigger_pressed: bool) -> (fires: bool)
        ensures
            (*final(self), fires) == spec_fire_step(*old(self), delta, trigger_pressed),
            old(self).cooldown.wf() ==> final(self).cooldown.wf(),
    {
        self.cooldown.tick(delta);
        if trigger_pressed && self.cooldown.is_finished() {
            self.cooldown.reset();
            true
        } else {
            false
        }
    }
}

/// A gun fires only once its whole cooldown has passed since its last shot:
/// a shot takes as much time as the cooldown left, and starts it over.
pub proof fn lemma_shot_needs_cooldown(gun: Gun, delta: u64, trigger_pressed: bool)
    requires
        gun.cooldown.mode == TimerMode::Once,
        gun.cooldown.wf(),
    ensures
        spec_fire_step(gun, delta, trigger_pressed).1 ==> gun.cooldown.elapsed + delta
            >= gun.cooldown.duration,
        spec_fire_step(gun, delta, trigger_pressed).1 ==> spec_fire_step(
            gun,
            delta,
            trigger_pressed,
        ).0.cooldown == spec_new_timer(gun.cooldown.duration, TimerMode::Once),
        spec_fire_step(gun, delta, trigger_pressed).0.cooldown.wf(),
{
}

/// A gun over a run of frames: the frame times `deltas` and whether the
/// trigger was pressed in each; gives the gun afterwards and how many shots
/// it fired.
pub open spec fn spec_fire_frames(gun: Gun, deltas: Seq<u64>, triggers: Seq<bool>) -> (Gun, nat)
    decreases deltas.len(),
{
    if deltas.len() == 0 || triggers.len() == 0 {
        (gun, 0)
    } else {
        let before = spec_fire_frames(gun, deltas.drop_last(), triggers.drop_last());
        let step = spec_fire_step(before.0, deltas.last(), triggers.last());
        (step.0, before.1 + if step.1 {
            1nat
        } else {
            0nat
        })
    }
}

/// Shots are at least the cooldown apart: right after a shot (its cooldown
/// started over), the gun fires no shot, whatever the trigger does, until
/// the game time that passed reaches the cooldown.
pub proof fn lemma_shots_at_least_cooldown_apart(
    cooldown: u64,
    deltas: Seq<u64>,
    triggers: Seq<bool>,
)
    requires
        cooldown > 0,
        deltas.len() == triggers.len(),
        spec_total(deltas) < cooldown,
    ensures
        spec_fire_frames(Gun { cooldown: spec_new_timer(cooldown, TimerMode::Once) }, deltas, triggers).1
            == 0,
        spec_fire_frames(
            Gun { cooldown: spec_new_timer(cooldown, TimerMode::Once) },
            deltas,
            triggers,
        ).0.cooldown == spec_tick_all(spec_new_timer(cooldown, TimerMode::Once), deltas),
    decreases deltas.len(),
{
    if deltas.len() > 0 {
        lemma_shots_at_least_cooldown_apart(cooldown, deltas.drop_last(), triggers.drop_last());
        lemma_once_timer_measures_time(cooldown, deltas);
    }
}

/// How the keys steer the player: it turns only on a horizontal key held
/// without a vertical one (right winning over left), and keeps facing the same
/// way otherwise, in particular when no key is held; holding up without down
/// makes it walk away and down without up towards the viewer, whatever the
/// horizontal keys; a sideways walk happens exactly when the vertical keys
/// cancel out and the horizontal ones do not.
pub proof fn lemma_steering(keys: MovementKeys, facing_left: bool)
    ensures
        (keys.up || keys.down) ==> spec_facing_after_keys(keys, facing_left) == facing_left,
        (!keys.left && !keys.right) ==> spec_facing_after_keys(keys, facing_left) == facing_left,
        (!keys.up && !keys.down && keys.right) ==> !spec_facing_after_keys(keys, facing_left),
        (!keys.up && !keys.down && keys.left && !keys.right) ==> spec_facing_after_keys(
            keys,
            facing_left,
        ),
        (keys.up && !keys.down) ==> spec_movement_animation(keys) == AnimationState::WalkingBack,
        (keys.down && !keys.up) ==> spec_movement_animation(keys)
            == AnimationState::WalkingFront,
        (spec_movement_animation(keys) == AnimationState::WalkingSide) <==> (keys.up == keys.down
            && keys.left != keys.right),
        // Steering is settled by the keys alone: holding the same keys again
        // changes nothing more.
        spec_facing_after_keys(keys, spec_facing_after_keys(keys, facing_left))
            == spec_facing_after_keys(keys, facing_left),
{
}

/// The player shows the idle animation exactly when its step is zero, and
/// the horizontal keys turn it only while no vertical key is held.
pub proof fn lemma_idle_exactly_when_standing(keys: MovementKeys, facing_left: bool)
    ensures
        (spec_movement_animation(keys) == AnimationState::Idle) <==> (spec_axis(
            keys.right,
            keys.left,
        ) == 0 && spec_axis(keys.up, keys.down) == 0),
        (keys.up || keys.down) ==> spec_facing_after_keys(keys, facing_left) == facing_left,
{
}

/// The horizontal offset of a weapon held by a character facing left or right.
pub fn weapon_offset_x(facing_left: bool) -> (x: i32)
    ensures
        x == (if facing_left {
            -15int
        } else {
            15int
        }),
{
    if facing_left {
        -15
    } else {
        15
    }
}

} // verus!
