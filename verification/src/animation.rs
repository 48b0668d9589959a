use vstd::prelude::*;

verus! {

// Frame indices of a character sprite sheet (its column order).
/// Facing the viewer, standing.
pub const FRAME_FRONT_IDLE: usize = 0;
/// Facing the viewer, mid-step.
pub const FRAME_FRONT_STEP: usize = 1;
/// Seen from the side.
pub const FRAME_SIDE: usize = 2;
/// Seen from the back.
pub const FRAME_BACK: usize = 3;
/// Number of frames on a character sprite sheet.
pub const FRAME_COUNT: usize = 4;

/// What a character is doing, which decides the frames it shows.
#[derive(Clone, Copy, PartialEq, Eq, Debug, Structural)]
pub enum AnimationState {
    /// Standing still.
    Idle,
    /// Walking towards the viewer (down the screen).
    WalkingFront,
    /// Walking left or right.
    WalkingSide,
    /// Walking away from the viewer (up the screen).
    WalkingBack,
}

/// The frame an animation starts on.
pub open spec fn spec_first_frame(state: AnimationState) -> usize {
    match state {
        AnimationState::Idle => FRAME_FRONT_IDLE,
        AnimationState::WalkingFront => FRAME_FRONT_IDLE,
        AnimationState::WalkingSide => FRAME_SIDE,
        AnimationState::WalkingBack => FRAME_BACK,
    }
}

/// The frame an animation shows after its timer ticks over: walking to the
/// front alternates between the standing and the mid-step pose; every other
/// animation is a single frame and stays on it.
pub open spec fn spec_frame_after_tick(state: AnimationState, frame: usize) -> usize {
    match state {
        AnimationState::WalkingFront => if frame == FRAME_FRONT_IDLE {
            FRAME_FRONT_STEP
        } else {
            FRAME_FRONT_IDLE
        },
        _ => frame,
    }
}

/// Whether the sprite is mirrored: a side view is mirrored when the character
/// faces left, a back view when it faces right.
pub open spec fn spec_flip_x(state: AnimationState, facing_left: bool) -> bool {
    match state {
        AnimationState::WalkingSide => facing_left,
        AnimationState::WalkingBack => !facing_left,
        _ => false,
    }
}

/// Whether `frame` is one of the frames of the animation `state`.
pub open spec fn spec_frame_of(state: AnimationState, frame: usize) -> bool {
    match state {
        AnimationState::Idle => frame == FRAME_FRONT_IDLE,
        AnimationState::WalkingFront => frame == FRAME_FRONT_IDLE || frame == FRAME_FRONT_STEP,
        AnimationState::WalkingSide => frame == FRAME_SIDE,
        AnimationState::WalkingBack => frame == FRAME_BACK,
    }
}

/// The first frame of an animation.
pub fn first_frame(state: AnimationState) -> (frame: usize)
    ensures
        frame == spec_first_frame(state),
{
    match state {
        AnimationState::Idle => FRAME_FRONT_IDLE,
        AnimationState::WalkingFront => FRAME_FRONT_IDLE,
        AnimationState::WalkingSide => FRAME_SIDE,
        AnimationState::WalkingBack => FRAME_BACK,
    }
}

/// The frame shown after the animation timer ticks over.
pub fn frame_after_tick(state: AnimationState, frame: usize) -> (next: usize)
    ensures
        next == spec_frame_after_tick(state, frame),
{
    match state {
        AnimationState::WalkingFront => {
            if frame == FRAME_FRONT_IDLE {
                FRAME_FRONT_STEP
            } else {
                FRAME_FRONT_IDLE
            }
        },
        _ => frame,
    }
}

/// Whether the sprite is mirrored horizontally.
pub fn flip_x(state: AnimationState, facing_left: bool) -> (flip: bool)
    ensures
        flip == spec_flip_x(state, facing_left),
        (state == AnimationState::Idle || state == AnimationState::WalkingFront) ==> !flip,
        state == AnimationState::WalkingSide ==> flip == facing_left,
        state == AnimationState::WalkingBack ==> flip != facing_left,
{
    match state {
        AnimationState::WalkingSide => facing_left,
        AnimationState::WalkingBack => !facing_left,
        _ => false,
    }
}

/// What a character's sprite shows after an animation step.
#[derive(Clone, Copy, PartialEq, Eq, Debug, Structural)]
pub struct AnimationFrame {
    /// The sprite-sheet frame to show.
    pub index: usize,
    /// Whether the sprite is mirrored horizontally.
    pub flip_x: bool,
    /// Whether the animation timer starts over (the animation changed).
    pub restart_timer: bool,
}

/// The animation of a character: what it is doing now, what it was shown
/// doing, the frame it shows and the way it faces.
#[derive(Clone, Copy, PartialEq, Eq, Debug, Structural)]
pub struct Animator {
    /// What the character is doing now.
    pub animation_state: AnimationState,
    /// The animation the shown frame belongs to.
    pub previous_state: AnimationState,
    /// Whether the character faces left.
    pub facing_left: bool,
    /// The shown frame.
    pub frame_index: usize,
}

/// The animator after one step, given whether its timer has just ticked over.
/// When the animation changed, it starts over from its first frame and the
/// timer restarts (a restarted timer has not ticked over); otherwise a tick
/// advances the frame.
pub open spec fn spec_animate(a: Animator, timer_just_finished: bool) -> Animator {
    let changed = a.animation_state != a.previous_state;
    let frame = if changed {
        spec_first_frame(a.animation_state)
    } else if timer_just_finished {
        spec_frame_after_tick(a.animation_state, a.frame_index)
    } else {
        a.frame_index
    };
    Animator { previous_state: a.animation_state, frame_index: frame, ..a }
}

impl Animator {
    /// The shown frame belongs to the animation it was chosen for.
    pub open spec fn wf(self) -> bool {
        spec_frame_of(self.previous_state, self.frame_index)
    }

    /// A character standing still, facing right, on its first frame.
    pub fn new() -> (a: Self)
        ensures
            a.animation_state == AnimationState::Idle,
            a.previous_state == AnimationState::Idle,
            !a.facing_left,
            a.frame_index == FRAME_FRONT_IDLE,
            a.wf(),
    {
        Animator {
            animation_state: AnimationState::Idle,
            previous_state: AnimationState::Idle,
            facing_left: false,
            frame_index: FRAME_FRONT_IDLE,
        }
    }

    /// One animation step: see `spec_animate`. Returns the frame to show,
    /// whether it is mirrored, and whether the timer restarts.
    pub fn animate(&mut self, timer_just_finished: bool) -> (shown: AnimationFrame)
        ensures
            *final(self) == spec_animate(*old(self), timer_just_finished),
            shown.index == final(self).frame_index,
            shown.flip_x == spec_flip_x(final(self).animation_state, final(self).facing_left),
            (final(self).animation_state == AnimationState::Idle || final(self).animation_state
                == AnimationState::WalkingFront) ==> !shown.flip_x,
            shown.restart_timer == (old(self).animation_state != old(self).previous_state),
    {
        let changed = self.animation_state != self.previous_state;
        if changed {
            self.previous_state = self.animation_state;
            self.frame_index = first_frame(self.animation_state);
        } else if timer_just_finished {
            self.frame_index = frame_after_tick(self.animation_state, self.frame_index);
        }
        AnimationFrame {
            index: self.frame_index,
            flip_x: flip_x(self.animation_state, self.facing_left),
            restart_timer: changed,
        }
    }
}

/// After a step the shown frame belongs to what the character is doing now,
/// and a frame that belonged to its animation keeps belonging to it.
pub proof fn lemma_animate_shows_current_animation(a: Animator, timer_just_finished: bool)
    requires
        a.wf(),
    ensures
        spec_animate(a, timer_just_finished).wf(),
        spec_animate(a, timer_just_finished).previous_state == a.animation_state,
        spec_frame_of(a.animation_state, spec_animate(a, timer_just_finished).frame_index),
        spec_animate(a, timer_just_finished).frame_index < FRAME_COUNT,
{
}

/// Mirroring: the views facing the viewer (standing, walking to the front)
/// are never mirrored, whichever way the character faces; the side view is
/// mirrored exactly when it faces left, and the back view exactly when it
/// faces right. Turning around flips the side and back views and leaves the
/// others as they are.
pub proof fn lemma_mirroring(state: AnimationState, facing_left: bool)
    ensures
        (state == AnimationState::Idle || state == AnimationState::WalkingFront) ==> !spec_flip_x(
            state,
            facing_left,
        ),
        state == AnimationState::WalkingSide ==> spec_flip_x(state, facing_left) == facing_left,
        state == AnimationState::WalkingBack ==> spec_flip_x(state, facing_left) != facing_left,
        (state == AnimationState::WalkingSide || state == AnimationState::WalkingBack) ==> spec_flip_x(
            state,
            !facing_left,
        ) != spec_flip_x(state, facing_left),
        (state == AnimationState::Idle || state == AnimationState::WalkingFront) ==> spec_flip_x(
            state,
            !facing_left,
        ) == spec_flip_x(state, facing_left),
{
}

/// Walking to the front alternates between two poses: two ticks in a row
/// bring back the frame shown before them.
pub proof fn lemma_front_walk_alternates(a: Animator)
    requires
        a.wf(),
        a.animation_state == AnimationState::WalkingFront,
        a.previous_state == AnimationState::WalkingFront,
    ensures
        spec_animate(a, true).frame_index != a.frame_index,
        spec_animate(spec_animate(a, true), true).frame_index == a.frame_index,
{
}

/// Without a tick and without a change of animation the shown frame stays.
pub proof fn lemma_frame_stays_without_tick(a: Animator)
    requires
        a.animation_state == a.previous_state,
    ensures
        spec_animate(a, false) == a,
{
}

} // verus!
