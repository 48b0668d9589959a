use vstd::prelude::*;

use crate::animation::{
    spec_animate,
    spec_flip_x,
    AnimationFrame,
    AnimationState,
    Animator,
    FRAME_FRONT_IDLE,
};
use crate::player::Gun;
use crate::timer::{spec_new_timer, spec_reset, spec_tick, Timer, TimerMode, NANOS_PER_MILLI};

verus! {

/// Time between two frames of an enemy's animation: 200 ms.
pub const ENEMY_ANIMATION_NANOS: u64 = 200 * NANOS_PER_MILLI;
/// Time between two shots of an enemy's gun: 1.5 s.
pub const ENEMY_FIRE_COOLDOWN_NANOS: u64 = 1500 * NANOS_PER_MILLI;
/// Time between two spawns of enemies: 2 s.
pub const SPAWN_COOLDOWN_NANOS: u64 = 2000 * NANOS_PER_MILLI;

// ── Animation state ───────────────────────────────────────────────────────────
/// What an enemy is doing, which decides the frames it shows.
#[derive(Clone, Copy, PartialEq, Eq, Debug, Structural)]
pub enum EnemyAnimationState {
    /// Standing still.
    Idle,
    /// Walking towards the viewer (down the screen).
    WalkingFront,
    /// Walking left or right.
    WalkingSide,
    /// Walking away from the viewer (up the screen).
    WalkingBack,
}

/// The character animation an enemy state stands for (the same four).
pub open spec fn spec_as_animation(state: EnemyAnimationState) -> AnimationState {
    match state {
        EnemyAnimationState::Idle => AnimationState::Idle,
        EnemyAnimationState::WalkingFront => AnimationState::WalkingFront,
        EnemyAnimationState::WalkingSide => AnimationState::WalkingSide,
        EnemyAnimationState::WalkingBack => AnimationState::WalkingBack,
    }
}

impl EnemyAnimationState {
    /// The character animation this state stands for.
    pub fn as_animation(self) -> (state: AnimationState)
        ensures
            state == spec_as_animation(self),
    {
        match self {
            EnemyAnimationState::Idle => AnimationState::Idle,
            EnemyAnimationState::WalkingFront => AnimationState::WalkingFront,
            EnemyAnimationState::WalkingSide => AnimationState::WalkingSide,
            EnemyAnimationState::WalkingBack => AnimationState::WalkingBack,
        }
    }
}

/// The animation of an enemy walking towards its target: up or down the
/// screen when the target lies mostly vertically from it, sideways otherwise.
pub open spec fn spec_walk_toward(mostly_vertical: bool, target_above: bool) -> EnemyAnimationState {
    if mostly_vertical {
        if target_above {
            EnemyAnimationState::WalkingBack
        } else {
            EnemyAnimationState::WalkingFront
        }
    } else {
        EnemyAnimationState::WalkingSide
    }
}

// ── Enemy ─────────────────────────────────────────────────────────────────────
/// An enemy's way of facing and its animation.
#[derive(Clone, Copy, PartialEq, Eq, Debug, Structural)]
pub struct Enemy {
    /// Whether the enemy faces left.
    pub facing_left: bool,
    /// What the enemy is doing now.
    pub animation_state: EnemyAnimationState,
    /// The animation the shown frame belongs to.
    pub previous_state: EnemyAnimationState,
    /// The shown frame.
    pub frame_index: usize,
    /// The enemy's gun.
    pub gun: Gun,
    /// The frame time of the animation (repeating).
    pub animation_timer: Timer,
}

impl Enemy {
    /// The enemy's animation.
    pub open spec fn animator(self) -> Animator {
        Animator {
            animation_state: spec_as_animation(self.animation_state),
            previous_state: spec_as_animation(self.previous_state),
            facing_left: self.facing_left,
            frame_index: self.frame_index,
        }
    }

    /// The shown frame belongs to the animation it was chosen for.
    pub open spec fn wf(self) -> bool {
        self.animator().wf()
    }

    /// A newly spawned enemy: idle, facing right, on its first frame.
    pub fn new() -> (enemy: Self)
        ensures
            enemy.animation_state == EnemyAnimationState::Idle,
            enemy.previous_state == EnemyAnimationState::Idle,
            !enemy.facing_left,
            enemy.frame_index == FRAME_FRONT_IDLE,
            enemy.gun.cooldown == spec_new_timer(ENEMY_FIRE_COOLDOWN_NANOS, TimerMode::Once),
            enemy.animation_timer == spec_new_timer(ENEMY_ANIMATION_NANOS, TimerMode::Repeating),
            enemy.wf(),
    {
        Enemy {
            facing_left: false,
            animation_state: EnemyAnimationState::Idle,
            previous_state: EnemyAnimationState::Idle,
            frame_index: FRAME_FRONT_IDLE,
            gun: Gun::new(ENEMY_FIRE_COOLDOWN_NANOS),
            animation_timer: Timer::new(ENEMY_ANIMATION_NANOS, TimerMode::Repeating),
        }
    }

    /// The enemy is within stopping distance of its target: it stands still
    /// and keeps facing the same way.
    pub fn halt(&mut self)
        ensures
            *final(self) == (Enemy { animation_state: EnemyAnimationState::Idle, ..*old(self) }),
    {
        self.animation_state = EnemyAnimationState::Idle;
    }

    /// The enemy walks towards a target: it faces left exactly when the target
    /// lies to its left, and its animation follows `spec_walk_toward`.
    pub fn face_target(&mut self, target_left: bool, mostly_vertical: bool, target_above: bool)
        ensures
            *final(self) == (Enemy {
                facing_left: target_left,
                animation_state: spec_walk_toward(mostly_vertical, target_above),
                ..*old(self)
            }),
    {
        self.facing_left = target_left;
        self.animation_state = if mostly_vertical {
            if target_above {
                EnemyAnimationState::WalkingBack
            } else {
                EnemyAnimationState::WalkingFront
            }
        } else {
            EnemyAnimationState::WalkingSide
        };
    }

    /// One animation step of the enemy after `delta` nanoseconds of game
    /// time: the animation timer ticks, the frame advances when it ran out
    /// (see `spec_animate`), and the timer starts over when the animation
    /// changed.
    pub fn animate(&mut self, delta: u64) -> (shown: AnimationFrame)
        ensures
            final(self).animator() == spec_animate(
                old(self).animator(),
                spec_tick(old(self).animation_timer, delta).times_finished_this_tick > 0,
            ),
            final(self).animation_state == old(self).animation_state,
            final(self).previous_state == old(self).animation_state,
            final(self).gun == old(self).gun,
            final(self).animation_timer == (if old(self).animation_state
                != old(self).previous_state {
                spec_reset(spec_tick(old(self).animation_timer, delta))
            } else {
                spec_tick(old(self).animation_timer, delta)
            }),
            shown.index == final(self).frame_index,
            shown.flip_x == spec_flip_x(
                spec_as_animation(final(self).animation_state),
                final(self).facing_left,
            ),
            (final(self).animation_state == EnemyAnimationState::Idle
                || final(self).animation_state == EnemyAnimationState::WalkingFront)
                ==> !shown.flip_x,
            shown.restart_timer == (old(self).animation_state != old(self).previous_state),
    {
        self.animation_timer.tick(delta);
        let timer_just_finished = self.animation_timer.just_finished();
        let mut animator = Animator {
            animation_state: self.animation_state.as_animation(),
            previous_state: self.previous_state.as_animation(),
            facing_left: self.facing_left,
            frame_index: self.frame_index,
        };
        let shown = animator.animate(timer_just_finished);
        self.previous_state = self.animation_state;
        self.frame_index = animator.frame_index;
        if shown.restart_timer {
            self.animation_timer.reset();
        }
        shown
    }
}

// ── Spawner ───────────────────────────────────────────────────────────────────
/// The bookkeeping of a wave of enemies.
#[derive(Clone, Copy, PartialEq, Eq, Debug, Structural)]
pub struct EnemySpawner {
    /// The interval between spawns (repeating).
    pub cooldown: Timer,
    /// Enemies of the wave that are alive.
    pub count: usize,
    /// How many enemies a wave holds at once.
    pub max_enemies: usize,
    /// Whether the wave has room to spawn more enemies.
    pub wave_active: bool,
}

/// The spawner of a new game: an active wave of four, none spawned yet, and
/// a spawn interval that has not run yet.
pub open spec fn spec_default_spawner() -> EnemySpawner {
    EnemySpawner {
        cooldown: spec_new_timer(SPAWN_COOLDOWN_NANOS, TimerMode::Repeating),
        count: 0,
        max_enemies: 4,
        wave_active: true,
    }
}

/// The spawner after an enemy spawned: one more alive, and the wave stops
/// spawning once it is full.
pub open spec fn spec_record_spawn(s: EnemySpawner) -> EnemySpawner {
    EnemySpawner { count: (s.count + 1) as usize, wave_active: s.count + 1 < s.max_enemies, ..s }
}

/// The spawner after `k` enemies spawned in a row.
pub open spec fn spec_spawn_times(s: EnemySpawner, k: nat) -> EnemySpawner
    decreases k,
{
    if k == 0 {
        s
    } else {
        spec_record_spawn(spec_spawn_times(s, (k - 1) as nat))
    }
}

impl Default for EnemySpawner {
    fn default() -> (spawner: Self)
        ensures
            spawner == spec_default_spawner(),
    {
        EnemySpawner {
            cooldown: Timer::new(SPAWN_COOLDOWN_NANOS, TimerMode::Repeating),
            count: 0,
            max_enemies: 4,
            wave_active: true,
        }
    }
}

impl EnemySpawner {
    /// No more enemies are counted alive than a wave holds.
    pub open spec fn wf(self) -> bool {
        self.count <= self.max_enemies
    }

    /// Whether the spawner may spawn an enemy: only while the wave is active
    /// and not full.
    pub open spec fn spec_may_spawn(self) -> bool {
        self.wave_active && self.count < self.max_enemies
    }

    /// Whether the spawner may spawn an enemy.
    pub fn may_spawn(&self) -> (may: bool)
        ensures
            may == self.spec_may_spawn(),
    {
        self.wave_active && self.count < self.max_enemies
    }

    /// Counts a spawned enemy; the wave stops spawning once it is full.
    pub fn record_spawn(&mut self)
        requires
            old(self).spec_may_spawn(),
        ensures
            *final(self) == spec_record_spawn(*old(self)),
            final(self).wf(),
    {
        self.count = self.count + 1;
        if self.count >= self.max_enemies {
            self.wave_active = false;
        }
    }

    /// Counts a defeated enemy of the wave (never below zero). Defeats make
    /// room again: the wave goes on spawning while it is not full.
    pub fn record_defeat(&mut self)
        ensures
            *final(self) == spec_record_defeat(*old(self)),
            old(self).wf() ==> final(self).wf(),
            old(self).count > 0 ==> final(self).count == old(self).count - 1,
            old(self).count == 0 ==> final(self).count == 0,
            final(self).max_enemies == old(self).max_enemies,
            final(self).cooldown == old(self).cooldown,
            final(self).wave_active == (final(self).count < final(self).max_enemies),
    {
        if self.count > 0 {
            self.count = self.count - 1;
        }
        self.wave_active = self.count < self.max_enemies;
    }

    /// Lets `delta` nanoseconds of game time pass on the spawn interval.
    pub fn tick_cooldown(&mut self, delta: u64)
        ensures
            *final(self) == (EnemySpawner {
                cooldown: spec_tick(old(self).cooldown, delta),
                ..*old(self)
            }),
    {
        self.cooldown.tick(delta);
    }

    /// An enemy is due this frame: the spawner may spawn and the spawn
    /// interval ran out during the last tick.
    pub open spec fn spec_spawn_due(self) -> bool {
        self.spec_may_spawn() && self.cooldown.times_finished_this_tick > 0
    }

    /// Whether an enemy is due this frame.
    pub fn spawn_due(&self) -> (due: bool)
        ensures
            due == self.spec_spawn_due(),
    {
        self.may_spawn() && self.cooldown.just_finished()
    }

    /// An enemy spawns when one is due and the chosen spawn site is clear (a
    /// player exists, the site is walkable and not too close to the player or
    /// to another enemy). Returns whether it spawned; if so it is counted.
    pub fn try_spawn(&mut self, site_clear: bool) -> (spawned: bool)
        ensures
            spawned == (old(self).spec_spawn_due() && site_clear),
            *final(self) == (if spawned {
                spec_record_spawn(*old(self))
            } else {
                *old(self)
            }),
    {
        if self.spawn_due() && site_clear {
            self.record_spawn();
            true
        } else {
            false
        }
    }
}

/// The spawner after an enemy of the wave was defeated: one fewer alive (never
/// below zero), and the wave active again whenever it has room.
pub open spec fn spec_record_defeat(s: EnemySpawner) -> EnemySpawner {
    let count: usize = if s.count > 0 {
        (s.count - 1) as usize
    } else {
        0
    };
    EnemySpawner { count, wave_active: count < s.max_enemies, ..s }
}

/// Spawning only goes on while the wave is active and not full, so the
/// spawner never counts more enemies alive than a wave holds.
pub proof fn lemma_spawn_keeps_wave_bound(s: EnemySpawner)
    requires
        s.spec_may_spawn(),
    ensures
        spec_record_spawn(s).wf(),
        spec_record_spawn(s).count == s.count + 1,
        !spec_record_spawn(s).wave_active <==> spec_record_spawn(s).count == s.max_enemies,
{
}

/// From a new game, the first wave spawns one enemy after another and ends
/// exactly when the fourth has spawned.
pub proof fn lemma_wave_of_four(k: nat)
    requires
        k <= 4,
    ensures
        spec_spawn_times(spec_default_spawner(), k).count == k,
        spec_spawn_times(spec_default_spawner(), k).max_enemies == 4,
        spec_spawn_times(spec_default_spawner(), k).wave_active == (k < 4),
        k < 4 ==> spec_spawn_times(spec_default_spawner(), k).spec_may_spawn(),
        !spec_spawn_times(spec_default_spawner(), 4).spec_may_spawn(),
    decreases k,
{
    if k > 0 {
        lemma_wave_of_four((k - 1) as nat);
    }
    reveal_with_fuel(spec_spawn_times, 5);
}

/// The wave is active exactly while it has room: a new game's spawner is so,
/// and spawning and defeats keep it so. Hence, once it is so, the spawner may
/// spawn exactly while fewer enemies are alive than a wave holds.
pub proof fn lemma_wave_active_tracks_room(s: EnemySpawner)
    ensures
        spec_default_spawner().wave_active == (spec_default_spawner().count
            < spec_default_spawner().max_enemies),
        s.spec_may_spawn() ==> spec_record_spawn(s).wave_active == (spec_record_spawn(s).count
            < spec_record_spawn(s).max_enemies),
        spec_record_defeat(s).wave_active == (spec_record_defeat(s).count < spec_record_defeat(
            s,
        ).max_enemies),
        s.wave_active == (s.count < s.max_enemies) ==> (s.spec_may_spawn() <==> s.count
            < s.max_enemies),
{
}

/// A defeat counts exactly one enemy fewer whenever any is alive (none below
/// zero), and undoes a spawn: a spawn followed by a defeat gives back the
/// enemies alive before, and a defeat of a well-formed spawner with enemies
/// alive leaves room to spawn again, after which as many are alive as before.
pub proof fn lemma_defeat_undoes_spawn(s: EnemySpawner)
    ensures
        s.count > 0 ==> spec_record_defeat(s).count == s.count - 1,
        s.count == 0 ==> spec_record_defeat(s).count == 0,
        spec_record_defeat(s).count <= s.count,
        s.spec_may_spawn() ==> spec_record_defeat(spec_record_spawn(s)).count == s.count,
        (s.wf() && s.count > 0) ==> spec_record_defeat(s).spec_may_spawn(),
        (s.wf() && s.count > 0) ==> spec_record_spawn(spec_record_defeat(s)).count == s.count,
{
}

/// Spawning resumes after the wave filled up: once four enemies of a new
/// game have spawned, defeating one of them lets another spawn.
pub proof fn lemma_defeat_reopens_full_wave()
    ensures
        !spec_spawn_times(spec_default_spawner(), 4).spec_may_spawn(),
        spec_record_defeat(spec_spawn_times(spec_default_spawner(), 4)).spec_may_spawn(),
        spec_record_defeat(spec_spawn_times(spec_default_spawner(), 4)).count == 3,
{
    lemma_wave_of_four(4);
}

/// Enemies spawn at set intervals: an enemy spawns only in a frame in which
/// the spawn interval ran out (which happens once per interval of game time,
/// see `lemma_repeating_timer_runs_out_per_duration`), and a spawn leaves the
/// interval running.
pub proof fn lemma_spawns_follow_the_interval(s: EnemySpawner, delta: u64, site_clear: bool)
    ensures
        ({
            let ticked = EnemySpawner { cooldown: spec_tick(s.cooldown, delta), ..s };
            &&& (ticked.spec_spawn_due() && site_clear) ==> spec_tick(
                s.cooldown,
                delta,
            ).times_finished_this_tick > 0
            &&& spec_record_spawn(ticked).cooldown == spec_tick(s.cooldown, delta)
        }),
{
}

} // verus!
