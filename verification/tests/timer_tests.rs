use std::time::Duration;

use bevy::time::{Timer as BevyTimer, TimerMode as BevyTimerMode};
use my_bevy_game::timer::{Timer, TimerMode};

fn same_as_bevy(mode: TimerMode, bevy_mode: BevyTimerMode, duration: u64, deltas: &[u64]) {
    let mut ours = Timer::new(duration, mode);
    let mut bevy = BevyTimer::new(Duration::from_nanos(duration), bevy_mode);
    for (i, &delta) in deltas.iter().enumerate() {
        ours.tick(delta);
        bevy.tick(Duration::from_nanos(delta));
        assert_eq!(ours.elapsed as u128, bevy.elapsed().as_nanos(), "tick {i}");
        assert_eq!(ours.finished, bevy.is_finished(), "tick {i}");
        assert_eq!(ours.just_finished(), bevy.just_finished(), "tick {i}");
        assert_eq!(ours.times_finished_this_tick, bevy.times_finished_this_tick(), "tick {i}");
        if i % 7 == 6 {
            ours.reset();
            bevy.reset();
        }
    }
}

fn frame_times() -> Vec<u64> {
    let mut seed: u64 = 0x1234_5678;
    (0..200)
        .map(|_| {
            seed = seed.wrapping_mul(6364136223846793005).wrapping_add(1442695040888963407);
            (seed >> 33) % 700_000_000
        })
        .collect()
}

#[test]
fn once_timer_matches_bevy() {
    let deltas = frame_times();
    for duration in [0u64, 1, 250_000_000, 1_500_000_000] {
        same_as_bevy(TimerMode::Once, BevyTimerMode::Once, duration, &deltas);
    }
}

#[test]
fn repeating_timer_matches_bevy() {
    let deltas = frame_times();
    for duration in [0u64, 1, 150_000_000, 2_000_000_000] {
        same_as_bevy(TimerMode::Repeating, BevyTimerMode::Repeating, duration, &deltas);
    }
}

#[test]
fn once_timer_runs_out_once() {
    let mut t = Timer::new(100, TimerMode::Once);
    t.tick(60);
    assert!(!t.finished);
    assert_eq!(t.elapsed, 60);
    t.tick(60);
    assert!(t.finished && t.just_finished());
    assert_eq!(t.elapsed, 100);
    t.tick(60);
    assert!(t.finished && !t.just_finished());
    t.reset();
    assert_eq!(t, Timer::new(100, TimerMode::Once));
}

#[test]
fn repeating_timer_counts_runs() {
    let mut t = Timer::new(100, TimerMode::Repeating);
    t.tick(350);
    assert_eq!(t.times_finished_this_tick, 3);
    assert_eq!(t.elapsed, 50);
    t.tick(10);
    assert!(!t.just_finished());
    assert_eq!(t.elapsed, 60);
    t.tick(u64::MAX);
    assert!(t.finished);
}
