use blazingice::timing::{NitroParticleTimer, ParticleLifetime};
use blazingice::world::{grid_line_indices, GRID_SPACING_M, TRACK_SIZE_M};
use std::time::Duration;

const MS: u64 = 1_000_000;

#[test]
fn spawn_timer_only_runs_with_nitro() {
    let mut t = NitroParticleTimer::new(30 * MS);
    assert!(!t.step(false, 50 * MS));
    assert_eq!(t.elapsed_ns(), 0);
    assert!(!t.step(true, 16 * MS));
    assert_eq!(t.elapsed_ns(), 16 * MS);
    assert!(t.step(true, 16 * MS));
    assert_eq!(t.elapsed_ns(), 2 * MS);
    assert_eq!(t.duration_ns(), 30 * MS);
}

#[test]
fn spawn_timer_wraps_over_several_periods() {
    let mut t = NitroParticleTimer::new(30 * MS);
    assert!(t.step(true, 95 * MS));
    assert_eq!(t.elapsed_ns(), 5 * MS);
    assert!(t.step(true, 25 * MS));
    assert_eq!(t.elapsed_ns(), 0);
}

#[test]
fn spawn_timer_with_zero_period_fires_every_frame() {
    let mut t = NitroParticleTimer::new(0);
    assert!(t.step(true, 7));
    assert_eq!(t.elapsed_ns(), 0);
    assert!(t.step(true, 0));
}

#[test]
fn spawn_timer_period_from_seconds() {
    let period = Duration::from_secs_f32(0.03).as_nanos() as u64;
    let mut t = NitroParticleTimer::new(period);
    assert!(!t.step(true, period - 1));
    assert!(t.step(true, 1));
}

#[test]
fn particle_expires_at_end_of_lifetime() {
    let mut l = ParticleLifetime::new(400 * MS);
    assert!(!l.tick(300 * MS));
    assert_eq!(l.elapsed_ns(), 300 * MS);
    assert!(l.tick(200 * MS));
    assert_eq!(l.elapsed_ns(), 400 * MS);
    assert!(l.tick(10 * MS));
    assert_eq!(l.elapsed_ns(), 400 * MS);
    assert_eq!(l.duration_ns(), 400 * MS);
}

#[test]
fn particle_expires_exactly_at_lifetime() {
    let mut l = ParticleLifetime::new(400 * MS);
    assert!(!l.tick(399 * MS));
    assert!(l.tick(MS));
}

#[test]
fn grid_of_the_track() {
    let lines = grid_line_indices(TRACK_SIZE_M, GRID_SPACING_M);
    assert_eq!(lines, (-7..=7).collect::<Vec<i32>>());
}

#[test]
fn grid_edge_cases() {
    assert_eq!(grid_line_indices(0, 20), vec![0]);
    assert_eq!(grid_line_indices(39, 20), vec![0]);
    assert_eq!(grid_line_indices(40, 20), vec![-1, 0, 1]);
    assert_eq!(grid_line_indices(10, 1), vec![-5, -4, -3, -2, -1, 0, 1, 2, 3, 4, 5]);
}
