use tuan::cursor::BlinkState;
use tuan::graph::Point;
use tuan::layout::{max_displacement_sq, LayoutPhase, Relaxation};

fn pts(v: &[(i64, i64)]) -> Vec<Point> {
    v.iter().map(|&(x, y)| Point { x, y }).collect()
}

#[test]
fn largest_squared_displacement() {
    let before = pts(&[(0, 0), (10, 10), (-5, 0)]);
    let after = pts(&[(3, 4), (11, 11), (-5, 0)]);
    assert_eq!(max_displacement_sq(&before, &after), 25);
    assert_eq!(max_displacement_sq(&Vec::new(), &Vec::new()), 0);
}

#[test]
fn still_layout_is_stable_after_one_step() {
    let start = pts(&[(0, 0), (1000, 0)]);
    let mut r = Relaxation::new(100, 500);
    assert_eq!(r.phase(), LayoutPhase::Uninitialized);
    r.start(&start);
    assert!(r.is_running());
    r.observe(&pts(&[(300, 400), (1000, 0)]));
    assert_eq!(r.phase(), LayoutPhase::Stable);
    assert_eq!(r.steps(), 1);
}

#[test]
fn moving_layout_runs_to_the_cap() {
    let mut r = Relaxation::new(3, 10);
    r.start(&pts(&[(0, 0)]));
    let mut x = 0;
    while r.is_running() {
        x += 1000;
        r.observe(&pts(&[(x, 0)]));
    }
    assert_eq!(r.phase(), LayoutPhase::Bounded);
    assert_eq!(r.steps(), 3);
}

#[test]
fn displacement_is_measured_from_the_last_step() {
    let mut r = Relaxation::new(10, 10);
    r.start(&pts(&[(0, 0)]));
    r.observe(&pts(&[(5000, 0)]));
    assert_eq!(r.phase(), LayoutPhase::Stepping);
    r.observe(&pts(&[(5006, 8)]));
    assert_eq!(r.phase(), LayoutPhase::Stable);
}

#[test]
fn no_steps_allowed_is_bounded_at_once() {
    let mut r = Relaxation::new(0, 10);
    r.start(&pts(&[(0, 0)]));
    assert_eq!(r.phase(), LayoutPhase::Bounded);
    assert!(!r.is_running());
}

#[test]
fn cursor_blinks() {
    assert_eq!(BlinkState::On.next(), BlinkState::Off);
    assert_eq!(BlinkState::Off.next(), BlinkState::On);
    assert_eq!(BlinkState::Move.next(), BlinkState::On);
}
