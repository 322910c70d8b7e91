use tower_scene::timer::{Timer, TimerMode};

#[test]
fn repeating_timer_completes_on_exact_boundary() {
    let mut t = Timer::from_millis(1000, TimerMode::Repeating);
    assert!(!t.tick(999));
    assert_eq!(t.elapsed_ms, 999);
    assert!(t.tick(1));
    assert_eq!(t.elapsed_ms, 0);
}

#[test]
fn repeating_timer_wraps_remainder() {
    let mut t = Timer::from_millis(1000, TimerMode::Repeating);
    assert!(!t.tick(600));
    assert!(t.tick(600));
    assert_eq!(t.elapsed_ms, 200);
    assert_eq!(t.duration_ms, 1000);
    assert_eq!(t.mode, TimerMode::Repeating);
}

#[test]
fn once_timer_completes_once_and_stays_finished() {
    let mut t = Timer::from_millis(500, TimerMode::Once);
    assert!(!t.tick(499));
    assert!(t.tick(1));
    assert_eq!(t.elapsed_ms, 500);
    assert!(!t.tick(100));
    assert_eq!(t.elapsed_ms, 500);
}

#[test]
fn once_timer_overshoot_saturates() {
    let mut t = Timer::from_millis(500, TimerMode::Once);
    assert!(t.tick(1200));
    assert_eq!(t.elapsed_ms, 500);
}

#[test]
fn zero_delta_leaves_timers_unchanged() {
    let mut r = Timer::from_millis(1000, TimerMode::Repeating);
    r.tick(400);
    assert!(!r.tick(0));
    assert_eq!(r.elapsed_ms, 400);

    let mut o = Timer::from_millis(500, TimerMode::Once);
    o.tick(250);
    assert!(!o.tick(0));
    assert_eq!(o.elapsed_ms, 250);
}
