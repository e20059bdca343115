use platformer_core::timer::Timer;

#[test]
fn new_timer_is_not_started() {
    let t = Timer::new(700, false);
    assert_eq!(t.duration_ms, 700);
    assert_eq!(t.elapsed_ms(), 0);
    assert!(!t.repeating);
    assert!(!t.started());
    assert!(!t.finished());
}

#[test]
fn unstarted_timer_does_not_advance() {
    let mut t = Timer::new(700, false);
    t.tick(500);
    assert_eq!(t.elapsed_ms(), 0);
    assert!(!t.finished());
}

#[test]
fn one_shot_finishes_exactly_at_duration() {
    let mut t = Timer::new(700, false);
    t.start(700, false);
    t.tick(699);
    assert!(!t.finished());
    assert_eq!(t.elapsed_ms(), 699);
    t.tick(1);
    assert!(t.finished());
    assert_eq!(t.elapsed_ms(), 700);
}

#[test]
fn one_shot_stays_finished_until_reset() {
    let mut t = Timer::new(700, false);
    t.start(700, false);
    t.tick(1000);
    assert!(t.finished());
    assert_eq!(t.elapsed_ms(), 700);
    t.tick(1000);
    assert!(t.finished());
    assert_eq!(t.elapsed_ms(), 700);
    t.reset();
    assert!(!t.finished());
    assert_eq!(t.elapsed_ms(), 0);
    assert!(!t.started());
}

#[test]
fn repeating_timer_pulses_and_wraps() {
    let mut t = Timer::new(150, true);
    t.start(150, true);
    t.tick(100);
    assert!(!t.finished());
    assert_eq!(t.elapsed_ms(), 100);
    t.tick(100);
    assert!(t.finished());
    assert_eq!(t.elapsed_ms(), 50);
    t.tick(50);
    assert!(!t.finished());
    assert_eq!(t.elapsed_ms(), 100);
}

#[test]
fn zero_duration_repeating_timer_fires_every_tick() {
    let mut t = Timer::new(0, true);
    t.start(0, true);
    t.tick(16);
    assert!(t.finished());
    assert_eq!(t.elapsed_ms(), 0);
    t.tick(16);
    assert!(t.finished());
}

#[test]
fn reset_on_fresh_timer_is_idempotent() {
    let mut t = Timer::new(700, false);
    let before = t;
    t.reset();
    assert_eq!(t, before);
    assert!(!t.finished());
    assert_eq!(t.elapsed_ms(), 0);
}

#[test]
fn restart_clears_elapsed_and_finished() {
    let mut t = Timer::new(700, false);
    t.start(700, false);
    t.tick(900);
    assert!(t.finished());
    t.restart();
    assert!(t.started());
    assert!(!t.finished());
    assert_eq!(t.elapsed_ms(), 0);
    assert_eq!(t.duration_ms, 700);
}
