use rust_wars::shared::{
    duration_at_most, duration_between, AtMost, Between, DespawnTimer, DurationGenerator,
    DurationType, Fixed, ShootingCooldown, Timer,
};

#[test]
fn timer_accumulates_and_saturates() {
    let mut t = Timer::new(100);
    assert!(!t.finished());
    t.tick(40);
    assert!(!t.finished());
    t.tick(40);
    assert!(!t.finished());
    t.tick(40);
    assert!(t.finished());
    assert_eq!(t.elapsed_ms, 100);
    t.tick(1000);
    assert_eq!(t.elapsed_ms, 100);
}

#[test]
fn zero_duration_timer_is_finished_at_once() {
    let t = Timer::new(0);
    assert!(t.finished());
}

#[test]
fn timer_reset_starts_over() {
    let mut t = Timer::new(50);
    t.tick(60);
    assert!(t.finished());
    t.reset();
    assert!(!t.finished());
    assert_eq!(t.elapsed_ms, 0);
    assert_eq!(t.duration_ms, 50);
}

#[test]
fn despawn_timer_runs_down_once() {
    let mut d = DespawnTimer::from_millis(750);
    d.tick(700);
    assert!(!d.finished());
    d.tick(50);
    assert!(d.finished());
}

#[test]
fn at_most_zero_stays_zero() {
    assert_eq!(duration_at_most(0), 0);
}

#[test]
fn at_most_stays_below_its_bound() {
    for _ in 0..200 {
        assert!(duration_at_most(10) < 10);
    }
}

#[test]
fn between_equal_bounds_is_that_bound() {
    // would fail if the sampler merely echoed some other value
    for _ in 0..20 {
        assert_eq!(duration_between(7, 7), 7);
    }
}

#[test]
fn between_stays_inside_its_bounds() {
    for _ in 0..200 {
        let d = duration_between(3, 9);
        assert!((3..=9).contains(&d));
    }
}

#[test]
fn generators_sample_within_their_own_bounds() {
    for _ in 0..100 {
        assert!(AtMost(5).sample() <= 5);
        let d = Between(2, 4).sample();
        assert!((2..=4).contains(&d));
        assert_eq!(Fixed(123).sample(), 123);
        assert!(DurationType::AtMost(AtMost(5)).sample() <= 5);
        let d = DurationType::Between(Between(2, 4)).sample();
        assert!((2..=4).contains(&d));
        assert_eq!(DurationType::Fixed(Fixed(123)).sample(), 123);
    }
}

#[test]
fn fresh_cooldown_must_first_run_down() {
    let mut c = ShootingCooldown::new(DurationType::Fixed(Fixed(300)));
    assert!(!c.finished());
    c.tick(299);
    assert!(!c.finished());
    c.tick(1);
    assert!(c.finished());
}

#[test]
fn finished_cooldown_is_ready_at_once_and_rearms_on_reset() {
    let mut c = ShootingCooldown::new_finished(DurationType::Fixed(Fixed(300)));
    assert!(c.finished());
    c.reset();
    assert!(!c.finished());
    c.tick(300);
    assert!(c.finished());
}
