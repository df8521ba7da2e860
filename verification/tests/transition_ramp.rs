//! The transition controller: bounds, ramp profile and the finished pulse.
use survival_core::transition::{Transition, TransitionKind, ALPHA_MAX};

#[test]
fn fade_in_reaches_floor_in_one_hundred_ticks() {
    let mut t = Transition::new();
    assert_eq!(t.alpha, ALPHA_MAX);
    assert!(matches!(t.kind, TransitionKind::FadeIn));
    assert!(!t.finished);
    for k in 1..=100i64 {
        t.tick();
        assert_eq!(t.alpha, ALPHA_MAX - k);
    }
    assert_eq!(t.alpha, 0);
    assert!(t.finished);
}

#[test]
fn fade_in_finished_pulses_exactly_once() {
    let mut t = Transition::new();
    let mut pulses = 0;
    let mut pulse_tick = 0;
    for k in 1..=300 {
        t.tick();
        if t.finished {
            pulses += 1;
            pulse_tick = k;
        }
    }
    assert_eq!(pulses, 1);
    assert_eq!(pulse_tick, 100);
    assert_eq!(t.alpha, 0);
}

#[test]
fn fade_out_finished_pulses_exactly_once() {
    let mut t = Transition::new();
    t.kind = TransitionKind::FadeOut;
    t.alpha = 0;
    let mut pulses = 0;
    let mut pulse_tick = 0;
    for k in 1..=250 {
        t.tick();
        assert!(0 <= t.alpha && t.alpha <= ALPHA_MAX);
        if t.finished {
            pulses += 1;
            pulse_tick = k;
        }
    }
    assert_eq!(pulses, 1);
    assert_eq!(pulse_tick, 100);
    assert_eq!(t.alpha, ALPHA_MAX);
}

#[test]
fn idle_changes_nothing() {
    let mut t = Transition::new();
    t.kind = TransitionKind::Idle;
    t.alpha = 37;
    t.finished = true;
    for _ in 0..50 {
        t.tick();
        assert_eq!(t.alpha, 37);
        assert!(t.finished);
    }
}

#[test]
fn alpha_stays_in_bounds_whatever_the_ramp_does() {
    let mut t = Transition::new();
    for k in 0..1000 {
        if k % 137 == 0 {
            t.kind = TransitionKind::FadeOut;
        }
        if k % 251 == 0 {
            t.kind = TransitionKind::FadeIn;
        }
        t.tick();
        assert!(0 <= t.alpha && t.alpha <= ALPHA_MAX);
    }
}
