use core::time::Duration;
use sixtyfps_animations::driver::AnimationDriver;
use sixtyfps_animations::instant::Instant;
use sixtyfps_animations::time_source::{scaled_tick, slowdown_factor, TimeSource};

#[test]
fn instant_add_and_sub_duration() {
    let a = Instant(1000);
    assert_eq!(a + Duration::from_millis(250), Instant(1250));
    assert_eq!(a - Duration::from_millis(250), Instant(750));
    assert_eq!(Instant(1250) - a, Duration::from_millis(250));
}

#[test]
fn instant_duration_since() {
    assert_eq!(Instant(42).duration_since(Instant(40)), Duration::from_millis(2));
    assert_eq!(Instant(40).duration_since(Instant(42)), Duration::from_millis(0));
}

#[test]
fn instant_truncates_sub_millisecond_durations() {
    assert_eq!(Instant(10) + Duration::from_micros(1999), Instant(11));
    assert_eq!(Instant(10) - Duration::from_micros(999), Instant(10));
}

#[test]
fn instant_saturates_at_both_ends() {
    assert_eq!(Instant(5) - Duration::from_millis(10), Instant(0));
    assert_eq!(Instant(u64::MAX - 1) + Duration::from_millis(10), Instant(u64::MAX));
}

#[test]
fn instant_assign_operators() {
    let mut a = Instant(100);
    a += Duration::from_millis(20);
    assert_eq!(a, Instant(120));
    a -= Duration::from_millis(50);
    assert_eq!(a, Instant(70));
}

#[test]
fn instant_round_trips() {
    let a = Instant(500);
    let d = Duration::from_millis(123);
    assert_eq!((a + d) - a, d);
    assert_eq!((a - d) + d, a);
    let fine = Duration::from_micros(123_456);
    assert_eq!((a + fine) - a, Duration::from_millis(123));
}

#[test]
fn instant_order_and_default() {
    assert!(Instant(1) < Instant(2));
    assert_eq!(Instant::default(), Instant(0));
}

#[test]
fn slowdown_factor_unset_is_one() {
    assert_eq!(slowdown_factor(None), 1);
}

#[test]
fn slowdown_factor_parses_positive_integers() {
    assert_eq!(slowdown_factor(Some("4")), 4);
    assert_eq!(slowdown_factor(Some("+3")), 3);
    assert_eq!(slowdown_factor(Some("4294967295")), 4294967295);
}

#[test]
fn slowdown_factor_defaults_to_two() {
    assert_eq!(slowdown_factor(Some("")), 2);
    assert_eq!(slowdown_factor(Some("abc")), 2);
    assert_eq!(slowdown_factor(Some("0")), 2);
    assert_eq!(slowdown_factor(Some("-4")), 2);
    assert_eq!(slowdown_factor(Some(" 4")), 2);
    assert_eq!(slowdown_factor(Some("4294967296")), 2);
}

#[test]
fn slowdown_factor_four_scales_four_hundred_ms_to_one_hundred() {
    let factor = slowdown_factor(Some("4"));
    assert_eq!(scaled_tick(400, factor), Instant(100));
}

#[test]
fn scaled_tick_truncates() {
    assert_eq!(scaled_tick(999, 1), Instant(999));
    assert_eq!(scaled_tick(7, 2), Instant(3));
}

#[test]
fn time_source_keeps_factor_and_starts_near_zero() {
    let source = TimeSource::new(Some("4"));
    assert_eq!(source.slowdown(), 4);
    assert!(source.now().0 < 10_000);
    assert_eq!(TimeSource::new(None).slowdown(), 1);
}

#[test]
fn driver_starts_idle() {
    let d = AnimationDriver::default();
    assert!(!d.has_active_animations());
    assert_eq!(d.current_tick_untracked(), Instant(0));
}

#[test]
fn advance_to_same_tick_changes_nothing() {
    let mut d = AnimationDriver::new();
    assert_eq!(d.current_tick(Some(1)), Instant(0));
    d.update_animations(Instant(16));
    assert!(d.needs_reevaluation(1));
    assert_eq!(d.take_pending(), vec![1]);
    assert_eq!(d.current_tick(Some(1)), Instant(16));
    d.set_has_active_animations();
    d.update_animations(Instant(16));
    assert!(d.has_active_animations());
    assert!(!d.needs_reevaluation(1));
    assert!(d.take_pending().is_empty());
}

#[test]
fn advance_to_new_tick_clears_active_flag() {
    let mut d = AnimationDriver::new();
    d.update_animations(Instant(10));
    d.set_has_active_animations();
    d.update_animations(Instant(20));
    assert!(!d.has_active_animations());
    assert_eq!(d.current_tick(Some(3)), Instant(20));
    assert!(!d.has_active_animations());
    d.set_has_active_animations();
    d.set_has_active_animations();
    assert!(d.has_active_animations());
}

#[test]
fn tracked_read_is_retriggered_by_new_tick_only() {
    let mut d = AnimationDriver::new();
    sixtyfps_animations::current_tick(&mut d, Some(7));
    d.current_tick(Some(7));
    d.current_tick(None);
    d.update_animations(Instant(0));
    assert!(!d.needs_reevaluation(7));
    d.update_animations(Instant(5));
    assert!(d.needs_reevaluation(7));
    assert!(!d.needs_reevaluation(8));
    assert_eq!(d.take_pending(), vec![7]);
    d.update_animations(Instant(6));
    assert!(!d.needs_reevaluation(7));
}

#[test]
fn untracked_read_registers_nothing() {
    let mut d = AnimationDriver::new();
    assert_eq!(d.current_tick(None), Instant(0));
    assert_eq!(d.current_tick_untracked(), Instant(0));
    d.update_animations(Instant(1));
    assert!(d.take_pending().is_empty());
}

#[test]
fn pending_bindings_accumulate_once_each() {
    let mut d = AnimationDriver::new();
    d.current_tick(Some(1));
    d.current_tick(Some(2));
    d.update_animations(Instant(1));
    d.current_tick(Some(2));
    d.current_tick(Some(3));
    d.update_animations(Instant(2));
    let mut pending = d.take_pending();
    pending.sort();
    assert_eq!(pending, vec![1, 2, 3]);
}
