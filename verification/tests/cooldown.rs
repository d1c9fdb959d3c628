use democracy::cooldown::Cooldown;

#[test]
fn new_timer_is_idle() {
    let timer = Cooldown::new(10);
    assert_eq!(timer.duration, 10);
    assert_eq!(timer.start, 0);
    assert!(!timer.is_in_cooldown_at(10));
    assert!(!timer.is_in_cooldown_at(1_000));
    assert_eq!(timer.get_remaining_time_at(1_000), 0);
}

#[test]
fn armed_timer_counts_down() {
    let mut timer = Cooldown::new(10);
    timer.put_in_cooldown_at(100);
    assert_eq!(timer.start, 100);
    assert!(timer.is_in_cooldown_at(100));
    assert_eq!(timer.get_remaining_time_at(100), 10);
    assert!(timer.is_in_cooldown_at(105));
    assert_eq!(timer.get_remaining_time_at(105), 5);
    assert!(timer.is_in_cooldown_at(109));
    assert_eq!(timer.get_remaining_time_at(109), 1);
}

#[test]
fn timer_ends_when_the_span_has_passed() {
    let mut timer = Cooldown::new(10);
    timer.put_in_cooldown_at(100);
    assert!(!timer.is_in_cooldown_at(110));
    assert_eq!(timer.get_remaining_time_at(110), 0);
    assert!(!timer.is_in_cooldown_at(u128::MAX));
    assert_eq!(timer.get_remaining_time_at(u128::MAX), 0);
}

#[test]
fn clock_before_arming_counts_as_no_time_passed() {
    let mut timer = Cooldown::new(10);
    timer.put_in_cooldown_at(100);
    assert!(timer.is_in_cooldown_at(50));
    assert_eq!(timer.get_remaining_time_at(50), 10);
}

#[test]
fn rearming_restarts_the_span() {
    let mut timer = Cooldown::new(10);
    timer.put_in_cooldown_at(100);
    timer.put_in_cooldown_at(108);
    assert_eq!(timer.get_remaining_time_at(110), 8);
    assert_eq!(timer.duration, 10);
}

#[test]
fn cleared_timer_is_idle_again() {
    let mut timer = Cooldown::new(10);
    timer.put_in_cooldown_at(100);
    timer.clear_cooldown();
    assert_eq!(timer, Cooldown::new(10));
    assert!(!timer.is_in_cooldown_at(101));
    assert_eq!(timer.get_remaining_time_at(101), 0);
}

#[test]
fn zero_span_is_never_active() {
    let mut timer = Cooldown::new(0);
    timer.put_in_cooldown_at(100);
    assert!(!timer.is_in_cooldown_at(100));
    assert_eq!(timer.get_remaining_time_at(100), 0);
}

#[test]
fn wall_clock_arms_after_the_epoch() {
    let hour: u128 = 3_600_000_000_000;
    let mut timer = Cooldown::new(hour);
    assert!(!timer.is_in_cooldown());
    assert_eq!(timer.get_remaining_time(), 0);
    timer.put_in_cooldown();
    assert!(timer.start > 0);
    assert_eq!(timer.duration, hour);
    assert!(timer.is_in_cooldown());
    let left = timer.get_remaining_time();
    assert!(left > 0 && left <= hour);
    timer.clear_cooldown();
    assert!(!timer.is_in_cooldown());
}
