use vault13::sequence::noop::Noop;
use vault13::timer::Timer;

#[test]
fn new_timer_has_no_delta() {
    let t = Timer::new(5_000);
    assert_eq!(t.time(), 5_000);
    assert_eq!(t.delta(), 0);
}

#[test]
fn tick_moves_the_frame_on() {
    let mut t = Timer::new(1_000);
    t.tick(17_666);
    assert_eq!(t.time(), 17_666);
    assert_eq!(t.delta(), 16_666);
    t.tick(20_000);
    assert_eq!(t.time(), 20_000);
    assert_eq!(t.delta(), 2_334);
}

#[test]
fn tick_at_the_same_time_gives_no_delta() {
    let mut t = Timer::new(0);
    t.tick(9);
    t.tick(9);
    assert_eq!(t.time(), 9);
    assert_eq!(t.delta(), 0);
}

#[test]
fn timer_reaches_the_end_of_the_clock() {
    let mut t = Timer::new(0);
    t.tick(u64::MAX);
    assert_eq!(t.time(), u64::MAX);
    assert_eq!(t.delta(), u64::MAX);
}

#[test]
fn noop_can_be_made() {
    let a = Noop::new();
    let b = a;
    assert_eq!(format!("{:?}", a), format!("{:?}", b));
}
