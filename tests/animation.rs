use ratscreens::animator::{Direction, OffsetAnimator, OFFSET_LIMIT_STEPS};
use ratscreens::ticker::TickScheduler;

#[test]
fn poll_waits_for_interval() {
    let mut t = TickScheduler::new(100, 1000);
    assert!(!t.poll(1050));
    assert_eq!(t.last_tick, 1000);
    assert!(!t.poll(1099));
    assert!(t.poll(1100));
    assert_eq!(t.last_tick, 1100);
    assert!(!t.poll(1150));
    assert!(t.poll(1300));
    assert_eq!(t.last_tick, 1300);
}

#[test]
fn poll_ignores_clock_going_back() {
    let mut t = TickScheduler::new(100, 1000);
    assert!(!t.poll(10));
    assert_eq!(t.last_tick, 1000);
}

#[test]
fn limit_from_geometry() {
    assert_eq!(OFFSET_LIMIT_STEPS, 25);
    assert_eq!(OffsetAnimator::default().limit(), 25);
}

#[test]
fn turns_after_limit_ticks() {
    let mut a = OffsetAnimator::default();
    for k in 1..25 {
        a.tick();
        assert_eq!(a.phase(), k);
        assert_eq!(a.direction(), Direction::Growing);
    }
    a.tick();
    assert_eq!(a.phase(), 25);
    assert_eq!(a.direction(), Direction::Shrinking);
    for _ in 0..24 {
        a.tick();
        assert_eq!(a.direction(), Direction::Shrinking);
    }
    a.tick();
    assert_eq!(a.phase(), 0);
    assert_eq!(a.direction(), Direction::Growing);
}

#[test]
fn ticks_stay_within_limit() {
    let mut a = OffsetAnimator::default();
    for _ in 0..500 {
        a.tick();
        assert!(a.phase() >= 0 && a.phase() <= 25);
        let o = a.offsets();
        assert!(o[0].1 >= 0 && o[0].1 <= 200);
        for v in o {
            assert!(v.0.abs() <= 200 && v.1.abs() <= 200);
        }
    }
}

#[test]
fn offsets_move_in_lock_step() {
    let mut a = OffsetAnimator::default();
    a.tick();
    a.tick();
    a.tick();
    assert_eq!(a.offsets(), [(0, 24), (0, -24), (24, 0), (-24, 0)]);
}

#[test]
fn manual_steps_keep_direction() {
    let mut a = OffsetAnimator::new(3);
    a.step_manual(true);
    a.step_manual(true);
    a.step_manual(true);
    a.step_manual(true);
    assert_eq!(a.phase(), 4);
    assert_eq!(a.direction(), Direction::Growing);
    a.tick();
    assert_eq!(a.phase(), 3);
    assert_eq!(a.direction(), Direction::Shrinking);
    a.step_manual(false);
    a.step_manual(false);
    a.step_manual(false);
    a.step_manual(false);
    assert_eq!(a.phase(), -1);
    a.tick();
    assert_eq!(a.phase(), 0);
    assert_eq!(a.direction(), Direction::Growing);
}
