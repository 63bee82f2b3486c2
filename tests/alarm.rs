use std::cell::Cell;

use hil_time::alarm::{AlarmState, SoftAlarm};
use hil_time::ticks::tics_after;
use hil_time::{Alarm, AlarmClient, Freq16MHz, ReturnCode, Time};

struct Counting {
    calls: Cell<u32>,
}

impl AlarmClient for Counting {
    fn fired(&self) {
        self.calls.set(self.calls.get() + 1);
    }
}

fn client() -> &'static Counting {
    Box::leak(Box::new(Counting { calls: Cell::new(0) }))
}

type TestAlarm = SoftAlarm<Freq16MHz, Counting>;

#[test]
fn get_alarm_returns_the_last_target() {
    for tics in [0u32, 1, 0x10, 0x7FFF_FFFF, 0x8000_0000, u32::MAX] {
        let mut a = TestAlarm::new(0x1234);
        a.set_alarm(tics);
        assert_eq!(a.get_alarm(), tics);
        assert!(a.is_enabled());
        assert!(a.is_armed());
    }
    let mut a = TestAlarm::new(0);
    a.set_alarm(100);
    a.set_alarm(200);
    assert_eq!(a.get_alarm(), 200);
    a.tick(50);
    assert_eq!(a.get_alarm(), 200);
    // still reported after firing and after disabling
    assert!(a.tick(250));
    assert_eq!(a.get_alarm(), 200);
    Time::disable(&mut a);
    assert_eq!(a.get_alarm(), 200);
}

#[test]
fn alarm_across_wrap_fires_once_after_0x10() {
    let c = client();
    let mut a = TestAlarm::new(0xFFFF_FFF0);
    a.set_client(c);
    let target = tics_after(a.now(), 0x20);
    assert_eq!(target, 0x10);
    a.set_alarm(target);
    for now in [0xFFFF_FFF1u32, 0xFFFF_FFFF, 0, 1, 0x0F] {
        assert!(!a.tick(now), "fired early at {:#x}", now);
        assert_eq!(c.calls.get(), 0);
    }
    assert!(a.tick(0x10));
    assert_eq!(c.calls.get(), 1);
    assert!(!a.is_armed());
    for now in [0x11u32, 0x20, 0x8000_0000, 0xFFFF_FFFF, 0x10] {
        assert!(!a.tick(now));
    }
    assert_eq!(c.calls.get(), 1);
}

#[test]
fn alarm_fires_when_the_exact_tic_is_skipped() {
    let c = client();
    let mut a = TestAlarm::new(0xFFFF_FFF0);
    a.set_client(c);
    a.set_alarm(0x10);
    assert!(!a.tick(0xFFFF_FFFA));
    assert!(!a.tick(0x08));
    assert!(a.tick(0x13));
    assert_eq!(c.calls.get(), 1);
    assert_eq!(a.now(), 0x13);
}

fn sweep_fires(start: u32, target: u32, step: u32, steps: u64) -> (u32, Option<u32>) {
    let mut s = AlarmState::new(start);
    s.set(target);
    let mut fires = 0u32;
    let mut at = None;
    let mut now = start;
    for _ in 0..steps {
        now = now.wrapping_add(step);
        if s.tick(now) {
            fires += 1;
            at = Some(now);
        }
    }
    (fires, at)
}

#[test]
fn due_decision_fires_exactly_once_per_crossing() {
    for target in [0u32, 0x10, 0x7FFF_FFFF, 0x8000_0000, 0xFFFF_FFFF, 0x1234_5678] {
        // one tic at a time, from just before the target to well past it
        let (fires, at) = sweep_fires(target.wrapping_sub(1000), target, 1, 3000);
        assert_eq!(fires, 1);
        assert_eq!(at, Some(target));
        // the whole range in coarse steps, starting just before the target
        let (fires, at) = sweep_fires(target.wrapping_sub(0x1000), target, 0x1000, 1 << 20);
        assert_eq!(fires, 1);
        assert_eq!(at, Some(target));
    }
}

#[test]
fn disable_is_idempotent() {
    let mut a = TestAlarm::new(10);
    a.set_alarm(40);
    assert_eq!(a.disable_alarm(), ReturnCode::SUCCESS);
    assert!(!a.is_enabled());
    assert_eq!(a.disable_alarm(), ReturnCode::SUCCESS);
    assert!(!a.is_enabled());
    assert_eq!(a.get_alarm(), 40);
    Time::disable(&mut a);
    assert!(!a.is_armed());
    assert_eq!(a.get_alarm(), 40);
    assert!(!a.tick(40));
    // disabling an alarm that was never set succeeds as well
    let mut b = TestAlarm::new(0);
    assert_eq!(b.disable_alarm(), ReturnCode::SUCCESS);
    assert!(!b.is_enabled());
}

#[test]
fn enable_without_target_is_refused() {
    let mut a = TestAlarm::new(0);
    assert_eq!(a.enable(), ReturnCode::EINVAL);
    assert!(!a.is_enabled());
    assert!(!a.tick(0));
}

#[test]
fn enable_rearms_the_last_target() {
    let c = client();
    let mut a = TestAlarm::new(0);
    a.set_client(c);
    a.set_alarm(100);
    assert_eq!(a.disable_alarm(), ReturnCode::SUCCESS);
    assert!(!a.tick(150));
    assert_eq!(a.enable(), ReturnCode::SUCCESS);
    assert!(a.is_enabled());
    assert_eq!(a.get_alarm(), 100);
    assert!(a.tick(151));
    assert_eq!(c.calls.get(), 1);
}

#[test]
fn second_client_replaces_the_first() {
    let first = client();
    let second = client();
    let mut a = TestAlarm::new(0);
    a.set_client(first);
    a.set_client(second);
    a.set_alarm(5);
    assert!(a.tick(5));
    a.set_alarm(9);
    assert!(a.tick(9));
    assert_eq!(first.calls.get(), 0);
    assert_eq!(second.calls.get(), 2);
}

#[test]
fn alarm_without_client_still_disarms() {
    let mut a = TestAlarm::new(0);
    a.set_alarm(3);
    assert!(a.tick(3));
    assert!(!a.is_armed());
}

#[test]
fn target_half_a_range_behind_fires_at_once() {
    let mut a = TestAlarm::new(0x1000);
    // more than half the range ahead reads as already past
    a.set_alarm(0x1000u32.wrapping_add(0x8000_0001));
    assert!(a.tick(0x1000));
    // exactly half the range ahead is still in the future
    a.set_alarm(0x1000u32.wrapping_add(0x8000_0000));
    assert!(!a.tick(0x1000));
}
