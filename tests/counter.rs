use hil_time::counter::SoftCounter;
use hil_time::{Counter, Freq32KHz, ReturnCode, Time};

#[test]
fn start_and_stop() {
    let mut c = SoftCounter::<Freq32KHz>::new(7);
    assert!(!c.is_running());
    assert_eq!(c.start(), ReturnCode::SUCCESS);
    assert!(c.is_running());
    c.advance(10);
    assert_eq!(c.now(), 17);
    assert_eq!(c.stop(), ReturnCode::SUCCESS);
    assert!(!c.is_running());
    c.advance(10);
    assert_eq!(c.now(), 17);
}

#[test]
fn stop_when_stopped_is_a_successful_no_op() {
    let mut c = SoftCounter::<Freq32KHz>::new(3);
    assert_eq!(c.stop(), ReturnCode::SUCCESS);
    assert_eq!(c.stop(), ReturnCode::SUCCESS);
    assert!(!c.is_running());
    assert_eq!(c.now(), 3);
}

#[test]
fn start_when_running_is_a_successful_no_op() {
    let mut c = SoftCounter::<Freq32KHz>::new(3);
    assert_eq!(c.start(), ReturnCode::SUCCESS);
    assert_eq!(c.start(), ReturnCode::SUCCESS);
    assert!(c.is_running());
    assert_eq!(c.now(), 3);
}

#[test]
fn shared_counter_cannot_be_stopped_until_released() {
    let mut c = SoftCounter::<Freq32KHz>::shared(0);
    assert!(c.is_running());
    assert_eq!(c.stop(), ReturnCode::EBUSY);
    assert!(c.is_running());
    c.release();
    assert_eq!(c.stop(), ReturnCode::SUCCESS);
    assert!(!c.is_running());
}

#[test]
fn counter_wraps_to_zero() {
    let mut c = SoftCounter::<Freq32KHz>::new(0xFFFF_FFF0);
    c.start();
    c.advance(0x20);
    assert_eq!(c.now(), 0x10);
}

#[test]
fn counter_has_nothing_armed() {
    let mut c = SoftCounter::<Freq32KHz>::new(0);
    assert!(!c.is_armed());
    c.disable();
    assert!(!c.is_armed());
}
