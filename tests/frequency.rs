use hil_time::alarm::SoftAlarm;
use hil_time::{AlarmClient, Freq16KHz, Freq16MHz, Freq1KHz, Freq32KHz, Frequency, Time};

struct Silent;

impl AlarmClient for Silent {
    fn fired(&self) {}
}

#[test]
fn frequencies_in_hz() {
    assert_eq!(Freq16MHz::frequency(), 16_000_000);
    assert_eq!(Freq32KHz::frequency(), 32_768);
    assert_eq!(Freq16KHz::frequency(), 16_000);
    assert_eq!(Freq1KHz::frequency(), 1_000);
}

#[test]
fn frequency_reached_through_time() {
    assert_eq!(<SoftAlarm<Freq32KHz, Silent> as Time>::Frequency::frequency(), 32_768);
    assert_eq!(<SoftAlarm<Freq1KHz, Silent> as Time>::Frequency::frequency(), 1_000);
}
