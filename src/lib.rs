//! Hardware-agnostic interfaces for counter-like resources: free-running
//! counters, one-shot alarms at absolute tic values and interval timers,
//! together with verified software models of each.

pub mod alarm;
pub mod counter;
pub mod frequency;
pub mod return_code;
pub mod ticks;
pub mod time;
pub mod timer;

pub use frequency::{Freq16KHz, Freq16MHz, Freq1KHz, Freq32KHz, Frequency};
pub use return_code::ReturnCode;
pub use time::{Alarm, AlarmClient, Counter, Time, Timer, TimerClient};
