//! The capability hierarchy: `Time` is the base, `Counter`, `Alarm` and
//! `Timer` extend it, and `AlarmClient` / `TimerClient` receive callbacks.
use vstd::prelude::*;
use crate::frequency::Frequency;
use crate::return_code::ReturnCode;

verus! {

/// A clock-like resource: reports the current tic count and whether a
/// notification is pending.
pub trait Time: Sized {
    type Frequency: Frequency;

    /// Whether an alarm or timer is currently armed.
    spec fn armed(&self) -> bool;

    /// Disables any outstanding alarm or timer; a no-op when nothing is armed.
    fn disable(&mut self)
        ensures
            !final(self).armed(),
            !old(self).armed() ==> *final(self) == *old(self),
    ;

    /// Returns whether a timer or alarm is currently armed.
    fn is_armed(&self) -> (r: bool)
        ensures
            r == self.armed(),
    ;

    /// Returns the current time in hardware clock units.
    fn now(&self) -> u32;
}

/// A free-running counter that can be started and stopped.
pub trait Counter: Time {
    /// Whether the counter is running.
    spec fn running(&self) -> bool;

    /// Starts the counter. Starting a running counter succeeds and changes
    /// nothing; a counter that could not be started reports why.
    fn start(&mut self) -> (r: ReturnCode)
        ensures
            old(self).running() ==> r == ReturnCode::SUCCESS && *final(self) == *old(self),
            r == ReturnCode::SUCCESS <==> final(self).running(),
    ;

    /// Stops the counter. Stopping a stopped counter succeeds and changes
    /// nothing; a counter that could not be stopped reports why.
    fn stop(&mut self) -> (r: ReturnCode)
        ensures
            !old(self).running() ==> r == ReturnCode::SUCCESS && *final(self) == *old(self),
            r == ReturnCode::SUCCESS <==> !final(self).running(),
    ;

    fn is_running(&self) -> (r: bool)
        ensures
            r == self.running(),
    ;
}

/// A wrapping counter that can notify its client once it reaches a given
/// absolute tic value.
pub trait Alarm: Time {
    type Client: AlarmClient + 'static;

    /// The last value passed to `set_alarm`.
    spec fn alarm(&self) -> u32;

    /// Whether `set_alarm` has ever been called.
    spec fn has_alarm(&self) -> bool;

    /// The registered client, if any.
    spec fn client(&self) -> Option<&'static Self::Client>;

    /// Sets a one-shot alarm to fire when the clock reaches `tics`; arms it.
    fn set_alarm(&mut self, tics: u32)
        ensures
            final(self).alarm() == tics,
            final(self).has_alarm(),
            final(self).armed(),
            final(self).client() == old(self).client(),
    ;

    /// Returns the value set in `set_alarm`.
    fn get_alarm(&self) -> (r: u32)
        ensures
            r == self.alarm(),
    ;

    /// Registers `client`, replacing any earlier one.
    fn set_client(&mut self, client: &'static Self::Client)
        ensures
            final(self).client() == Some(client),
            final(self).armed() == old(self).armed(),
            final(self).alarm() == old(self).alarm(),
            final(self).has_alarm() == old(self).has_alarm(),
    ;

    fn is_enabled(&self) -> (r: bool)
        ensures
            r == self.armed(),
    ;

    /// Re-arms the alarm at its last target; fails with `EINVAL` when no
    /// target was ever set.
    fn enable(&mut self) -> (r: ReturnCode)
        ensures
            old(self).has_alarm() ==> r == ReturnCode::SUCCESS && final(self).armed(),
            !old(self).has_alarm() ==> r == ReturnCode::EINVAL && *final(self) == *old(self),
            final(self).alarm() == old(self).alarm(),
            final(self).has_alarm() == old(self).has_alarm(),
            final(self).client() == old(self).client(),
    ;

    /// Masks the pending notification and reports the outcome; always
    /// succeeds.
    fn disable_alarm(&mut self) -> (r: ReturnCode)
        ensures
            r == ReturnCode::SUCCESS,
            !final(self).armed(),
            !old(self).armed() ==> *final(self) == *old(self),
            final(self).alarm() == old(self).alarm(),
            final(self).has_alarm() == old(self).has_alarm(),
            final(self).client() == old(self).client(),
    ;
}

/// A client of an `Alarm`.
pub trait AlarmClient {
    /// Called when the alarm's clock reaches the value set in `set_alarm`.
    fn fired(&self);
}

/// A timer that notifies its client when an interval has elapsed.
pub trait Timer: Time {
    type Client: TimerClient + 'static;

    /// The configured interval.
    spec fn period(&self) -> u32;

    /// Whether the timer re-arms itself after firing.
    spec fn repeating(&self) -> bool;

    /// The registered client, if any.
    spec fn client(&self) -> Option<&'static Self::Client>;

    /// Registers `client`, replacing any earlier one.
    fn set_client(&mut self, client: &'static Self::Client)
        ensures
            final(self).client() == Some(client),
            final(self).armed() == old(self).armed(),
            final(self).period() == old(self).period(),
            final(self).repeating() == old(self).repeating(),
    ;

    /// Sets a one-shot timer to fire in `interval` tics.
    fn oneshot(&mut self, interval: u32)
        ensures
            final(self).armed(),
            final(self).period() == interval,
            !final(self).repeating(),
            final(self).client() == old(self).client(),
    ;

    /// Sets a repeating timer to fire every `interval` tics.
    fn repeat(&mut self, interval: u32)
        ensures
            final(self).armed(),
            final(self).period() == interval,
            final(self).repeating(),
            final(self).client() == old(self).client(),
    ;

    fn interval(&self) -> (r: u32)
        ensures
            r == self.period(),
    ;

    fn is_oneshot(&self) -> (r: bool)
        ensures
            r == !self.repeating(),
    ;

    fn is_repeating(&self) -> (r: bool)
        ensures
            r == self.repeating(),
    ;

    /// Tics left until the timer fires; 0 when it is disabled.
    fn time_remaining(&self) -> (r: u32)
        ensures
            !self.armed() ==> r == 0,
    ;

    fn is_enabled(&self) -> (r: bool)
        ensures
            r == self.armed(),
    ;

    /// Disarms the timer; always succeeds.
    fn cancel(&mut self) -> (r: ReturnCode)
        ensures
            r == ReturnCode::SUCCESS,
            !final(self).armed(),
            !old(self).armed() ==> *final(self) == *old(self),
            final(self).period() == old(self).period(),
            final(self).repeating() == old(self).repeating(),
            final(self).client() == old(self).client(),
    ;
}

/// A client of a `Timer`.
pub trait TimerClient {
    /// Called when the timer's interval has elapsed.
    fn fired(&self);
}

} // verus!
