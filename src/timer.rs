//! An interval `Timer` layered on the alarm engine: it turns intervals into
//! absolute targets and, in repeating mode, re-arms from the previous target.
use vstd::prelude::*;
use vstd::arithmetic::div_mod::lemma_add_mod_noop;
use vstd::arithmetic::div_mod::lemma_small_mod;
use crate::alarm::{AlarmState, AlarmView};
use crate::frequency::Frequency;
use crate::return_code::ReturnCode;
use crate::ticks::{distance, due, is_due, tics_after, tics_between, wrap};
use crate::time::{Time, Timer, TimerClient};

verus! {

/// Whether a timer fires once or re-arms itself after each firing.
#[derive(Clone, Copy, Debug, PartialEq, Eq, Structural)]
pub enum TimerMode {
    Oneshot,
    Repeating,
}

/// The abstract state of a timer.
pub struct TimerView {
    /// The underlying alarm: its counter, next target and armed flag.
    pub alarm: AlarmView,
    pub mode: TimerMode,
    pub interval: u32,
}

impl TimerView {
    /// A timer that was never started, with its counter at `now`.
    pub open spec fn initial(now: u32) -> TimerView {
        TimerView { alarm: AlarmView::initial(now), mode: TimerMode::Oneshot, interval: 0 }
    }

    /// The state after starting the timer in `mode` with `interval`: the
    /// target is `interval` tics after the current counter value.
    pub open spec fn start(self, mode: TimerMode, interval: u32) -> TimerView {
        TimerView {
            alarm: self.alarm.set(wrap(self.alarm.now + interval)),
            mode,
            interval,
        }
    }

    /// The state after `cancel`.
    pub open spec fn cancel(self) -> TimerView {
        TimerView { alarm: self.alarm.disable(), ..self }
    }

    /// Tics left until the timer fires: 0 when disarmed or already due.
    pub open spec fn remaining(self) -> u32 {
        if self.alarm.armed && !due(self.alarm.now, self.alarm.target) {
            distance(self.alarm.now, self.alarm.target)
        } else {
            0
        }
    }

    /// The state after observing the counter at `now`. A repeating timer
    /// that fires is armed again `interval` tics after the target it just
    /// reached, whatever the value of `now`.
    pub open spec fn tick(self, now: u32) -> TimerView {
        if self.alarm.fires_at(now) && self.mode == TimerMode::Repeating {
            TimerView {
                alarm: self.alarm.tick(now).set(wrap(self.alarm.target + self.interval)),
                ..self
            }
        } else {
            TimerView { alarm: self.alarm.tick(now), ..self }
        }
    }
}

/// A `Timer` driven by the counter values that its servicing context
/// passes to `tick`; it notifies its registered client on each firing.
pub struct SoftTimer<F: Frequency, C: TimerClient + 'static> {
    rate: core::marker::PhantomData<F>,
    alarm: AlarmState,
    mode: TimerMode,
    interval: u32,
    client: Option<&'static C>,
}

impl<F: Frequency, C: TimerClient + 'static> SoftTimer<F, C> {
    /// The abstract state of the timer.
    pub closed spec fn state(&self) -> TimerView {
        TimerView { alarm: self.alarm@, mode: self.mode, interval: self.interval }
    }

    /// A timer that was never started, with no client, whose counter reads
    /// `now`.
    pub fn new(now: u32) -> (r: SoftTimer<F, C>)
        ensures
            r.state() == TimerView::initial(now),
            r.client() == None::<&'static C>,
    {
        SoftTimer {
            rate: core::marker::PhantomData,
            alarm: AlarmState::new(now),
            mode: TimerMode::Oneshot,
            interval: 0,
            client: None,
        }
    }

    /// The absolute tic value at which the timer fires next.
    pub fn target(&self) -> (r: u32)
        ensures
            r == self.state().alarm.target,
    {
        self.alarm.target()
    }

    fn start(&mut self, mode: TimerMode, interval: u32)
        ensures
            final(self).state() == old(self).state().start(mode, interval),
            final(self).client() == old(self).client(),
    {
        let target = tics_after(self.alarm.now(), interval);
        self.alarm.set(target);
        self.mode = mode;
        self.interval = interval;
    }

    /// Observes the counter at `now`; returns whether the timer fired. A
    /// firing notifies the registered client, if any, once; in repeating
    /// mode the next target is set before the client is called.
    pub fn tick(&mut self, now: u32) -> (fired: bool)
        ensures
            fired == old(self).state().alarm.fires_at(now),
            final(self).state() == old(self).state().tick(now),
            final(self).client() == old(self).client(),
    {
        let previous = self.alarm.target();
        let fired = self.alarm.tick(now);
        if fired {
            if self.mode == TimerMode::Repeating {
                let next = tics_after(previous, self.interval);
                self.alarm.set(next);
            }
            match self.client {
                Some(c) => c.fired(),
                None => {},
            }
        }
        fired
    }
}

impl<F: Frequency, C: TimerClient + 'static> Time for SoftTimer<F, C> {
    type Frequency = F;

    open spec fn armed(&self) -> bool {
        self.state().alarm.armed
    }

    fn disable(&mut self)
        ensures
            final(self).state() == old(self).state().cancel(),
            final(self).client() == old(self).client(),
    {
        self.alarm.disable();
    }

    fn is_armed(&self) -> (r: bool) {
        self.alarm.is_armed()
    }

    fn now(&self) -> (r: u32)
        ensures
            r == self.state().alarm.now,
    {
        self.alarm.now()
    }
}

impl<F: Frequency, C: TimerClient + 'static> Timer for SoftTimer<F, C> {
    type Client = C;

    open spec fn period(&self) -> u32 {
        self.state().interval
    }

    open spec fn repeating(&self) -> bool {
        self.state().mode == TimerMode::Repeating
    }

    closed spec fn client(&self) -> Option<&'static C> {
        self.client
    }

    fn set_client(&mut self, client: &'static C)
        ensures
            final(self).state() == old(self).state(),
    {
        self.client = Some(client);
    }

    fn oneshot(&mut self, interval: u32)
        ensures
            final(self).state() == old(self).state().start(TimerMode::Oneshot, interval),
    {
        self.start(TimerMode::Oneshot, interval);
    }

    fn repeat(&mut self, interval: u32)
        ensures
            final(self).state() == old(self).state().start(TimerMode::Repeating, interval),
    {
        self.start(TimerMode::Repeating, interval);
    }

    fn interval(&self) -> (r: u32) {
        self.interval
    }

    fn is_oneshot(&self) -> (r: bool) {
        self.mode == TimerMode::Oneshot
    }

    fn is_repeating(&self) -> (r: bool) {
        self.mode == TimerMode::Repeating
    }

    fn time_remaining(&self) -> (r: u32)
        ensures
            r == self.state().remaining(),
    {
        let now = self.alarm.now();
        let target = self.alarm.target();
        if self.alarm.is_armed() && !is_due(now, target) {
            tics_between(now, target)
        } else {
            0
        }
    }

    fn is_enabled(&self) -> (r: bool) {
        self.alarm.is_armed()
    }

    fn cancel(&mut self) -> (r: ReturnCode)
        ensures
            final(self).state() == old(self).state().cancel(),
    {
        self.alarm.disable();
        ReturnCode::SUCCESS
    }
}

/// The state after observing the counter at each value of `nows` in turn.
pub open spec fn run(t: TimerView, nows: Seq<u32>) -> TimerView
    decreases nows.len(),
{
    if nows.len() == 0 {
        t
    } else {
        run(t, nows.drop_last()).tick(nows.last())
    }
}

/// How many times the timer fires while observing `nows`.
pub open spec fn run_fires(t: TimerView, nows: Seq<u32>) -> nat
    decreases nows.len(),
{
    if nows.len() == 0 {
        0
    } else {
        run_fires(t, nows.drop_last()) + if run(t, nows.drop_last()).alarm.fires_at(nows.last()) {
            1nat
        } else {
            0nat
        }
    }
}

/// A repeating timer does not drift: however late each firing is serviced
/// (whatever counter values `nows` it is shown), after `k` firings its
/// target is `k` intervals after the first one, and it stays armed with
/// the same interval.
pub proof fn lemma_repeat_without_drift(t: TimerView, nows: Seq<u32>)
    requires
        t.mode == TimerMode::Repeating,
        t.alarm.armed,
    ensures
        run(t, nows).alarm.target == wrap(t.alarm.target + run_fires(t, nows) * t.interval),
        run(t, nows).alarm.armed,
        run(t, nows).interval == t.interval,
        run(t, nows).mode == TimerMode::Repeating,
    decreases nows.len(),
{
    let m = crate::ticks::TIC_RANGE as int;
    if nows.len() == 0 {
        crate::ticks::lemma_wrap_near(t.alarm.target as int);
        assert(0 * t.interval == 0);
    } else {
        let rest = nows.drop_last();
        lemma_repeat_without_drift(t, rest);
        let k = run_fires(t, rest) as int;
        let i = t.interval as int;
        let base = t.alarm.target as int;
        if run(t, rest).alarm.fires_at(nows.last()) {
            assert((k + 1) * i == k * i + i) by (nonlinear_arith);
            lemma_add_mod_noop(base + k * i, i, m);
            lemma_small_mod(i as nat, m as nat);
            assert(run(t, nows).alarm.target == wrap(run(t, rest).alarm.target + i));
        }
    }
}

/// Cancelling a timer that is not armed changes nothing, and cancelling
/// twice is the same as cancelling once.
pub proof fn lemma_cancel_idempotent(t: TimerView)
    ensures
        !t.alarm.armed ==> t.cancel() == t,
        t.cancel().cancel() == t.cancel(),
{
}

} // verus!
