//! A software alarm: the state machine that decides when an absolute
//! target has been reached, and an `Alarm` built on it.
use vstd::prelude::*;
use crate::frequency::Frequency;
use crate::return_code::ReturnCode;
use crate::ticks::{distance, due, is_due, lemma_approach, wrap};
use crate::time::{Alarm, AlarmClient, Time};

verus! {

/// The abstract state of an alarm.
pub struct AlarmView {
    /// The last counter value observed.
    pub now: u32,
    /// The last target set.
    pub target: u32,
    /// Whether a target was ever set.
    pub has_target: bool,
    /// Whether a notification is pending.
    pub armed: bool,
}

impl AlarmView {
    /// An alarm that has never been set, with its counter at `now`.
    pub open spec fn initial(now: u32) -> AlarmView {
        AlarmView { now, target: 0, has_target: false, armed: false }
    }

    /// The state after `set_alarm(tics)`.
    pub open spec fn set(self, tics: u32) -> AlarmView {
        AlarmView { target: tics, has_target: true, armed: true, ..self }
    }

    /// The state after `enable`: armed again at the last target, if any.
    pub open spec fn enable(self) -> AlarmView {
        AlarmView { armed: self.armed || self.has_target, ..self }
    }

    /// The state after `disable`.
    pub open spec fn disable(self) -> AlarmView {
        AlarmView { armed: false, ..self }
    }

    /// Whether observing the counter at `now` fires the alarm.
    pub open spec fn fires_at(self, now: u32) -> bool {
        self.armed && due(now, self.target)
    }

    /// The state after observing the counter at `now`: a firing disarms.
    pub open spec fn tick(self, now: u32) -> AlarmView {
        AlarmView { now, armed: self.armed && !self.fires_at(now), ..self }
    }
}

/// The engine of a one-shot alarm: it holds the target and the armed flag,
/// and decides, for each counter value it is shown, whether the alarm fires.
pub struct AlarmState {
    now: u32,
    target: u32,
    has_target: bool,
    armed: bool,
}

impl View for AlarmState {
    type V = AlarmView;

    closed spec fn view(&self) -> AlarmView {
        AlarmView {
            now: self.now,
            target: self.target,
            has_target: self.has_target,
            armed: self.armed,
        }
    }
}

impl AlarmState {
    /// An unset alarm whose counter reads `now`.
    pub fn new(now: u32) -> (r: AlarmState)
        ensures
            r@ == AlarmView::initial(now),
    {
        AlarmState { now, target: 0, has_target: false, armed: false }
    }

    /// The last counter value observed.
    pub fn now(&self) -> (r: u32)
        ensures
            r == self@.now,
    {
        self.now
    }

    /// The last target set.
    pub fn target(&self) -> (r: u32)
        ensures
            r == self@.target,
    {
        self.target
    }

    /// Whether a target was ever set.
    pub fn has_target(&self) -> (r: bool)
        ensures
            r == self@.has_target,
    {
        self.has_target
    }

    /// Whether a notification is pending.
    pub fn is_armed(&self) -> (r: bool)
        ensures
            r == self@.armed,
    {
        self.armed
    }

    /// Arms the alarm at the absolute value `tics`.
    pub fn set(&mut self, tics: u32)
        ensures
            final(self)@ == old(self)@.set(tics),
    {
        self.target = tics;
        self.has_target = true;
        self.armed = true;
    }

    /// Arms the alarm again at its last target; fails when none was set.
    pub fn enable(&mut self) -> (r: ReturnCode)
        ensures
            final(self)@ == old(self)@.enable(),
            r == (if old(self)@.has_target { ReturnCode::SUCCESS } else { ReturnCode::EINVAL }),
    {
        if self.has_target {
            self.armed = true;
            ReturnCode::SUCCESS
        } else {
            ReturnCode::EINVAL
        }
    }

    /// Disarms the alarm, keeping its target.
    pub fn disable(&mut self)
        ensures
            final(self)@ == old(self)@.disable(),
            !old(self)@.armed ==> *final(self) == *old(self),
    {
        self.armed = false;
    }

    /// Observes the counter at `now`; returns whether the alarm fired, in
    /// which case it is disarmed.
    pub fn tick(&mut self, now: u32) -> (fired: bool)
        ensures
            fired == old(self)@.fires_at(now),
            final(self)@ == old(self)@.tick(now),
    {
        let fired = self.armed && is_due(now, self.target);
        self.now = now;
        if fired {
            self.armed = false;
        }
        fired
    }
}

/// An `Alarm` driven by the counter values that its servicing context
/// passes to `tick`; it notifies its registered client on each firing.
pub struct SoftAlarm<F: Frequency, C: AlarmClient + 'static> {
    rate: core::marker::PhantomData<F>,
    state: AlarmState,
    client: Option<&'static C>,
}

impl<F: Frequency, C: AlarmClient + 'static> SoftAlarm<F, C> {
    /// The abstract state of the alarm.
    pub closed spec fn state(&self) -> AlarmView {
        self.state@
    }

    /// An unset alarm with no client, whose counter reads `now`.
    pub fn new(now: u32) -> (r: SoftAlarm<F, C>)
        ensures
            r.state() == AlarmView::initial(now),
            r.client() == None::<&'static C>,
    {
        SoftAlarm { rate: core::marker::PhantomData, state: AlarmState::new(now), client: None }
    }

    /// Observes the counter at `now`. When the alarm fires it is disarmed
    /// and the registered client, if any, is notified once.
    pub fn tick(&mut self, now: u32) -> (fired: bool)
        ensures
            fired == old(self).state().fires_at(now),
            final(self).state() == old(self).state().tick(now),
            final(self).client() == old(self).client(),
    {
        let fired = self.state.tick(now);
        if fired {
            match self.client {
                Some(c) => c.fired(),
                None => {},
            }
        }
        fired
    }
}

impl<F: Frequency, C: AlarmClient + 'static> Time for SoftAlarm<F, C> {
    type Frequency = F;

    open spec fn armed(&self) -> bool {
        self.state().armed
    }

    fn disable(&mut self)
        ensures
            final(self).state() == old(self).state().disable(),
            final(self).client() == old(self).client(),
    {
        self.state.disable();
    }

    fn is_armed(&self) -> (r: bool) {
        self.state.is_armed()
    }

    fn now(&self) -> (r: u32)
        ensures
            r == self.state().now,
    {
        self.state.now()
    }
}

impl<F: Frequency, C: AlarmClient + 'static> Alarm for SoftAlarm<F, C> {
    type Client = C;

    open spec fn alarm(&self) -> u32 {
        self.state().target
    }

    open spec fn has_alarm(&self) -> bool {
        self.state().has_target
    }

    closed spec fn client(&self) -> Option<&'static C> {
        self.client
    }

    fn set_alarm(&mut self, tics: u32)
        ensures
            final(self).state() == old(self).state().set(tics),
    {
        self.state.set(tics);
    }

    fn get_alarm(&self) -> (r: u32) {
        self.state.target()
    }

    fn set_client(&mut self, client: &'static C)
        ensures
            final(self).state() == old(self).state(),
    {
        self.client = Some(client);
    }

    fn is_enabled(&self) -> (r: bool) {
        self.state.is_armed()
    }

    fn enable(&mut self) -> (r: ReturnCode)
        ensures
            final(self).state() == old(self).state().enable(),
    {
        self.state.enable()
    }

    fn disable_alarm(&mut self) -> (r: ReturnCode)
        ensures
            final(self).state() == old(self).state().disable(),
    {
        self.state.disable();
        ReturnCode::SUCCESS
    }
}

/// The state after observing the counter at `v.now + 1`, `v.now + 2`, ...,
/// `v.now + n`, one tic at a time.
pub open spec fn sweep(v: AlarmView, n: nat) -> AlarmView
    decreases n,
{
    if n == 0 {
        v
    } else {
        sweep(v, (n - 1) as nat).tick(wrap(v.now + n))
    }
}

/// How many times the alarm fires during `sweep(v, n)`.
pub open spec fn sweep_fires(v: AlarmView, n: nat) -> nat
    decreases n,
{
    if n == 0 {
        0
    } else {
        sweep_fires(v, (n - 1) as nat) + if sweep(v, (n - 1) as nat).fires_at(wrap(v.now + n)) {
            1nat
        } else {
            0nat
        }
    }
}

/// After `set_alarm(tics)`, the target reads `tics` whatever the counter
/// does afterwards, until the alarm is set again.
pub proof fn lemma_target_kept(v: AlarmView, tics: u32, n: nat)
    ensures
        v.set(tics).target == tics,
        sweep(v.set(tics), n).target == tics,
    decreases n,
{
    if n > 0 {
        lemma_target_kept(v, tics, (n - 1) as nat);
    }
}

/// Disabling an alarm that is not armed changes nothing, and disabling
/// twice is the same as disabling once.
pub proof fn lemma_disable_idempotent(v: AlarmView)
    ensures
        !v.armed ==> v.disable() == v,
        v.disable().disable() == v.disable(),
{
}

/// An alarm armed at a target that the counter has not yet reached fires
/// exactly once while the counter walks forward one tic at a time, however
/// far (the whole tic range and beyond). It fires at the step where the
/// counter equals the target, wherever on the range that is, across the
/// wrap to zero included.
pub proof fn lemma_fires_once_per_sweep(v: AlarmView, n: nat)
    requires
        v.armed,
        !due(v.now, v.target),
    ensures
        sweep_fires(v, n) == (if n >= distance(v.now, v.target) { 1nat } else { 0nat }),
        wrap(v.now + distance(v.now, v.target)) == v.target,
        n >= distance(v.now, v.target) ==> !sweep(v, n).armed,
    decreases n,
{
    let d = distance(v.now, v.target) as int;
    lemma_approach(v.now, v.target, d);
    if n > 0 {
        let k = n as int;
        lemma_fires_once_per_sweep(v, (n - 1) as nat);
        if k <= d {
            lemma_sweep_before_target(v, (n - 1) as nat);
            lemma_approach(v.now, v.target, k);
        }
    }
}

/// Before the counter reaches the target, the sweep only moves the counter.
proof fn lemma_sweep_before_target(v: AlarmView, n: nat)
    requires
        v.armed,
        !due(v.now, v.target),
        n < distance(v.now, v.target),
    ensures
        sweep(v, n) == (AlarmView { now: wrap(v.now + n), ..v }),
    decreases n,
{
    lemma_approach(v.now, v.target, n as int);
    if n > 0 {
        lemma_sweep_before_target(v, (n - 1) as nat);
    } else {
        crate::ticks::lemma_wrap_near(v.now as int);
    }
}

} // verus!
