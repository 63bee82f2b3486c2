//! A software free-running counter that can be started and stopped.
use vstd::prelude::*;
use crate::frequency::Frequency;
use crate::return_code::ReturnCode;
use crate::ticks::{tics_after, wrap};
use crate::time::{Counter, Time};

verus! {

/// The abstract state of a counter.
pub struct CounterView {
    /// The current tic count.
    pub now: u32,
    /// Whether the counter advances.
    pub running: bool,
    /// Whether another owner holds the counter running, so that it cannot
    /// be stopped.
    pub held: bool,
}

/// A counter that advances by the tics its servicing context reports while
/// it runs. A counter shared with another owner is held: while it runs it
/// refuses `stop` with `EBUSY` until it is released.
pub struct SoftCounter<F: Frequency> {
    rate: core::marker::PhantomData<F>,
    now: u32,
    running: bool,
    held: bool,
}

impl<F: Frequency> View for SoftCounter<F> {
    type V = CounterView;

    closed spec fn view(&self) -> CounterView {
        CounterView { now: self.now, running: self.running, held: self.held }
    }
}

impl<F: Frequency> SoftCounter<F> {
    /// A stopped counter at `now`.
    pub fn new(now: u32) -> (r: SoftCounter<F>)
        ensures
            r@ == (CounterView { now, running: false, held: false }),
    {
        SoftCounter { rate: core::marker::PhantomData, now, running: false, held: false }
    }

    /// A counter at `now` that another owner has started and holds running.
    pub fn shared(now: u32) -> (r: SoftCounter<F>)
        ensures
            r@ == (CounterView { now, running: true, held: true }),
    {
        SoftCounter { rate: core::marker::PhantomData, now, running: true, held: true }
    }

    /// The other owner lets the counter go: it may then be stopped.
    pub fn release(&mut self)
        ensures
            final(self)@ == (CounterView { held: false, ..old(self)@ }),
    {
        self.held = false;
    }

    /// Reports that `tics` tics of the clock have elapsed: a running
    /// counter advances by them, wrapping past the maximum; a stopped one
    /// keeps its value.
    pub fn advance(&mut self, tics: u32)
        ensures
            final(self)@ == (CounterView {
                now: if old(self)@.running { wrap(old(self)@.now + tics) } else { old(self)@.now },
                ..old(self)@
            }),
    {
        if self.running {
            self.now = tics_after(self.now, tics);
        }
    }
}

impl<F: Frequency> Time for SoftCounter<F> {
    type Frequency = F;

    /// A bare counter never has a notification pending.
    open spec fn armed(&self) -> bool {
        false
    }

    fn disable(&mut self)
        ensures
            *final(self) == *old(self),
    {
    }

    fn is_armed(&self) -> (r: bool) {
        false
    }

    fn now(&self) -> (r: u32)
        ensures
            r == self@.now,
    {
        self.now
    }
}

impl<F: Frequency> Counter for SoftCounter<F> {
    open spec fn running(&self) -> bool {
        self@.running
    }

    fn start(&mut self) -> (r: ReturnCode)
        ensures
            r == ReturnCode::SUCCESS,
            final(self)@ == (CounterView { running: true, ..old(self)@ }),
    {
        self.running = true;
        ReturnCode::SUCCESS
    }

    fn stop(&mut self) -> (r: ReturnCode)
        ensures
            old(self)@.running && old(self)@.held ==> r == ReturnCode::EBUSY
                && *final(self) == *old(self),
            !(old(self)@.running && old(self)@.held) ==> r == ReturnCode::SUCCESS
                && final(self)@ == (CounterView { running: false, ..old(self)@ }),
    {
        if self.running && self.held {
            ReturnCode::EBUSY
        } else {
            self.running = false;
            ReturnCode::SUCCESS
        }
    }

    fn is_running(&self) -> (r: bool) {
        self.running
    }
}

} // verus!
