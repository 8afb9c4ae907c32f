//! Timer peripherals as data: counters, prescalers and trigger wiring.
//!
//! Each physical counter is represented by a handle that owns its register
//! state: reload value (period), prescaler, trigger-source selection and
//! run state. The internal trigger lines that chain timers together are
//! represented by an explicit routing table (`spec_trigger_line`), so that a
//! miswired cascade is a construction-time error instead of a silent hardware
//! fault.

use vstd::prelude::*;

verus! {

/// Division ratio applied to a clock or event stream before it is consumed.
#[derive(Clone, Copy, PartialEq, Eq, Structural, Debug)]
pub enum Prescaler {
    Div1,
    Div2,
    Div4,
    Div8,
}

impl Prescaler {
    /// The division ratio as a number.
    pub open spec fn spec_divisor(self) -> nat {
        match self {
            Prescaler::Div1 => 1,
            Prescaler::Div2 => 2,
            Prescaler::Div4 => 4,
            Prescaler::Div8 => 8,
        }
    }

    /// Executable division ratio.
    pub fn divisor(&self) -> (d: u32)
        ensures
            d == self.spec_divisor(),
            1 <= d <= 8,
    {
        match self {
            Prescaler::Div1 => 1,
            Prescaler::Div2 => 2,
            Prescaler::Div4 => 4,
            Prescaler::Div8 => 8,
        }
    }
}

/// An internal trigger input line, as seen by the timer that consumes it.
#[derive(Clone, Copy, PartialEq, Eq, Structural, Debug)]
pub enum TriggerSource {
    Trigger0,
    Trigger1,
    Trigger2,
    Trigger3,
}

/// Whether a timer free-runs or is gated by an upstream trigger line.
#[derive(Clone, Copy, PartialEq, Eq, Structural, Debug)]
pub enum SlaveMode {
    Disabled,
    Trigger,
}

/// Identity of a physical counter peripheral. Exactly one handle owns each.
#[derive(Clone, Copy, PartialEq, Eq, Structural, Debug)]
pub enum TimerId {
    Tim1,
    Tim2,
    Tim3,
    Tim8,
}

/// The directed trigger-routing table: which trigger input of `consumer`
/// is wired to the trigger output of `producer`. Only the rows that this
/// cascade's timers can use are tabulated; every other pairing is unroutable
/// and yields `None`, so that binding it is rejected at construction.
pub open spec fn spec_trigger_line(consumer: TimerId, producer: TimerId) -> Option<TriggerSource> {
    match (consumer, producer) {
        (TimerId::Tim8, TimerId::Tim1) => Some(TriggerSource::Trigger0),
        (TimerId::Tim3, TimerId::Tim1) => Some(TriggerSource::Trigger0),
        (TimerId::Tim3, TimerId::Tim2) => Some(TriggerSource::Trigger1),
        _ => None,
    }
}

/// Executable lookup in the trigger-routing table.
pub fn trigger_line(consumer: TimerId, producer: TimerId) -> (line: Option<TriggerSource>)
    ensures
        line == spec_trigger_line(consumer, producer),
{
    match (consumer, producer) {
        (TimerId::Tim8, TimerId::Tim1) => Some(TriggerSource::Trigger0),
        (TimerId::Tim3, TimerId::Tim1) => Some(TriggerSource::Trigger0),
        (TimerId::Tim3, TimerId::Tim2) => Some(TriggerSource::Trigger1),
        _ => None,
    }
}

/// The external reference clock after its fixed division ratio: edges arrive
/// from the input pin, and every `divisor`-th edge becomes one pulse of the
/// counter clock. `pending_edges` counts the edges accumulated since the last
/// pulse.
pub struct ReferenceClockSource {
    pub prescaler: Prescaler,
    pub pending_edges: u32,
    pub started: bool,
}

impl ReferenceClockSource {
    /// The edge accumulator never reaches a full division period.
    pub open spec fn wf(self) -> bool {
        self.pending_edges < self.prescaler.spec_divisor()
    }

    /// A fresh source: undivided, no pending edges, not yet started.
    pub fn new() -> (s: Self)
        ensures
            s.wf(),
            s.prescaler == Prescaler::Div1,
            s.pending_edges == 0,
            !s.started,
    {
        ReferenceClockSource { prescaler: Prescaler::Div1, pending_edges: 0, started: false }
    }

    /// Set the division ratio. Reconfiguring a running source would produce
    /// undefined timing, so it is allowed only before `start`.
    pub fn configure(&mut self, prescaler: Prescaler)
        requires
            !old(self).started,
        ensures
            final(self).wf(),
            final(self).prescaler == prescaler,
            final(self).pending_edges == 0,
            !final(self).started,
    {
        self.prescaler = prescaler;
        self.pending_edges = 0;
    }

    /// Begin passing divided pulses downstream.
    pub fn start(&mut self)
        ensures
            final(self).prescaler == old(self).prescaler,
            final(self).pending_edges == old(self).pending_edges,
            final(self).started,
    {
        self.started = true;
    }

    /// Feed `edges` raw reference edges through the divider and return the
    /// number of counter-clock pulses they produce.
    pub fn take_pulses(&mut self, edges: u32) -> (pulses: u32)
        requires
            old(self).wf(),
            old(self).started,
            old(self).pending_edges + edges <= u32::MAX,
        ensures
            final(self).wf(),
            final(self).prescaler == old(self).prescaler,
            final(self).started,
            pulses == (old(self).pending_edges + edges) as int / old(
                self,
            ).prescaler.spec_divisor() as int,
            final(self).pending_edges == (old(self).pending_edges + edges) as int % old(
                self,
            ).prescaler.spec_divisor() as int,
    {
        let div: u32 = self.prescaler.divisor();
        let total: u32 = self.pending_edges + edges;
        self.pending_edges = total % div;
        total / div
    }
}

/// A free-running 16-bit counter: counts from 0 up to its reload value
/// (`period`) and wraps back to 0 on the pulse after that, so one full cycle
/// is `period + 1` pulses.
pub struct FreeRunningCounter {
    pub id: TimerId,
    pub counter: u16,
    pub period: u16,
    pub running: bool,
}

impl FreeRunningCounter {
    /// The counter never stands above its reload value.
    pub open spec fn wf(self) -> bool {
        self.counter <= self.period
    }

    /// The counter value after `pulses` further clock pulses.
    pub open spec fn spec_counter_after(self, pulses: int) -> u16 {
        ((self.counter + pulses) % (self.period + 1)) as u16
    }

    /// A fresh counter: at zero, not running.
    pub fn new(id: TimerId, period: u16) -> (t: Self)
        ensures
            t.wf(),
            t.id == id,
            t.counter == 0,
            t.period == period,
            !t.running,
    {
        FreeRunningCounter { id, counter: 0, period, running: false }
    }

    /// Begin free-running counting.
    pub fn start(&mut self)
        ensures
            final(self).id == old(self).id,
            final(self).counter == old(self).counter,
            final(self).period == old(self).period,
            final(self).running,
    {
        self.running = true;
    }

    /// Change the reload value at runtime. The new rollover point must not
    /// lie below the current count, so that the counter keeps a single,
    /// well-defined wrap point.
    pub fn set_period_ticks(&mut self, period: u16)
        requires
            old(self).counter <= period,
        ensures
            final(self).wf(),
            final(self).id == old(self).id,
            final(self).counter == old(self).counter,
            final(self).period == period,
            final(self).running == old(self).running,
    {
        self.period = period;
    }

    /// Advance the counter by `pulses` clock pulses, wrapping at the reload
    /// value.
    pub fn advance(&mut self, pulses: u32)
        requires
            old(self).wf(),
            old(self).running,
        ensures
            final(self).wf(),
            final(self).id == old(self).id,
            final(self).period == old(self).period,
            final(self).running,
            final(self).counter == old(self).spec_counter_after(pulses as int),
    {
        let cycle: u32 = self.period as u32 + 1;
        let step: u32 = pulses % cycle;
        let next: u32 = (self.counter as u32 + step) % cycle;
        proof {
            let m = self.period as int + 1;
            vstd::arithmetic::div_mod::lemma_small_mod(self.counter as nat, m as nat);
            vstd::arithmetic::div_mod::lemma_add_mod_noop(
                self.counter as int,
                pulses as int,
                m,
            );
        }
        self.counter = next as u16;
    }
}

} // verus!
