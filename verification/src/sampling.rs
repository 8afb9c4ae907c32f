//! The sampling-clock generator and its shadow clock.
//!
//! The generator is the rate-master of the batch pipeline: a free-running
//! counter that overflows once per batch period and, when armed, broadcasts an
//! internal trigger event on every overflow. A period change staged at
//! runtime takes effect at the next reload boundary, never mid-cycle, so no
//! truncated partial period is ever produced.
//!
//! The shadow clock is a second counter placed in trigger slave mode: it only
//! begins counting when its bound master starts, and from then on advances in
//! lock-step, so the two stay phase-identical without any software-visible
//! synchronisation point.

use vstd::prelude::*;

use crate::timers::{spec_trigger_line, trigger_line, SlaveMode, TimerId, TriggerSource};

verus! {

/// Master rate generator: overflows every `period + 1` ticks and, once armed
/// with `trigger_on_update`, broadcasts a trigger on each overflow. A period
/// staged by `set_period` waits in `pending_period` until the next reload.
pub struct SamplingClockGenerator {
    pub id: TimerId,
    pub counter: u16,
    pub period: u16,
    pub pending_period: Option<u16>,
    pub trigger_on_update: bool,
    pub running: bool,
}

impl SamplingClockGenerator {
    /// The counter never stands above the active reload value.
    pub open spec fn wf(self) -> bool {
        self.counter <= self.period
    }

    /// State after one tick of the generator's clock: overflow reloads the
    /// counter and lets a staged period take effect; otherwise count up.
    pub open spec fn spec_tick(self) -> Self {
        if !self.running {
            self
        } else if self.counter == self.period {
            SamplingClockGenerator {
                counter: 0,
                period: match self.pending_period {
                    Some(p) => p,
                    None => self.period,
                },
                pending_period: None,
                ..self
            }
        } else {
            SamplingClockGenerator { counter: (self.counter + 1) as u16, ..self }
        }
    }

    /// Whether the next tick is an overflow (an update event).
    pub open spec fn spec_tick_overflows(self) -> bool {
        self.running && self.counter == self.period
    }

    /// State after `n` ticks.
    pub open spec fn spec_run(self, n: nat) -> Self
        decreases n,
    {
        if n == 0 {
            self
        } else {
            self.spec_run((n - 1) as nat).spec_tick()
        }
    }

    /// Number of update events fired during the first `n` ticks.
    pub open spec fn spec_updates(self, n: nat) -> nat
        decreases n,
    {
        if n == 0 {
            0
        } else {
            self.spec_updates((n - 1) as nat) + if self.spec_run(
                (n - 1) as nat,
            ).spec_tick_overflows() {
                1nat
            } else {
                0nat
            }
        }
    }

    /// A fresh generator: at zero, trigger generation unarmed, not running.
    pub fn new(id: TimerId, period: u16) -> (g: Self)
        ensures
            g.wf(),
            g.id == id,
            g.counter == 0,
            g.period == period,
            g.pending_period is None,
            !g.trigger_on_update,
            !g.running,
    {
        SamplingClockGenerator {
            id,
            counter: 0,
            period,
            pending_period: None,
            trigger_on_update: false,
            running: false,
        }
    }

    /// Stage a new reload value. It takes effect at the next reload boundary,
    /// not instantaneously, so the cycle in progress completes untruncated.
    pub fn set_period(&mut self, ticks: u16)
        ensures
            final(self).id == old(self).id,
            final(self).counter == old(self).counter,
            final(self).period == old(self).period,
            final(self).pending_period == Some(ticks),
            final(self).trigger_on_update == old(self).trigger_on_update,
            final(self).running == old(self).running,
    {
        self.pending_period = Some(ticks);
    }

    /// Arm the generator to broadcast an internal trigger event on every
    /// overflow; this is the signal the shadow clock and the capture channel
    /// rely on.
    pub fn generate_trigger_on_update(&mut self)
        ensures
            final(self).id == old(self).id,
            final(self).counter == old(self).counter,
            final(self).period == old(self).period,
            final(self).pending_period == old(self).pending_period,
            final(self).trigger_on_update,
            final(self).running == old(self).running,
    {
        self.trigger_on_update = true;
    }

    /// Begin free-running counting.
    pub fn start(&mut self)
        ensures
            final(self).id == old(self).id,
            final(self).counter == old(self).counter,
            final(self).period == old(self).period,
            final(self).pending_period == old(self).pending_period,
            final(self).trigger_on_update == old(self).trigger_on_update,
            final(self).running,
    {
        self.running = true;
    }

    /// One tick of the generator's clock. Returns whether this tick was an
    /// overflow, i.e. whether an update event fired.
    pub fn tick(&mut self) -> (update: bool)
        requires
            old(self).wf(),
        ensures
            final(self).wf(),
            *final(self) == old(self).spec_tick(),
            update == old(self).spec_tick_overflows(),
    {
        if !self.running {
            return false;
        }
        if self.counter == self.period {
            self.counter = 0;
            if let Some(p) = self.pending_period {
                self.period = p;
            }
            self.pending_period = None;
            true
        } else {
            self.counter = self.counter + 1;
            false
        }
    }

    /// Whether an update event broadcast a trigger on this tick.
    pub open spec fn spec_tick_triggers(self) -> bool {
        self.trigger_on_update && self.spec_tick_overflows()
    }
}

/// While a running generator stays inside one cycle, ticks only count up:
/// after `n` ticks (`n` at most the distance to the reload point) the counter
/// has moved by exactly `n` and no update event has fired.
pub proof fn lemma_no_update_before_reload(g: SamplingClockGenerator, n: nat)
    requires
        g.wf(),
        g.running,
        n <= g.period - g.counter,
    ensures
        g.spec_run(n) == (SamplingClockGenerator { counter: (g.counter + n) as u16, ..g }),
        g.spec_updates(n) == 0,
    decreases n,
{
    if n > 0 {
        lemma_no_update_before_reload(g, (n - 1) as nat);
    }
}

/// From a just-reloaded state, the next update event fires exactly
/// `period + 1` ticks later and not before, and returns the generator to the
/// same just-reloaded state: consecutive overflow-triggered captures are
/// exactly one full period apart.
pub proof fn lemma_update_cadence(g: SamplingClockGenerator)
    requires
        g.wf(),
        g.running,
        g.counter == 0,
        g.pending_period is None,
    ensures
        forall|m: nat| m <= g.period ==> g.spec_updates(m) == 0,
        g.spec_updates((g.period + 1) as nat) == 1,
        g.spec_run((g.period + 1) as nat) == g,
{
    assert forall|m: nat| m <= g.period implies g.spec_updates(m) == 0 by {
        lemma_no_update_before_reload(g, m);
    }
    lemma_no_update_before_reload(g, g.period as nat);
}

/// A staged period takes effect at the end of the cycle in progress: the
/// overflow that closes the current cycle is the only update event until
/// then, and it loads the staged value with the counter back at zero. From
/// that state `lemma_update_cadence` gives the new cadence of `p + 1` ticks.
pub proof fn lemma_set_period_takes_effect(g: SamplingClockGenerator, p: u16)
    requires
        g.wf(),
        g.running,
        g.pending_period == Some(p),
    ensures
        ({
            let k = (g.period - g.counter + 1) as nat;
            &&& g.spec_run(k) == (SamplingClockGenerator {
                counter: 0,
                period: p,
                pending_period: None,
                ..g
            })
            &&& g.spec_updates(k) == 1
            &&& forall|m: nat| m <= g.period - g.counter ==> g.spec_updates(m) == 0
        }),
{
    assert forall|m: nat| m <= g.period - g.counter implies g.spec_updates(m) == 0 by {
        lemma_no_update_before_reload(g, m);
    }
    lemma_no_update_before_reload(g, (g.period - g.counter) as nat);
}

/// Second counter held in lock-step with the generator: in trigger slave mode
/// it does not run independently but begins counting when its bound master
/// starts, already phase-aligned because both count from the same edge.
pub struct ShadowSamplingClock {
    pub id: TimerId,
    pub counter: u16,
    pub period: u16,
    pub slave_mode: SlaveMode,
    pub bound_source: Option<TriggerSource>,
    pub counting: bool,
}

impl ShadowSamplingClock {
    /// The counter never stands above the reload value.
    pub open spec fn wf(self) -> bool {
        self.counter <= self.period
    }

    /// State after one tick of the shared clock: a counting shadow wraps at
    /// its reload value; one not yet started by its master stands still.
    pub open spec fn spec_tick(self) -> Self {
        if !self.counting {
            self
        } else if self.counter == self.period {
            ShadowSamplingClock { counter: 0, ..self }
        } else {
            ShadowSamplingClock { counter: (self.counter + 1) as u16, ..self }
        }
    }

    /// State after `n` ticks of the shared clock.
    pub open spec fn spec_run(self, n: nat) -> Self
        decreases n,
    {
        if n == 0 {
            self
        } else {
            self.spec_run((n - 1) as nat).spec_tick()
        }
    }

    /// A fresh shadow clock: unbound, free-run disabled, not counting.
    pub fn new(id: TimerId, period: u16) -> (s: Self)
        ensures
            s.wf(),
            s.id == id,
            s.counter == 0,
            s.period == period,
            s.slave_mode == SlaveMode::Disabled,
            s.bound_source is None,
            !s.counting,
    {
        ShadowSamplingClock {
            id,
            counter: 0,
            period,
            slave_mode: SlaveMode::Disabled,
            bound_source: None,
            counting: false,
        }
    }

    /// Bind this clock to the generator's trigger output, in the given slave
    /// mode. The routing table must hold a line from the generator to this
    /// timer, and binding must happen before the generator starts; binding
    /// after start would give an undefined phase offset.
    pub fn bind_to(&mut self, generator: &SamplingClockGenerator, mode: SlaveMode)
        requires
            !generator.running,
            !old(self).counting,
            spec_trigger_line(old(self).id, generator.id) is Some,
        ensures
            final(self).id == old(self).id,
            final(self).counter == old(self).counter,
            final(self).period == old(self).period,
            final(self).slave_mode == mode,
            final(self).bound_source == spec_trigger_line(old(self).id, generator.id),
            !final(self).counting,
    {
        self.bound_source = trigger_line(self.id, generator.id);
        self.slave_mode = mode;
    }

    /// The master behind the bound trigger line has started: a trigger-mode
    /// slave begins counting from zero on that same edge.
    pub fn on_master_start(&mut self)
        ensures
            final(self).id == old(self).id,
            final(self).period == old(self).period,
            final(self).slave_mode == old(self).slave_mode,
            final(self).bound_source == old(self).bound_source,
            old(self).slave_mode == SlaveMode::Trigger && !old(self).counting
                ==> final(self).counting && final(self).counter == 0,
            !(old(self).slave_mode == SlaveMode::Trigger && !old(self).counting)
                ==> final(self).counting == old(self).counting && final(self).counter == old(
                self,
            ).counter,
    {
        if matches!(self.slave_mode, SlaveMode::Trigger) && !self.counting {
            self.counting = true;
            self.counter = 0;
        }
    }

    /// One tick of the shared clock.
    pub fn tick(&mut self)
        requires
            old(self).wf(),
        ensures
            final(self).wf(),
            *final(self) == old(self).spec_tick(),
    {
        if !self.counting {
            return ;
        }
        if self.counter == self.period {
            self.counter = 0;
        } else {
            self.counter = self.counter + 1;
        }
    }
}

/// Phase lock: once the shadow clock counts, shares the generator's period,
/// and agrees with its counter, the two counters agree after every further
/// tick of the shared clock — the phase of the two data paths is identical.
pub proof fn lemma_phase_lock(g: SamplingClockGenerator, s: ShadowSamplingClock, n: nat)
    requires
        g.wf(),
        s.wf(),
        g.running,
        s.counting,
        g.pending_period is None,
        s.period == g.period,
        s.counter == g.counter,
    ensures
        s.spec_run(n).counter == g.spec_run(n).counter,
        s.spec_run(n).period == g.spec_run(n).period,
    decreases n,
{
    if n > 0 {
        lemma_phase_lock(g, s, (n - 1) as nat);
        lemma_run_stays_wf(g, (n - 1) as nat);
        lemma_shadow_run_stays_wf(s, (n - 1) as nat);
    }
}

/// Ticking preserves the generator's well-formedness, its run state, and an
/// empty staging slot.
pub proof fn lemma_run_stays_wf(g: SamplingClockGenerator, n: nat)
    requires
        g.wf(),
        g.running,
        g.pending_period is None,
    ensures
        g.spec_run(n).wf(),
        g.spec_run(n).running,
        g.spec_run(n).pending_period is None,
        g.spec_run(n).period == g.period,
    decreases n,
{
    if n > 0 {
        lemma_run_stays_wf(g, (n - 1) as nat);
    }
}

/// Ticking preserves the shadow clock's well-formedness and its count state.
pub proof fn lemma_shadow_run_stays_wf(s: ShadowSamplingClock, n: nat)
    requires
        s.wf(),
        s.counting,
    ensures
        s.spec_run(n).wf(),
        s.spec_run(n).counting,
        s.spec_run(n).period == s.period,
    decreases n,
{
    if n > 0 {
        lemma_shadow_run_stays_wf(s, (n - 1) as nat);
    }
}

} // verus!
