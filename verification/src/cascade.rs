//! The assembled timer cascade: one validated object for the whole chain.
//!
//! The dependency between the timers exists in hardware only as a shared
//! trigger-line number, not as a language-level reference. Assembling the
//! cascade here checks every binding against the routing table, so a
//! miswiring is a construction-time error, and the wiring-order contract —
//! trigger generation armed and trigger sources bound before anything starts
//! — is discharged once, by construction.

use vstd::prelude::*;

use crate::sampling::{SamplingClockGenerator, ShadowSamplingClock};
use crate::timers::{
    spec_trigger_line, FreeRunningCounter, ReferenceClockSource, SlaveMode,
};
use crate::timestamp::{CaptureChannel, InputCaptureTimer};

verus! {

/// The full chain: the sampling-clock generator (rate master), the shadow
/// clock slaved to it, and the capture timestamper whose channel latches on
/// the generator's trigger.
pub struct TimerCascade {
    pub generator: SamplingClockGenerator,
    pub shadow: ShadowSamplingClock,
    pub timestamper: InputCaptureTimer,
}

impl TimerCascade {
    /// All parts are well-formed.
    pub open spec fn wf(self) -> bool {
        self.generator.wf() && self.shadow.wf() && self.timestamper.wf()
    }

    /// The binding table of the chain, as held by the parts: the generator
    /// broadcasts on every overflow, and both consumers are bound to the
    /// routing-table line that carries the generator's trigger.
    pub open spec fn wired(self) -> bool {
        &&& self.generator.trigger_on_update
        &&& self.shadow.slave_mode == SlaveMode::Trigger
        &&& self.shadow.bound_source == spec_trigger_line(self.shadow.id, self.generator.id)
        &&& self.shadow.bound_source is Some
        &&& Some(self.timestamper.trigger_source) == spec_trigger_line(
            self.timestamper.timer.id,
            self.generator.id,
        )
    }

    /// Assemble and validate the cascade. Both consumers must be routable
    /// from the generator, the generator must not yet run (binding after
    /// start would give an undefined phase), and everything is wired here,
    /// before any part starts.
    pub fn new(
        generator: SamplingClockGenerator,
        shadow: ShadowSamplingClock,
        timer: FreeRunningCounter,
        capture_channel: CaptureChannel,
        clock_input: ReferenceClockSource,
    ) -> (c: Self)
        requires
            generator.wf(),
            shadow.wf(),
            timer.wf(),
            capture_channel.wf(),
            clock_input.wf(),
            !generator.running,
            !shadow.counting,
            spec_trigger_line(shadow.id, generator.id) is Some,
            spec_trigger_line(timer.id, generator.id) is Some,
        ensures
            c.wf(),
            c.wired(),
            c.generator.id == generator.id,
            c.generator.counter == generator.counter,
            c.generator.period == generator.period,
            c.generator.pending_period == generator.pending_period,
            !c.generator.running,
            c.shadow.id == shadow.id,
            c.shadow.counter == shadow.counter,
            c.shadow.period == shadow.period,
            !c.shadow.counting,
            c.timestamper.timer == timer,
            c.timestamper.reference == clock_input,
            c.timestamper.previous_capture == 0,
            c.timestamper.previous_diff == 0,
    {
        let mut generator = generator;
        let mut shadow = shadow;
        shadow.bind_to(&generator, SlaveMode::Trigger);
        let timestamper = InputCaptureTimer::new(
            timer,
            capture_channel,
            &mut generator,
            clock_input,
        );
        TimerCascade { generator, shadow, timestamper }
    }

    /// Start the chain: the generator begins free-running, its start edge
    /// releases the trigger-mode shadow clock from zero — phase-aligned with
    /// the generator — and the timestamper starts collecting.
    pub fn start(&mut self)
        requires
            old(self).wf(),
        ensures
            final(self).wf(),
            old(self).wired() ==> final(self).wired(),
            final(self).generator == (SamplingClockGenerator {
                running: true,
                ..old(self).generator
            }),
            old(self).wired() && !old(self).shadow.counting ==> final(self).shadow
                == (ShadowSamplingClock { counter: 0, counting: true, ..old(self).shadow }),
            final(self).timestamper.timer == (FreeRunningCounter {
                running: true,
                ..old(self).timestamper.timer
            }),
            final(self).timestamper.capture_channel == (CaptureChannel {
                enabled: true,
                ..old(self).timestamper.capture_channel
            }),
            final(self).timestamper.reference == (ReferenceClockSource {
                started: true,
                ..old(self).timestamper.reference
            }),
            final(self).timestamper.trigger_source == old(self).timestamper.trigger_source,
            final(self).timestamper.previous_capture == old(self).timestamper.previous_capture,
            final(self).timestamper.previous_diff == old(self).timestamper.previous_diff,
    {
        self.generator.start();
        self.shadow.on_master_start();
        self.timestamper.start();
    }

    /// One tick of the internal clock shared by the generator and the shadow
    /// clock. On a generator overflow with trigger generation armed, the
    /// trigger line fires and the timestamper's channel latches the capture
    /// counter. Returns whether that happened on this tick.
    pub fn tick_sampling(&mut self) -> (captured: bool)
        requires
            old(self).wf(),
        ensures
            final(self).wf(),
            old(self).wired() ==> final(self).wired(),
            final(self).generator == old(self).generator.spec_tick(),
            final(self).shadow == old(self).shadow.spec_tick(),
            captured == old(self).generator.spec_tick_triggers(),
            captured ==> final(self).timestamper == (InputCaptureTimer {
                capture_channel: old(self).timestamper.capture_channel.spec_latch(
                    old(self).timestamper.timer.counter,
                ),
                ..old(self).timestamper
            }),
            !captured ==> final(self).timestamper == old(self).timestamper,
    {
        let update = self.generator.tick();
        self.shadow.tick();
        let fired = update && self.generator.trigger_on_update;
        if fired {
            self.timestamper.on_update_trigger();
        }
        fired
    }
}

} // verus!
