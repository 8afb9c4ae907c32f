//! The capture timestamper: raw capture snapshots to batch-duration deltas.
//!
//! A free-running 16-bit counter, clocked from the divided external reference,
//! carries one input-capture channel. Whenever the sampling-clock generator's
//! trigger line fires, the channel latches the counter into a depth-1 buffer;
//! a latch over an unread value raises the over-capture flag. Polling
//! `latest_timestamp_diff` drains the buffer and returns the wraparound-safe
//! delta between the two most recent captures — the duration of the most
//! recently completed batch in reference-clock ticks.
//!
//! Staleness (no capture since the last poll) is expected steady-state
//! behaviour, not an error: the last known delta is repeated. Only the loss
//! of a capture to a double overwrite is an anomaly, and even then the
//! subsystem substitutes a sentinel and continues; it never blocks and never
//! reports a failure to its caller.

use vstd::prelude::*;

use crate::sampling::SamplingClockGenerator;
use crate::timers::{
    spec_trigger_line, trigger_line, FreeRunningCounter, Prescaler, ReferenceClockSource,
    TriggerSource,
};
use crate::wrap::{wrap_diff, wrapping_delta};

verus! {

/// Delta substituted when a capture was overwritten before it could be read.
/// Across the history of this design the value has been both `0` and `1`;
/// which is semantically right is unresolved (the path has apparently never
/// been taken on real hardware), so it is exposed as a named constant rather
/// than buried in the polling logic.
pub const OVERCAPTURE_SENTINEL: u16 = 1;

/// One input-capture channel of a timer: a depth-1 hardware buffer fed by the
/// timer's selected trigger input, with its own prescaler on the capture-event
/// rate. A new capture over an unread one overwrites it and raises the
/// over-capture flag.
pub struct CaptureChannel {
    pub latched: Option<u16>,
    pub overcapture: bool,
    pub enabled: bool,
    pub prescaler: Prescaler,
    pub skipped: u32,
}

impl CaptureChannel {
    /// The prescaler skip count stays inside one division period.
    pub open spec fn wf(self) -> bool {
        self.skipped < self.prescaler.spec_divisor()
    }

    /// State after one capture event carrying snapshot `value`: a disabled
    /// channel ignores it; an enabled one either skips it (prescaler) or
    /// latches it, flagging over-capture if an unread value is overwritten.
    pub open spec fn spec_latch(self, value: u16) -> Self {
        if !self.enabled {
            self
        } else if self.skipped + 1 < self.prescaler.spec_divisor() {
            CaptureChannel { skipped: (self.skipped + 1) as u32, ..self }
        } else {
            CaptureChannel {
                latched: Some(value),
                overcapture: self.overcapture || self.latched is Some,
                skipped: 0,
                ..self
            }
        }
    }

    /// What reading the channel reports: the over-capture flag turns the
    /// buffer content into the error side, otherwise the buffer content (or
    /// its absence) is reported as is.
    pub open spec fn spec_read(self) -> Result<Option<u16>, Option<u16>> {
        if self.overcapture {
            Err(self.latched)
        } else {
            Ok(self.latched)
        }
    }

    /// State after a read: the buffer is drained and the flag cleared.
    pub open spec fn spec_after_read(self) -> Self {
        CaptureChannel { latched: None, overcapture: false, ..self }
    }

    /// A fresh channel: empty, disabled, no event skipped yet.
    pub fn new() -> (c: Self)
        ensures
            c.wf(),
            c.latched is None,
            !c.overcapture,
            !c.enabled,
            c.prescaler == Prescaler::Div1,
            c.skipped == 0,
    {
        CaptureChannel {
            latched: None,
            overcapture: false,
            enabled: false,
            prescaler: Prescaler::Div1,
            skipped: 0,
        }
    }

    /// Set the capture-event prescaler: only every `divisor`-th trigger
    /// occurrence is latched.
    pub fn configure_prescaler(&mut self, prescaler: Prescaler)
        ensures
            final(self).wf(),
            final(self).latched == old(self).latched,
            final(self).overcapture == old(self).overcapture,
            final(self).enabled == old(self).enabled,
            final(self).prescaler == prescaler,
            final(self).skipped == 0,
    {
        self.prescaler = prescaler;
        self.skipped = 0;
    }

    /// Arm the channel: from now on trigger occurrences latch the counter.
    pub fn enable(&mut self)
        ensures
            final(self).latched == old(self).latched,
            final(self).overcapture == old(self).overcapture,
            final(self).enabled,
            final(self).prescaler == old(self).prescaler,
            final(self).skipped == old(self).skipped,
    {
        self.enabled = true;
    }

    /// One capture event delivering the counter snapshot `value`.
    pub fn latch(&mut self, value: u16)
        requires
            old(self).wf(),
        ensures
            final(self).wf(),
            *final(self) == old(self).spec_latch(value),
    {
        if !self.enabled {
            return ;
        }
        let div: u32 = self.prescaler.divisor();
        if self.skipped + 1 < div {
            self.skipped = self.skipped + 1;
        } else {
            if self.latched.is_some() {
                self.overcapture = true;
            }
            self.latched = Some(value);
            self.skipped = 0;
        }
    }

    /// Read and drain the capture buffer. `Ok(Some(v))` is a fresh snapshot;
    /// `Ok(None)` means no capture since the last read; the `Err` side
    /// reports an over-capture, with the surviving (already overwritten)
    /// value if one was readable.
    pub fn latest_capture(&mut self) -> (r: Result<Option<u16>, Option<u16>>)
        ensures
            r == old(self).spec_read(),
            *final(self) == old(self).spec_after_read(),
    {
        let value = self.latched;
        let flagged = self.overcapture;
        self.latched = None;
        self.overcapture = false;
        if flagged {
            Err(value)
        } else {
            Ok(value)
        }
    }
}

/// The capture timestamper. It owns the free-running counter, the counter's
/// clock source (the divided external reference), the capture channel bound
/// to the sampling-clock generator's trigger line, and the two-value
/// timestamp state: the last snapshot read and the last delta reported.
pub struct InputCaptureTimer {
    pub timer: FreeRunningCounter,
    pub capture_channel: CaptureChannel,
    pub reference: ReferenceClockSource,
    pub trigger_source: TriggerSource,
    pub previous_capture: u16,
    pub previous_diff: u16,
}

impl InputCaptureTimer {
    /// All owned parts are well-formed.
    pub open spec fn wf(self) -> bool {
        self.timer.wf() && self.capture_channel.wf() && self.reference.wf()
    }

    /// The delta a poll reports, by capture read result: a fresh snapshot
    /// yields the wraparound-safe difference from the previous snapshot; no
    /// new value repeats the last delta; an over-capture with a readable
    /// value yields the sentinel; an over-capture with nothing readable
    /// repeats the last delta.
    pub open spec fn spec_poll_output(self) -> u16 {
        match self.capture_channel.spec_read() {
            Ok(Some(value)) => wrap_diff(value, self.previous_capture),
            Ok(None) => self.previous_diff,
            Err(Some(_)) => OVERCAPTURE_SENTINEL,
            Err(None) => self.previous_diff,
        }
    }

    /// The state a poll leaves behind: the channel drained, the previous
    /// snapshot advanced only on a fresh capture, and the reported delta
    /// remembered for the next stale poll.
    pub open spec fn spec_poll_state(self) -> Self {
        InputCaptureTimer {
            capture_channel: self.capture_channel.spec_after_read(),
            previous_capture: match self.capture_channel.spec_read() {
                Ok(Some(value)) => value,
                _ => self.previous_capture,
            },
            previous_diff: self.spec_poll_output(),
            ..self
        }
    }

    /// Wire up the timestamper. The sampling-clock generator is armed to
    /// broadcast a trigger on every overflow, and the counter's trigger
    /// input is bound to the routing-table line that carries it; a pairing
    /// the table cannot route is rejected here, at construction. The capture
    /// channel is configured undivided: every trigger occurrence latches.
    pub fn new(
        timer: FreeRunningCounter,
        capture_channel: CaptureChannel,
        generator: &mut SamplingClockGenerator,
        clock_input: ReferenceClockSource,
    ) -> (t: Self)
        requires
            timer.wf(),
            capture_channel.wf(),
            clock_input.wf(),
            spec_trigger_line(timer.id, old(generator).id) is Some,
        ensures
            t.wf(),
            final(generator).id == old(generator).id,
            final(generator).counter == old(generator).counter,
            final(generator).period == old(generator).period,
            final(generator).pending_period == old(generator).pending_period,
            final(generator).trigger_on_update,
            final(generator).running == old(generator).running,
            t.timer == timer,
            Some(t.trigger_source) == spec_trigger_line(timer.id, old(generator).id),
            t.capture_channel == (CaptureChannel {
                prescaler: Prescaler::Div1,
                skipped: 0,
                ..capture_channel
            }),
            t.reference == clock_input,
            t.previous_capture == 0,
            t.previous_diff == 0,
    {
        generator.generate_trigger_on_update();
        let source = trigger_line(timer.id, generator.id).unwrap();
        let mut channel = capture_channel;
        channel.configure_prescaler(Prescaler::Div1);
        InputCaptureTimer {
            timer,
            capture_channel: channel,
            reference: clock_input,
            trigger_source: source,
            previous_capture: 0,
            previous_diff: 0,
        }
    }

    /// Start collecting timestamps: the clock source passes pulses, the
    /// counter free-runs and the capture channel is armed.
    pub fn start(&mut self)
        ensures
            final(self).timer == (FreeRunningCounter { running: true, ..old(self).timer }),
            final(self).capture_channel == (CaptureChannel {
                enabled: true,
                ..old(self).capture_channel
            }),
            final(self).reference == (ReferenceClockSource {
                started: true,
                ..old(self).reference
            }),
            final(self).trigger_source == old(self).trigger_source,
            final(self).previous_capture == old(self).previous_capture,
            final(self).previous_diff == old(self).previous_diff,
    {
        self.reference.start();
        self.timer.start();
        self.capture_channel.enable();
    }

    /// Retune the free-running counter's rollover point at runtime. The
    /// caller must keep the reload value large enough that the counter can
    /// roll over at most once between consecutive captures — the delta
    /// arithmetic assumes a single wraparound — and at or above the current
    /// count, so the wrap point stays well defined.
    pub fn update_period(&mut self, period: u16)
        requires
            old(self).timer.counter <= period,
        ensures
            old(self).wf() ==> final(self).wf(),
            final(self).timer == (FreeRunningCounter { period, ..old(self).timer }),
            final(self).capture_channel == old(self).capture_channel,
            final(self).reference == old(self).reference,
            final(self).trigger_source == old(self).trigger_source,
            final(self).previous_capture == old(self).previous_capture,
            final(self).previous_diff == old(self).previous_diff,
    {
        self.timer.set_period_ticks(period);
    }

    /// The number of counter-clock pulses that `edges` raw reference edges
    /// produce, given the divider's accumulated state.
    pub open spec fn spec_pulses(self, edges: u32) -> int {
        (self.reference.pending_edges + edges) as int / self.reference.prescaler.spec_divisor() as int
    }

    /// Feed raw external reference edges to the counter's clock: the divider
    /// turns them into pulses and the counter advances, wrapping at its
    /// reload value.
    pub fn clock_edges(&mut self, edges: u32)
        requires
            old(self).wf(),
            old(self).timer.running,
            old(self).reference.started,
            old(self).reference.pending_edges + edges <= u32::MAX,
        ensures
            final(self).wf(),
            final(self).timer == (FreeRunningCounter {
                counter: old(self).timer.spec_counter_after(old(self).spec_pulses(edges)),
                ..old(self).timer
            }),
            final(self).reference.prescaler == old(self).reference.prescaler,
            final(self).reference.started,
            final(self).reference.pending_edges == (old(self).reference.pending_edges
                + edges) as int % old(self).reference.prescaler.spec_divisor() as int,
            final(self).capture_channel == old(self).capture_channel,
            final(self).trigger_source == old(self).trigger_source,
            final(self).previous_capture == old(self).previous_capture,
            final(self).previous_diff == old(self).previous_diff,
    {
        let pulses = self.reference.take_pulses(edges);
        self.timer.advance(pulses);
    }

    /// The sampling-clock generator's trigger line fired: the capture channel
    /// sees one capture event carrying the current counter value.
    pub fn on_update_trigger(&mut self)
        requires
            old(self).wf(),
        ensures
            final(self).wf(),
            final(self).capture_channel == old(self).capture_channel.spec_latch(
                old(self).timer.counter,
            ),
            final(self).timer == old(self).timer,
            final(self).reference == old(self).reference,
            final(self).trigger_source == old(self).trigger_source,
            final(self).previous_capture == old(self).previous_capture,
            final(self).previous_diff == old(self).previous_diff,
    {
        let value = self.timer.counter;
        self.capture_channel.latch(value);
    }

    /// The polling entry point: read the latest capture result and report a
    /// delta per `spec_poll_output`, leaving the state of `spec_poll_state`.
    /// Every fault is absorbed here — a poll always returns a delta, never a
    /// caller-visible failure.
    pub fn latest_timestamp_diff(&mut self) -> (diff: u16)
        ensures
            diff == old(self).spec_poll_output(),
            *final(self) == old(self).spec_poll_state(),
    {
        let diff = match self.capture_channel.latest_capture() {
            Ok(Some(value)) => {
                let tmp = wrapping_delta(value, self.previous_capture);
                self.previous_capture = value;
                tmp
            },
            Ok(None) => self.previous_diff,
            Err(Some(_value)) => OVERCAPTURE_SENTINEL,
            Err(None) => self.previous_diff,
        };
        self.previous_diff = diff;
        diff
    }
}

/// A fresh capture with no intervening rollover: for consecutive snapshots
/// `a` then `b` with `a <= b`, the poll reports `b - a` exactly and remembers
/// `b` as the new previous snapshot.
pub proof fn lemma_fresh_diff_no_rollover(t: InputCaptureTimer, a: u16, b: u16)
    requires
        t.previous_capture == a,
        t.capture_channel.latched == Some(b),
        !t.capture_channel.overcapture,
        a <= b,
    ensures
        t.spec_poll_output() == b - a,
        t.spec_poll_state().previous_capture == b,
{
    crate::wrap::lemma_wrap_diff_no_rollover(a, b);
}

/// A fresh capture with exactly one intervening rollover: for snapshots `a`
/// then `b` with `b < a`, the poll reports the elapsed count through the wrap
/// point, `(b - a) mod 2^16 == b + 2^16 - a`.
pub proof fn lemma_fresh_diff_one_rollover(t: InputCaptureTimer, a: u16, b: u16)
    requires
        t.previous_capture == a,
        t.capture_channel.latched == Some(b),
        !t.capture_channel.overcapture,
        b < a,
    ensures
        t.spec_poll_output() == b + 0x10000 - a,
        t.spec_poll_state().previous_capture == b,
{
    crate::wrap::lemma_wrap_diff_one_rollover(a, b);
}

/// Two consecutive captures `a` then `b`, each polled in turn on an undivided
/// channel: the first poll remembers `a`, and the second poll reports the
/// wraparound-safe delta from `a` to `b` — the plain difference `b - a` when
/// no rollover intervened, the count through the wrap point when one did.
pub proof fn lemma_consecutive_captures(t: InputCaptureTimer, a: u16, b: u16)
    requires
        t.capture_channel.latched == Some(a),
        !t.capture_channel.overcapture,
        t.capture_channel.enabled,
        t.capture_channel.prescaler == Prescaler::Div1,
    ensures
        ({
            let polled = t.spec_poll_state();
            let latched = InputCaptureTimer {
                capture_channel: polled.capture_channel.spec_latch(b),
                ..polled
            };
            &&& polled.previous_capture == a
            &&& latched.spec_poll_output() == wrap_diff(b, a)
            &&& (a <= b ==> latched.spec_poll_output() == b - a)
            &&& (b < a ==> latched.spec_poll_output() == b + 0x10000 - a)
        }),
{
    if a <= b {
        crate::wrap::lemma_wrap_diff_no_rollover(a, b);
    } else {
        crate::wrap::lemma_wrap_diff_one_rollover(a, b);
    }
}

/// Staleness is absorbed: polling with no new capture reports the last known
/// delta and leaves the state exactly as it was, so polling twice with no
/// capture in between returns the identical value both times.
pub proof fn lemma_stale_poll_identity(t: InputCaptureTimer)
    requires
        t.capture_channel.latched is None,
        !t.capture_channel.overcapture,
    ensures
        t.spec_poll_output() == t.previous_diff,
        t.spec_poll_state() == t,
        t.spec_poll_state().spec_poll_output() == t.spec_poll_output(),
{
}

/// An over-capture with a readable value: the poll substitutes the sentinel,
/// the sentinel replaces the remembered delta, and a subsequent stale poll
/// reports the sentinel again — not the last real delta.
pub proof fn lemma_overcapture_sentinel(t: InputCaptureTimer)
    requires
        t.capture_channel.overcapture,
        t.capture_channel.latched is Some,
    ensures
        t.spec_poll_output() == OVERCAPTURE_SENTINEL,
        t.spec_poll_state().previous_diff == OVERCAPTURE_SENTINEL,
        t.spec_poll_state().previous_capture == t.previous_capture,
        t.spec_poll_state().spec_poll_output() == OVERCAPTURE_SENTINEL,
{
}

/// An over-capture with nothing readable (a generic capture-channel fault) is
/// treated as staleness: the last known delta is reported and kept.
pub proof fn lemma_fault_without_value(t: InputCaptureTimer)
    requires
        t.capture_channel.overcapture,
        t.capture_channel.latched is None,
    ensures
        t.spec_poll_output() == t.previous_diff,
        t.spec_poll_state().previous_diff == t.previous_diff,
        t.spec_poll_state().previous_capture == t.previous_capture,
{
}

} // verus!
