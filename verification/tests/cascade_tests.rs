//! The assembled cascade: trigger routing, generator cadence, shadow phase
//! lock and the reference-clock divider.

use capture_timestamp::cascade::TimerCascade;
use capture_timestamp::sampling::{SamplingClockGenerator, ShadowSamplingClock};
use capture_timestamp::timers::{
    trigger_line, FreeRunningCounter, Prescaler, ReferenceClockSource, TimerId, TriggerSource,
};
use capture_timestamp::timestamp::CaptureChannel;

fn built_cascade(generator_period: u16) -> TimerCascade {
    let generator = SamplingClockGenerator::new(TimerId::Tim1, generator_period);
    let shadow = ShadowSamplingClock::new(TimerId::Tim3, generator_period);
    let timer = FreeRunningCounter::new(TimerId::Tim8, u16::MAX);
    let channel = CaptureChannel::new();
    let mut reference = ReferenceClockSource::new();
    reference.configure(Prescaler::Div1);
    TimerCascade::new(generator, shadow, timer, channel, reference)
}

#[test]
fn trigger_routing_table_rows() {
    assert_eq!(trigger_line(TimerId::Tim8, TimerId::Tim1), Some(TriggerSource::Trigger0));
    assert_eq!(trigger_line(TimerId::Tim3, TimerId::Tim1), Some(TriggerSource::Trigger0));
    assert_eq!(trigger_line(TimerId::Tim3, TimerId::Tim2), Some(TriggerSource::Trigger1));
    assert_eq!(trigger_line(TimerId::Tim8, TimerId::Tim2), None);
    assert_eq!(trigger_line(TimerId::Tim1, TimerId::Tim8), None);
}

#[test]
fn construction_wires_the_chain() {
    let c = built_cascade(999);
    assert!(c.generator.trigger_on_update);
    assert_eq!(c.timestamper.trigger_source, TriggerSource::Trigger0);
    assert_eq!(c.shadow.bound_source, Some(TriggerSource::Trigger0));
    assert!(!c.generator.running);
    assert!(!c.shadow.counting);
}

#[test]
fn generator_update_cadence_is_period_plus_one() {
    let mut c = built_cascade(4);
    c.start();
    let mut ticks_to_first: u32 = 0;
    loop {
        ticks_to_first += 1;
        if c.tick_sampling() {
            break;
        }
    }
    assert_eq!(ticks_to_first, 5);
    let mut ticks_to_second: u32 = 0;
    loop {
        ticks_to_second += 1;
        if c.tick_sampling() {
            break;
        }
    }
    assert_eq!(ticks_to_second, 5);
}

#[test]
fn staged_period_takes_effect_at_reload_boundary() {
    let mut c = built_cascade(4);
    c.start();
    c.tick_sampling();
    c.tick_sampling();
    // Mid-cycle the new period is staged; the cycle in progress still runs
    // its remaining 3 ticks, and only the cycle after that has the new
    // cadence of 2 + 1 ticks.
    c.generator.set_period(2);
    let mut remaining: u32 = 0;
    loop {
        remaining += 1;
        if c.tick_sampling() {
            break;
        }
    }
    assert_eq!(remaining, 3);
    assert_eq!(c.generator.period, 2);
    let mut next_cycle: u32 = 0;
    loop {
        next_cycle += 1;
        if c.tick_sampling() {
            break;
        }
    }
    assert_eq!(next_cycle, 3);
}

#[test]
fn shadow_stays_phase_locked_to_generator() {
    let mut c = built_cascade(7);
    c.start();
    assert_eq!(c.shadow.counter, c.generator.counter);
    for _ in 0..100 {
        c.tick_sampling();
        assert_eq!(c.shadow.counter, c.generator.counter);
    }
}

#[test]
fn unbound_shadow_does_not_count() {
    let generator = SamplingClockGenerator::new(TimerId::Tim1, 9);
    let mut shadow = ShadowSamplingClock::new(TimerId::Tim3, 9);
    // Never bound: the master's start edge must not release it.
    let _ = generator;
    shadow.on_master_start();
    assert!(!shadow.counting);
    shadow.tick();
    assert_eq!(shadow.counter, 0);
}

#[test]
fn captures_track_generator_overflows() {
    let mut c = built_cascade(999);
    c.start();
    let mut captures: u32 = 0;
    let mut polls = Vec::new();
    for _ in 0..3000 {
        c.timestamper.clock_edges(1);
        if c.tick_sampling() {
            captures += 1;
            polls.push(c.timestamper.latest_timestamp_diff());
        }
    }
    assert_eq!(captures, 3);
    // The first delta is measured against the initial snapshot; every later
    // batch lasts exactly one generator cycle of 1000 reference ticks.
    assert_eq!(polls[1], 1000);
    assert_eq!(polls[2], 1000);
}

#[test]
fn reference_prescaler_divides_edges() {
    let generator = SamplingClockGenerator::new(TimerId::Tim1, 999);
    let shadow = ShadowSamplingClock::new(TimerId::Tim3, 999);
    let timer = FreeRunningCounter::new(TimerId::Tim8, u16::MAX);
    let channel = CaptureChannel::new();
    let mut reference = ReferenceClockSource::new();
    reference.configure(Prescaler::Div2);
    let mut c = TimerCascade::new(generator, shadow, timer, channel, reference);
    c.start();
    c.timestamper.clock_edges(5);
    assert_eq!(c.timestamper.timer.counter, 2);
    c.timestamper.clock_edges(1);
    assert_eq!(c.timestamper.timer.counter, 3);
}

#[test]
fn capture_prescaler_skips_events() {
    let mut c = built_cascade(999);
    c.timestamper.capture_channel.configure_prescaler(Prescaler::Div2);
    c.start();
    c.timestamper.clock_edges(100);
    c.timestamper.on_update_trigger();
    // First trigger occurrence is skipped by the divide-by-two prescaler.
    assert_eq!(c.timestamper.latest_timestamp_diff(), 0);
    c.timestamper.on_update_trigger();
    assert_eq!(c.timestamper.latest_timestamp_diff(), 100);
}
