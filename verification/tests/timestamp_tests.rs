//! Polling semantics of the capture timestamper: fresh captures, staleness,
//! wraparound and fault absorption.

use capture_timestamp::sampling::SamplingClockGenerator;
use capture_timestamp::timers::{
    FreeRunningCounter, Prescaler, ReferenceClockSource, TimerId,
};
use capture_timestamp::timestamp::{CaptureChannel, InputCaptureTimer, OVERCAPTURE_SENTINEL};
use capture_timestamp::wrap::wrapping_delta;

fn started_timestamper() -> InputCaptureTimer {
    let mut generator = SamplingClockGenerator::new(TimerId::Tim1, 999);
    let timer = FreeRunningCounter::new(TimerId::Tim8, u16::MAX);
    let channel = CaptureChannel::new();
    let mut reference = ReferenceClockSource::new();
    reference.configure(Prescaler::Div1);
    let mut t = InputCaptureTimer::new(timer, channel, &mut generator, reference);
    t.start();
    t
}

#[test]
fn wrapping_delta_exact_values() {
    assert_eq!(wrapping_delta(1000, 0), 1000);
    assert_eq!(wrapping_delta(0, 0), 0);
    assert_eq!(wrapping_delta(65535, 0), 65535);
    assert_eq!(wrapping_delta(10, 65530), 16);
    assert_eq!(wrapping_delta(10, 65030), 516);
    assert_eq!(wrapping_delta(500, 2000), 64036);
}

#[test]
fn fresh_capture_returns_plain_difference() {
    let mut t = started_timestamper();
    t.clock_edges(100);
    t.on_update_trigger();
    t.latest_timestamp_diff();
    t.clock_edges(1100);
    t.on_update_trigger();
    assert_eq!(t.latest_timestamp_diff(), 1100);
}

#[test]
fn single_rollover_counts_through_wrap() {
    let mut t = started_timestamper();
    t.clock_edges(65530);
    t.on_update_trigger();
    t.latest_timestamp_diff();
    t.clock_edges(16);
    assert_eq!(t.timer.counter, 10);
    t.on_update_trigger();
    assert_eq!(t.latest_timestamp_diff(), 16);
}

#[test]
fn single_rollover_wider_gap() {
    let mut t = started_timestamper();
    t.clock_edges(65030);
    t.on_update_trigger();
    t.latest_timestamp_diff();
    t.clock_edges(516);
    assert_eq!(t.timer.counter, 10);
    t.on_update_trigger();
    assert_eq!(t.latest_timestamp_diff(), 516);
}

#[test]
fn stale_polls_repeat_last_delta() {
    let mut t = started_timestamper();
    t.clock_edges(200);
    t.on_update_trigger();
    let first = t.latest_timestamp_diff();
    assert_eq!(first, 200);
    let second = t.latest_timestamp_diff();
    let third = t.latest_timestamp_diff();
    assert_eq!(second, first);
    assert_eq!(third, first);
}

#[test]
fn first_poll_before_any_capture_returns_zero() {
    let mut t = started_timestamper();
    assert_eq!(t.latest_timestamp_diff(), 0);
}

#[test]
fn overcapture_with_value_returns_sentinel_and_sticks() {
    let mut t = started_timestamper();
    t.clock_edges(100);
    t.on_update_trigger();
    assert_eq!(t.latest_timestamp_diff(), 100);
    t.clock_edges(100);
    t.on_update_trigger();
    t.clock_edges(100);
    t.on_update_trigger();
    assert_eq!(t.latest_timestamp_diff(), OVERCAPTURE_SENTINEL);
    assert_eq!(t.latest_timestamp_diff(), OVERCAPTURE_SENTINEL);
}

#[test]
fn fault_without_value_keeps_last_delta() {
    let mut t = started_timestamper();
    t.clock_edges(100);
    t.on_update_trigger();
    assert_eq!(t.latest_timestamp_diff(), 100);
    t.capture_channel.overcapture = true;
    assert_eq!(t.latest_timestamp_diff(), 100);
    assert_eq!(t.latest_timestamp_diff(), 100);
}

#[test]
fn update_period_retunes_rollover_point() {
    let mut t = started_timestamper();
    t.update_period(999);
    t.clock_edges(1500);
    assert_eq!(t.timer.counter, 500);
    t.on_update_trigger();
    assert_eq!(t.latest_timestamp_diff(), 500);
}

#[test]
fn end_to_end_scripted_triggers() {
    let mut generator = SamplingClockGenerator::new(TimerId::Tim1, 999);
    let timer = FreeRunningCounter::new(TimerId::Tim8, u16::MAX);
    let channel = CaptureChannel::new();
    let mut reference = ReferenceClockSource::new();
    reference.configure(Prescaler::Div1);
    let mut t = InputCaptureTimer::new(timer, channel, &mut generator, reference);
    t.start();
    // Overflow triggers at reference ticks 0, 1000, 2000 and 65536 + 500.
    t.on_update_trigger();
    t.latest_timestamp_diff();
    t.clock_edges(1000);
    t.on_update_trigger();
    assert_eq!(t.latest_timestamp_diff(), 1000);
    t.clock_edges(1000);
    t.on_update_trigger();
    assert_eq!(t.latest_timestamp_diff(), 1000);
    t.clock_edges(64036);
    assert_eq!(t.timer.counter, 500);
    t.on_update_trigger();
    assert_eq!(t.latest_timestamp_diff(), 64036);
}
