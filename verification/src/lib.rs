//! A verified model of a timer-cascade and capture-timestamping subsystem.
//!
//! A free-running 16-bit counter, clocked from a divided external reference
//! clock, carries an input-capture channel that latches the counter whenever a
//! sampling-clock generator overflows and broadcasts its internal trigger.
//! The capture timestamper turns the resulting stream of raw 16-bit snapshots
//! into wraparound-safe, missed-event-tolerant deltas: the duration of each
//! completed sample batch, expressed in reference-clock ticks.
//!
//! The hardware counters, trigger lines and capture registers are modelled as
//! plain data; the register-level accesses that drive them on a real device
//! are memory-mapped I/O and live outside this library.

pub mod cascade;
pub mod qspi;
pub mod sampling;
pub mod timestamp;
pub mod timers;
pub mod wrap;
