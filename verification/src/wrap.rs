//! Wraparound-safe subtraction of 16-bit counter snapshots.
//!
//! The capture counter is a free-running 16-bit register. The elapsed tick
//! count between two snapshots `a` (earlier) and `b` (later) is recovered as
//! `(b - a) mod 2^16`: unsigned modular subtraction, chosen deliberately so
//! that a single counter rollover between the two captures still yields the
//! correct elapsed count. The caller keeps the rollover assumption true by
//! choosing a reload value and a trigger cadence such that at most one
//! rollover can occur between consecutive captures.

use vstd::prelude::*;

verus! {

/// `(b - a) mod 2^16`: the elapsed ticks from snapshot `a` to snapshot `b`,
/// assuming the counter rolled over at most once in between.
pub open spec fn wrap_diff(b: u16, a: u16) -> u16 {
    if b - a < 0 {
        (b - a + 0x10000) as u16
    } else {
        (b - a) as u16
    }
}

/// The definition above is exactly Euclidean remainder modulo 2^16.
pub proof fn lemma_wrap_diff_is_mod(b: u16, a: u16)
    ensures
        wrap_diff(b, a) == (b - a) % 0x10000,
{
}

/// With no rollover between the snapshots (the later snapshot is not below
/// the earlier one), the delta is the plain difference, exactly.
pub proof fn lemma_wrap_diff_no_rollover(a: u16, b: u16)
    requires
        a <= b,
    ensures
        wrap_diff(b, a) == b - a,
{
}

/// With exactly one rollover between the snapshots (the later snapshot reads
/// below the earlier one), the delta counts through the wrap point.
pub proof fn lemma_wrap_diff_one_rollover(a: u16, b: u16)
    requires
        b < a,
    ensures
        wrap_diff(b, a) == b + 0x10000 - a,
{
}

/// Executable wraparound-safe delta between two counter snapshots.
pub fn wrapping_delta(b: u16, a: u16) -> (d: u16)
    ensures
        d == wrap_diff(b, a),
{
    b.wrapping_sub(a)
}

} // verus!
