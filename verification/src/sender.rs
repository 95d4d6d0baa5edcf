//! Per-cycle accounting of the rate-paced send loop.
//!
//! Each client runs an endless loop of one-second cycles: attempt exactly
//! `rate` sends, count the failures, report how much was actually sent, and
//! sleep out whatever is left of the second. The loop itself lives with the
//! sockets; the counting and the pacing decision are made here.

use vstd::prelude::*;

verus! {

/// What one cycle sent: successful sends only, failures count for nothing.
pub struct StatPacket {
    /// Payload bytes carried by the successful sends of the cycle.
    pub bytes: usize,
    /// Number of successful sends of the cycle.
    pub packets: usize,
}

/// The totals a cycle reports when `failures` of its `rate` attempts failed:
/// exactly the successful attempts are counted, each for `payload_len` bytes.
pub fn cycle_stats(rate: usize, payload_len: usize, failures: usize) -> (s: StatPacket)
    requires
        failures <= rate,
        (rate - failures) * payload_len <= usize::MAX,
    ensures
        s.packets == rate - failures,
        s.bytes == (rate - failures) * payload_len,
{
    let packets_sent = rate - failures;
    StatPacket { bytes: packets_sent * payload_len, packets: packets_sent }
}

/// Running tally of one cycle: how many sends were attempted and how many of
/// them failed. The loop records each attempt's outcome as it completes.
pub struct CycleTally {
    /// Send calls made so far in this cycle.
    pub attempts: usize,
    /// Those of them that failed.
    pub failures: usize,
}

impl CycleTally {
    /// No more attempts can have failed than were made.
    pub open spec fn wf(&self) -> bool {
        self.failures <= self.attempts
    }

    /// A fresh tally at the start of a cycle.
    pub fn new() -> (t: CycleTally)
        ensures
            t.attempts == 0,
            t.failures == 0,
            t.wf(),
    {
        CycleTally { attempts: 0, failures: 0 }
    }

    /// Count one completed send attempt; only a failed one raises `failures`.
    pub fn record(&mut self, ok: bool)
        requires
            old(self).wf(),
            old(self).attempts < usize::MAX,
        ensures
            final(self).attempts == old(self).attempts + 1,
            final(self).failures == old(self).failures + (if ok { 0int } else { 1int }),
            final(self).wf(),
    {
        self.attempts = self.attempts + 1;
        if !ok {
            self.failures = self.failures + 1;
        }
    }

    /// The cycle's report: of `attempts` attempts, the ones that did not fail
    /// were sent, each carrying `payload_len` bytes.
    pub fn stats(&self, payload_len: usize) -> (s: StatPacket)
        requires
            self.wf(),
            (self.attempts - self.failures) * payload_len <= usize::MAX,
        ensures
            s.packets == self.attempts - self.failures,
            s.bytes == (self.attempts - self.failures) * payload_len,
    {
        cycle_stats(self.attempts, payload_len, self.failures)
    }
}

/// One second, in the nanoseconds the pacing decision is made in.
pub const NANOS_PER_SEC: u64 = 1_000_000_000;

/// How long a cycle must still sleep after its sends took `elapsed_nanos`:
/// the remainder of the one-second window, and nothing at all once the window
/// is already over — the pause is never negative and overruns are not repaid.
pub fn remaining_sleep(elapsed_nanos: u64) -> (r: u64)
    ensures
        elapsed_nanos < NANOS_PER_SEC ==> r == NANOS_PER_SEC - elapsed_nanos,
        elapsed_nanos >= NANOS_PER_SEC ==> r == 0,
{
    if elapsed_nanos < NANOS_PER_SEC {
        NANOS_PER_SEC - elapsed_nanos
    } else {
        0
    }
}

/// Relies on fastrand::u8 over the full range: a pseudo-randomly drawn byte;
/// nothing is promised of its value.
#[verifier::external_body]
fn random_byte() -> u8 {
    fastrand::u8(..)
}

/// A client's payload: `len` arbitrary bytes, generated once and then owned
/// by that client for its whole lifetime. Only the length matters to the test.
pub fn generate_payloads(len: usize) -> (p: Vec<u8>)
    ensures
        p@.len() == len,
{
    let mut p: Vec<u8> = Vec::new();
    let mut i: usize = 0;
    while i < len
        invariant
            i <= len,
            p@.len() == i,
        decreases len - i,
    {
        p.push(random_byte());
        i = i + 1;
    }
    p
}

} // verus!
