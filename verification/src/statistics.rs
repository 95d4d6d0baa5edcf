//! Aggregation of the per-cycle reports of all clients.
//!
//! A single consumer owns two running counters, adds every arriving report to
//! them, and once per fixed reporting interval turns the accumulated bytes
//! into a human-scaled bit rate, emits it, and starts the window afresh.

use vstd::prelude::*;

use crate::sender::StatPacket;

verus! {

/// Length of one reporting window, in seconds.
pub const REPORT_INTERVAL_SECS: u128 = 10;

/// The text byte_unit renders for a byte count scaled to its appropriate
/// decimal unit: a figure followed by a unit whose last letter is `B`.
pub uninterp spec fn scaled_unit_of(n: int) -> Seq<char>;

/// Relies on byte_unit::Byte::from_bytes, Byte::get_appropriate_unit with
/// decimal units, and the Display of the resulting AdjustedByte: the text is
/// a function of the count alone, and always ends in the letter `B` (the
/// bare unit `B` or a decimal multiple `KB`, `MB`, ..., `ZB`).
#[verifier::external_body]
fn scale_bytes(n: u128) -> (r: String)
    ensures
        r@ == scaled_unit_of(n as int),
        r@.len() >= 1,
        r@.last() == 'B',
{
    byte_unit::Byte::from_bytes(n).get_appropriate_unit(false).to_string()
}

/// The scaled figure for a bit rate, with the trailing `B` of the byte unit
/// cut off so that the caller can append its own `bit/s`.
pub fn bandwidth_label(bits_per_sec: u128) -> (r: String)
    ensures
        r@ == scaled_unit_of(bits_per_sec as int).drop_last(),
{
    let s = scale_bytes(bits_per_sec);
    let n = s.as_str().unicode_len();
    let t = s.as_str().substring_char(0, n - 1);
    t.to_owned()
}

/// One emitted summary: the packets of the closed window and its bit rate,
/// both as numbers and as the human-scaled figure of the log line.
pub struct Report {
    /// Packets sent during the window.
    pub packets: u128,
    /// Bits per second over the window: accumulated bytes, times eight,
    /// divided by the window length.
    pub bits_per_sec: u128,
    /// The scaled figure, ready for a `bit/s` suffix.
    pub bandwidth: String,
}

/// The aggregator's accumulators: total bytes and packets of the open window.
pub struct Aggregator {
    /// Payload bytes reported since the last report.
    pub bytes_sent: u128,
    /// Packets reported since the last report.
    pub packets_sent: u128,
}

impl Aggregator {
    /// Room is left to turn the byte count into bits without overflow.
    pub open spec fn wf(&self) -> bool {
        self.bytes_sent <= u128::MAX / 8
    }

    /// A fresh aggregator: both accumulators start at zero.
    pub fn new() -> (a: Aggregator)
        ensures
            a.bytes_sent == 0,
            a.packets_sent == 0,
            a.wf(),
    {
        Aggregator { bytes_sent: 0, packets_sent: 0 }
    }

    /// Fold one cycle report into the open window: both accumulators grow by
    /// exactly what the report carries.
    pub fn record(&mut self, s: &StatPacket)
        requires
            old(self).bytes_sent + s.bytes <= u128::MAX / 8,
            old(self).packets_sent + s.packets <= u128::MAX,
        ensures
            final(self).bytes_sent == old(self).bytes_sent + s.bytes,
            final(self).packets_sent == old(self).packets_sent + s.packets,
            final(self).wf(),
    {
        self.bytes_sent = self.bytes_sent + (s.bytes as u128);
        self.packets_sent = self.packets_sent + (s.packets as u128);
    }

    /// Close the window: report its packet total and its bit rate, and reset
    /// both accumulators to zero, so that two reports in a row always see the
    /// second one empty.
    pub fn report(&mut self) -> (r: Report)
        requires
            old(self).wf(),
        ensures
            final(self).bytes_sent == 0,
            final(self).packets_sent == 0,
            final(self).wf(),
            r.packets == old(self).packets_sent,
            r.bits_per_sec == (old(self).bytes_sent * 8) / (REPORT_INTERVAL_SECS as int),
            r.bandwidth@ == scaled_unit_of(r.bits_per_sec as int).drop_last(),
    {
        let bits = self.bytes_sent * 8;
        let bits_per_sec = bits / REPORT_INTERVAL_SECS;
        let bandwidth = bandwidth_label(bits_per_sec);
        let packets = self.packets_sent;
        self.bytes_sent = 0;
        self.packets_sent = 0;
        Report { packets, bits_per_sec, bandwidth }
    }
}

/// Total payload bytes over a window's sequence of cycle reports.
pub open spec fn total_bytes(s: Seq<StatPacket>) -> int
    decreases s.len(),
{
    if s.len() == 0 {
        0
    } else {
        total_bytes(s.drop_last()) + s.last().bytes
    }
}

/// Total packets over a window's sequence of cycle reports.
pub open spec fn total_packets(s: Seq<StatPacket>) -> int
    decreases s.len(),
{
    if s.len() == 0 {
        0
    } else {
        total_packets(s.drop_last()) + s.last().packets
    }
}

/// Totals of a window in which every cycle reports the same pair.
proof fn lemma_uniform_totals(s: Seq<StatPacket>, b: int, p: int)
    requires
        forall|i: int| 0 <= i < s.len() ==> s[i].bytes == b && s[i].packets == p,
    ensures
        total_bytes(s) == s.len() * b,
        total_packets(s) == s.len() * p,
    decreases s.len(),
{
    if s.len() > 0 {
        lemma_uniform_totals(s.drop_last(), b, p);
        assert((s.len() - 1) * b + b == s.len() * b) by (nonlinear_arith);
        assert((s.len() - 1) * p + p == s.len() * p) by (nonlinear_arith);
    }
}

/// Law: over a steady window where no send fails — each of the
/// `clients * interval` cycle reports that arrive carries the full `rate`
/// packets and `rate * len` bytes — the window's totals are exactly
/// `rate * clients * interval` packets, and turning its bytes into bits and
/// dividing by the window length gives exactly `rate * clients * len * 8`
/// bits per second, the theoretical bandwidth of the run.
pub proof fn lemma_steady_window(
    s: Seq<StatPacket>,
    rate: int,
    len: int,
    clients: int,
    interval: int,
)
    requires
        0 <= rate,
        0 <= len,
        0 <= clients,
        0 < interval,
        s.len() == clients * interval,
        forall|i: int| 0 <= i < s.len() ==> s[i].packets == rate && s[i].bytes == rate * len,
    ensures
        total_packets(s) == rate * clients * interval,
        (total_bytes(s) * 8) / interval == rate * clients * len * 8,
{
    lemma_uniform_totals(s, rate * len, rate);
    assert((clients * interval) * rate == rate * clients * interval) by (nonlinear_arith);
    assert((clients * interval) * (rate * len) * 8 == (rate * clients * len * 8) * interval)
        by (nonlinear_arith);
    assert(0 <= rate * clients * len * 8) by (nonlinear_arith)
        requires
            0 <= rate,
            0 <= clients,
            0 <= len,
    ;
    vstd::arithmetic::div_mod::lemma_div_by_multiple(rate * clients * len * 8, interval);
}

} // verus!
