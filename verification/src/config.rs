//! Run parameters and their validation.

use vstd::prelude::*;

verus! {

/// The validated configuration handed to the orchestrator: one simulated
/// client per `connections`, each sending `rate` packets of `len` bytes per
/// second from its own source port.
pub struct Parameters {
    /// Destination, as the text the operator gave (resolved by the caller).
    pub server_addr: String,
    /// Target packets per second, per client.
    pub rate: usize,
    /// Number of simulated clients.
    pub connections: usize,
    /// Payload length in bytes.
    pub len: usize,
    /// Source port of the first client; each further client takes the next one.
    pub start_port: usize,
    /// Pause between consecutive client launches, in milliseconds.
    pub sleep: u64,
    /// Whether the clients speak DTLS instead of plain UDP.
    pub use_dtls: bool,
    /// Trust-anchor file for DTLS; required whenever `use_dtls` is set.
    pub ca_file: Option<String>,
}

/// A configuration fault that must stop the run before any socket is opened.
pub enum ConfigError {
    /// DTLS was requested but no trust-anchor file was given.
    MissingTrustAnchor,
}

impl Parameters {
    /// A run may start only when DTLS, if requested, has a trust anchor.
    pub open spec fn security_consistent(&self) -> bool {
        self.use_dtls ==> self.ca_file is Some
    }

    /// Rejects exactly the configurations whose security settings are
    /// inconsistent; nothing else is a configuration fault here.
    pub fn validate(&self) -> (r: Result<(), ConfigError>)
        ensures
            r is Ok <==> self.security_consistent(),
            r is Err ==> (r matches Err(e) && e is MissingTrustAnchor),
    {
        if self.use_dtls && self.ca_file.is_none() {
            Err(ConfigError::MissingTrustAnchor)
        } else {
            Ok(())
        }
    }

    /// The source port of the client with the given index: ports are assigned
    /// consecutively from `start_port`, so distinct clients get distinct ports.
    pub fn port_for_client(&self, index: usize) -> (p: usize)
        requires
            index < self.connections,
            self.start_port + self.connections <= usize::MAX,
        ensures
            p == self.start_port + index,
    {
        self.start_port + index
    }

    /// The packet rate of the whole run: every client contributes its own rate.
    pub fn theoretical_packet_rate(&self) -> (r: u128)
        ensures
            r == self.connections * self.rate,
    {
        proof {
            vstd::arithmetic::mul::lemma_mul_upper_bound(
                self.connections as int,
                u64::MAX as int,
                self.rate as int,
                u64::MAX as int,
            );
        }
        (self.connections as u128) * (self.rate as u128)
    }

    /// The bit rate of the whole run when every send succeeds:
    /// each of the `connections * rate` packets per second carries `len`
    /// bytes of eight bits.
    pub fn theoretical_bandwidth_bits(&self) -> (r: u128)
        requires
            self.connections * self.rate * self.len * 8 <= u128::MAX,
        ensures
            r == self.connections * self.rate * self.len * 8,
    {
        proof {
            let c: int = self.connections as int;
            let r: int = self.rate as int;
            let l: int = self.len as int;
            vstd::arithmetic::mul::lemma_mul_upper_bound(c, u64::MAX as int, r, u64::MAX as int);
            assert(c * r <= u128::MAX);
            assert(c * r * l <= c * r * l * 8) by (nonlinear_arith)
                requires
                    c >= 0,
                    r >= 0,
                    l >= 0,
            ;
        }
        (self.connections as u128) * (self.rate as u128) * (self.len as u128) * 8
    }
}

/// The worker-thread count to configure, given the operator's request:
/// a positive request is taken as given, and a missing or zero request
/// leaves the choice to the runtime's own default.
pub fn effective_workers(requested: Option<usize>) -> (r: Option<usize>)
    ensures
        r == (match requested {
            Some(w) => if w > 0 { Some(w) } else { None::<usize> },
            None => None::<usize>,
        }),
{
    match requested {
        Some(w) => if w > 0 { Some(w) } else { None },
        None => None,
    }
}

} // verus!
