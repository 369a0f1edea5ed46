//! The leader election gate: which lease a replica competes for, and the
//! leadership signal that the reconciler consults before it changes the
//! cluster.

use vstd::prelude::*;

verus! {

/// Seconds for which a lease is held without renewal.
pub const LEASE_TTL_SECS: u64 = 15;

/// Seconds between two attempts to acquire or renew the lease.
pub const RENEW_INTERVAL_SECS: u64 = 5;

/// The name of the lease that the replicas compete for.
pub open spec fn lease_name() -> Seq<char> {
    "stickerbomb-lease"@
}

/// The holder identity of a replica whose host identity is not known.
pub open spec fn unknown_holder() -> Seq<char> {
    "unknown"@
}

/// The lease that a replica competes for.
#[derive(Debug)]
pub struct LeaseParams {
    /// Identity under which the replica holds the lease.
    pub holder_id: String,
    /// Name of the lease.
    pub lease_name: String,
    /// Seconds for which the lease is held without renewal.
    pub lease_ttl_secs: u64,
}

/// The lease of a replica with host identity `hostname`.
pub fn lease_params(hostname: Option<String>) -> (params: LeaseParams)
    ensures
        params.holder_id@ == match hostname {
            Some(name) => name@,
            None => unknown_holder(),
        },
        params.lease_name@ == lease_name(),
        params.lease_ttl_secs == LEASE_TTL_SECS,
{
    let holder_id = match hostname {
        Some(name) => name,
        None => String::from_str("unknown"),
    };
    LeaseParams {
        holder_id,
        lease_name: String::from_str("stickerbomb-lease"),
        lease_ttl_secs: LEASE_TTL_SECS,
    }
}

/// The leadership signal of a replica: the last value that an attempt on
/// the lease gave. A replica does not lead before its first attempt.
#[derive(Debug, Clone, Copy, PartialEq, Eq, Structural)]
pub struct LeaderGate {
    /// Whether the replica held the lease at the last successful attempt.
    pub leading: bool,
}

impl LeaderGate {
    /// The signal of a replica that has not tried yet.
    pub fn new() -> (gate: Self)
        ensures
            !gate.leading,
    {
        LeaderGate { leading: false }
    }

    /// Whether the replica may change the cluster.
    pub fn is_leader(&self) -> (leading: bool)
        ensures
            leading == self.leading,
    {
        self.leading
    }

    /// Takes the outcome of one attempt to acquire or renew the lease. An
    /// attempt that went through publishes whether the lease is held; one
    /// that failed leaves the signal as it was. Returns the value to
    /// publish, if any, and the seconds to wait before the next attempt.
    pub fn observe(&mut self, attempt: &Result<bool, String>) -> (published: (Option<bool>, u64))
        ensures
            published.1 == RENEW_INTERVAL_SECS,
            match *attempt {
                Ok(acquired) => final(self).leading == acquired && published.0 == Some(acquired),
                Err(_) => final(self).leading == old(self).leading && published.0 is None,
            },
    {
        match attempt {
            Ok(acquired) => {
                self.leading = *acquired;
                (Some(*acquired), RENEW_INTERVAL_SECS)
            },
            Err(_) => (None, RENEW_INTERVAL_SECS),
        }
    }
}

} // verus!
