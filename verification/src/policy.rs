//! How often each stage tries, how long it waits, and where it knocks.

use vstd::prelude::*;

verus! {

/// The retry discipline of one stage: a ceiling on attempts and a constant
/// wait after every attempt that did not succeed.
#[derive(Clone, Copy, Debug, PartialEq, Eq, Structural)]
pub struct RetryPolicy {
    /// The most attempts the stage makes before it gives up.
    pub max_attempts: u32,
    /// Seconds to wait after an unsuccessful attempt.
    pub interval_secs: u64,
}

impl RetryPolicy {
    /// Polling the control plane for an address: 20 attempts, 15 s apart.
    pub fn address_resolution() -> (policy: Self)
        ensures
            policy == (RetryPolicy { max_attempts: 20, interval_secs: 15 }),
    {
        RetryPolicy { max_attempts: 20, interval_secs: 15 }
    }

    /// Knocking on the instance's port: 10 attempts, 15 s apart.
    pub fn transport() -> (policy: Self)
        ensures
            policy == (RetryPolicy { max_attempts: 10, interval_secs: 15 }),
    {
        RetryPolicy { max_attempts: 10, interval_secs: 15 }
    }

    /// Fetching the attestation document: 20 attempts, 15 s apart.
    pub fn attestation() -> (policy: Self)
        ensures
            policy == (RetryPolicy { max_attempts: 20, interval_secs: 15 }),
    {
        RetryPolicy { max_attempts: 20, interval_secs: 15 }
    }
}

/// Everything that is fixed for a verification run.
#[derive(Clone, Copy, Debug, PartialEq, Eq, Structural)]
pub struct VerifierConfig {
    /// Seconds granted to the instance to boot before anything is asked.
    pub startup_delay_secs: u64,
    /// The port on which the instance answers.
    pub port: u16,
    /// Seconds after which one connection attempt is given up.
    pub connect_timeout_secs: u64,
    pub resolution: RetryPolicy,
    pub transport: RetryPolicy,
    pub attestation: RetryPolicy,
}

impl VerifierConfig {
    /// The values that are in use: three minutes to boot, port 1300, two
    /// seconds for a connection attempt, and the three stage policies.
    pub open spec fn standard_spec() -> Self {
        VerifierConfig {
            startup_delay_secs: 180,
            port: 1300,
            connect_timeout_secs: 2,
            resolution: RetryPolicy { max_attempts: 20, interval_secs: 15 },
            transport: RetryPolicy { max_attempts: 10, interval_secs: 15 },
            attestation: RetryPolicy { max_attempts: 20, interval_secs: 15 },
        }
    }

    /// The values that are in use.
    #[verifier::when_used_as_spec(standard_spec)]
    pub fn standard() -> (config: Self)
        ensures
            config == Self::standard_spec(),
    {
        VerifierConfig {
            startup_delay_secs: 180,
            port: 1300,
            connect_timeout_secs: 2,
            resolution: RetryPolicy::address_resolution(),
            transport: RetryPolicy::transport(),
            attestation: RetryPolicy::attestation(),
        }
    }
}

} // verus!
