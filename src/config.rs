use vstd::prelude::*;

verus! {

/// Settings of the CPU (time-lock) challenge.
pub struct CPUChallengeConfiguration {
    /// Number of sequential squarings that a puzzle asks for.
    pub squarings: u32,
    /// Timings at or below this many milliseconds get full credit.
    pub ideal_milliseconds: u128,
    /// Timings above this many milliseconds reject the client.
    pub max_milliseconds: u128,
}

/// Settings of the network (roundtrip) challenge.
pub struct NetworkChallengeConfiguration {
    /// Size of the random payload, in kibibytes.
    pub data_size_kb: usize,
    /// Timings at or below this many milliseconds get full credit.
    pub ideal_milliseconds: u128,
    /// Timings above this many milliseconds reject the client.
    pub max_milliseconds: u128,
}

} // verus!
