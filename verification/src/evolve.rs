//! Memory evolution — the supporting mechanism. When a memory is written, a
//! bounded worker retroactively re-tags / re-links semantically related
//! memories, within hard caps: never overwrite (invalidate and write a new
//! bi-temporal version), a cap on cascade fan-out per write, a per-memory
//! cooldown and lifetime evolution limit, and a scope filter before any
//! evolution fires.

use vstd::prelude::*;

verus! {

/// Bits of the single-precision float `0.15`.
pub const DEFAULT_MIN_CHANGE_THRESHOLD_BITS: u32 = 0x3E19_999A;

/// Tunable bounds for the evolution worker (the hard caps).
#[derive(Debug, Clone, Copy, PartialEq, Eq, Structural)]
pub struct EvolveConfig {
    pub max_evolve_per_write: usize,
    pub max_lifetime_evolutions: u16,
    pub cooldown_secs: u64,
    /// Bits of the minimum structural change (a single-precision float) for
    /// an evolution to be persisted at all.
    pub min_change_threshold_bits: u32,
}

impl Default for EvolveConfig {
    fn default() -> (c: Self)
        ensures
            c.max_evolve_per_write == 3,
            c.max_lifetime_evolutions == 8,
            c.cooldown_secs == 300,
            c.min_change_threshold_bits == DEFAULT_MIN_CHANGE_THRESHOLD_BITS,
    {
        EvolveConfig {
            max_evolve_per_write: 3,
            max_lifetime_evolutions: 8,
            cooldown_secs: 300,
            min_change_threshold_bits: DEFAULT_MIN_CHANGE_THRESHOLD_BITS,
        }
    }
}

/// The worker. Consumes `MemoryWritten` events; emits `MemoryEvolved`.
pub struct EvolutionWorker {
    pub config: EvolveConfig,
}

impl EvolutionWorker {
    pub fn new(config: EvolveConfig) -> (w: Self)
        ensures
            w.config == config,
    {
        EvolutionWorker { config }
    }
}

} // verus!
