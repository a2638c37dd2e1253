//! The append-only event log is the single system of record. Every index
//! (vector, BM25, graph, procedural) is a materialized view rebuildable by
//! replaying these events.

use vstd::prelude::*;

use crate::float_bits::{
    f32_bits_is_nonnegative, f32_bits_nan, f32_bits_nonnegative, f32_bits_order_key,
};
use crate::types::{Id, MemoryRef, ProposalId};

verus! {

/// One immutable entry in the log. `M`, `O` and `A` are the memory, outcome
/// and policy-artifact records the log carries.
#[derive(Debug, Clone)]
pub struct LogEntry<M, O, A> {
    pub id: Id,
    pub event: Event<M, O, A>,
}

/// Everything that can happen in the system. Memory writes and outcome
/// records are commutative; procedural commits are NOT (single-writer).
#[derive(Debug, Clone)]
pub enum Event<M, O, A> {
    MemoryWritten(M),
    MemoryEvolved { from: MemoryRef, to: MemoryRef, diff: ChangeSet },
    MemoryInvalidated { id: MemoryRef, reason: String },
    OutcomeRecorded(O),
    ProceduralProposed { proposal: ProposalId, artifacts: Vec<A> },
    ProceduralCommitted { proposal: ProposalId, report: EvalReport },
    ProceduralRejected { proposal: ProposalId, reason: String },
}

/// A structural diff produced by the evolution worker.
#[derive(Debug, Clone)]
pub struct ChangeSet {
    pub keywords_added: Vec<String>,
    pub keywords_removed: Vec<String>,
    pub tags_added: Vec<String>,
    pub tags_removed: Vec<String>,
    pub context_rewritten: bool,
}

/// The outcome of shadow-evaluating a procedural proposal before commit:
/// the regression guard. The two rates are single-precision floats held by
/// their bit patterns (see [`crate::float_bits`]).
#[derive(Debug, Clone, Copy, PartialEq, Eq, Structural)]
pub struct EvalReport {
    pub canaries_passed: u32,
    pub canaries_total: u32,
    /// Bits of the replay success rate.
    pub replay_success_rate_bits: u32,
    pub safety_probe_passed: bool,
    /// Bits of the objective delta.
    pub objective_delta_bits: u32,
}

/// The strict baseline: every canary passes, the safety probe passes and
/// the objective delta is `>= 0.0` (a NaN delta fails).
pub open spec fn spec_is_committable(r: EvalReport) -> bool {
    &&& r.canaries_passed == r.canaries_total
    &&& r.safety_probe_passed
    &&& f32_bits_nonnegative(r.objective_delta_bits)
}

impl EvalReport {
    /// A proposal may commit only if it clears every gate.
    pub fn is_committable(&self) -> (ok: bool)
        ensures
            ok == spec_is_committable(*self),
    {
        self.canaries_passed == self.canaries_total && self.safety_probe_passed
            && f32_bits_is_nonnegative(self.objective_delta_bits)
    }
}

/// A report commits exactly when every canary passed (none failed), the
/// safety probe passed, and the objective delta is a number (not NaN) on the
/// non-negative side of the number line.
pub proof fn lemma_committable_iff_every_gate_passes(r: EvalReport)
    ensures
        spec_is_committable(r) <==> (r.canaries_passed == r.canaries_total && r.safety_probe_passed
            && !f32_bits_nan(r.objective_delta_bits) && f32_bits_order_key(r.objective_delta_bits)
            >= 0),
        r.canaries_passed < r.canaries_total ==> !spec_is_committable(r),
        !r.safety_probe_passed ==> !spec_is_committable(r),
{
}

} // verus!
