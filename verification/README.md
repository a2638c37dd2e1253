# mneme

A self-improving long-term memory layer for AI agents. This crate is its
core, written in Verus: every executable function in `src/` is verified
against its contract. Two say nothing of their result because nothing can
be said: `new_id` (clock and random bits) and the field-less
`HybridRetriever::new`/`default`.

- `src/types.rs` — ids, typed references, tenancy scopes (with the
  containment laws: reflexive, transitive, never across tenants, narrow
  scopes never read wider ones) and bi-temporal stamps.
- `src/event.rs` — the shapes of the append-only event log and the strict
  commit baseline `EvalReport::is_committable`.
- `src/procedural.rs` — the decisions of a procedural compile pass: the
  guard that always consults the baseline first, the choice of the first
  committable candidate, and the events that land a pass in the log.
- `src/curve.rs` — the learning curve collector, its safety flag and the
  per-artifact monotonicity check.
- `src/float_bits.rs` — single-precision values held by their bit
  patterns, and exact comparisons on them.
- `src/evolve.rs`, `src/index.rs` — evolution bounds and the retrieval
  scaffold.
- `app/` — the host process, the async handles and the drivers that call
  the reflector, the shadow evaluator and the event log.
