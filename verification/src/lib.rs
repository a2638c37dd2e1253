//! mneme: the verified core of a self-improving long-term memory layer for
//! AI agents — scoping, bi-temporal stamps, the event shapes of the
//! append-only log, the procedural commit gate and the learning curve.

pub mod types;
pub mod float_bits;
pub mod event;
pub mod procedural;
pub mod curve;
pub mod evolve;
pub mod index;
