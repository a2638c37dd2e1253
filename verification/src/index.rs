//! Materialized retrieval views over the event log: a vector index and a
//! BM25 index, unified by a hybrid retriever. The views are not built yet:
//! the retriever is a scaffold that answers every query with no hits.

use vstd::prelude::*;

verus! {

/// Hybrid retriever fusing vector + BM25 (+ graph-walk, later) with an
/// explainable score breakdown. Reciprocal-rank fusion to start.
pub struct HybridRetriever {}

impl HybridRetriever {
    pub fn new() -> (r: Self) {
        HybridRetriever {}
    }

    /// Searches for `query`. No view is fused yet, so every search succeeds
    /// with no hits.
    pub fn search<Q, H, E>(&self, query: &Q) -> (hits: Result<Vec<H>, E>)
        ensures
            match hits {
                Ok(h) => h@ == Seq::<H>::empty(),
                Err(_) => false,
            },
    {
        Ok(Vec::new())
    }
}

impl Default for HybridRetriever {
    fn default() -> (r: Self) {
        HybridRetriever::new()
    }
}

} // verus!
