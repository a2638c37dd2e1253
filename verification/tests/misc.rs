use mneme::evolve::{EvolutionWorker, EvolveConfig};
use mneme::index::HybridRetriever;

#[test]
fn evolve_config_defaults() {
    let c = EvolveConfig::default();
    assert_eq!(c.max_evolve_per_write, 3);
    assert_eq!(c.max_lifetime_evolutions, 8);
    assert_eq!(c.cooldown_secs, 300);
    assert_eq!(f32::from_bits(c.min_change_threshold_bits), 0.15f32);
    let w = EvolutionWorker::new(c);
    assert_eq!(w.config, c);
}

#[test]
fn hybrid_retriever_scaffold_has_no_hits() {
    let r = HybridRetriever::new();
    let hits: Result<Vec<u64>, String> = r.search(&"what did I say about rust?");
    assert_eq!(hits, Ok(vec![]));
    let d = HybridRetriever::default();
    let hits: Result<Vec<String>, ()> = d.search(&42u32);
    assert_eq!(hits, Ok(vec![]));
}
