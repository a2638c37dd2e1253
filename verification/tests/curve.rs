use mneme::curve::{LearningCurveCollector, LearningCurvePoint, F32_ONE_BITS};
use mneme::types::{new_id, ArtifactRef};

fn point(version: u32, score: f32, safety: f32, aref: ArtifactRef) -> LearningCurvePoint {
    LearningCurvePoint {
        artifact_id: aref,
        version,
        timestamp_ms: 1_000_000 + version as u64 * 1000,
        benchmark_score_bits: score.to_bits(),
        safety_probe_pass_rate_bits: safety.to_bits(),
        objective_delta_bits: 0.0f32.to_bits(),
        judges_consulted: 2,
    }
}

#[test]
fn record_and_read_back_in_order() {
    let mut c = LearningCurveCollector::new();
    let a = ArtifactRef(new_id());
    for v in 1..=3u32 {
        c.record(point(v, v as f32 / 3.0, 1.0, a));
    }
    let pts = c.points();
    assert_eq!(pts.len(), 3);
    assert_eq!(pts[0].version, 1);
    assert_eq!(pts[2].version, 3);
}

#[test]
fn points_for_filters_by_artifact() {
    let mut c = LearningCurveCollector::new();
    let a1 = ArtifactRef(new_id());
    let a2 = ArtifactRef(new_id());
    c.record(point(1, 0.5, 1.0, a1));
    c.record(point(1, 0.6, 1.0, a2));
    c.record(point(2, 0.7, 1.0, a1));
    assert_eq!(c.points_for(a1).len(), 2);
    assert_eq!(c.points_for(a2).len(), 1);
}

#[test]
fn safety_clean_detects_any_dip() {
    let mut c = LearningCurveCollector::new();
    let a = ArtifactRef(new_id());
    c.record(point(1, 0.5, 1.0, a));
    c.record(point(2, 0.6, 1.0, a));
    assert!(c.safety_clean());
    c.record(point(3, 0.7, 0.5, a)); // ← regression
    assert!(!c.safety_clean(), "any dip below 1.0 must trip the flag");
}

#[test]
fn strictly_non_decreasing_rejects_dropoff() {
    let mut c = LearningCurveCollector::new();
    let a = ArtifactRef(new_id());
    c.record(point(1, 0.3, 1.0, a));
    c.record(point(2, 0.6, 1.0, a));
    c.record(point(3, 0.6, 1.0, a)); // plateau OK
    assert!(c.strictly_non_decreasing(a));
    c.record(point(4, 0.5, 1.0, a)); // dropoff!
    assert!(!c.strictly_non_decreasing(a));
}

#[test]
fn strictly_non_decreasing_is_per_artifact() {
    // A regression on artifact 2 must NOT count against artifact 1.
    let mut c = LearningCurveCollector::new();
    let a1 = ArtifactRef(new_id());
    let a2 = ArtifactRef(new_id());
    c.record(point(1, 0.5, 1.0, a1));
    c.record(point(2, 0.7, 1.0, a1));
    c.record(point(1, 0.5, 1.0, a2));
    c.record(point(2, 0.2, 1.0, a2));
    assert!(c.strictly_non_decreasing(a1));
    assert!(!c.strictly_non_decreasing(a2));
}

#[test]
fn empty_collector_satisfies_both_predicates_vacuously() {
    let c = LearningCurveCollector::new();
    assert!(c.is_empty());
    assert!(c.safety_clean());
    assert!(c.strictly_non_decreasing(ArtifactRef(new_id())));
}

#[test]
fn empty_collector_has_no_points() {
    let c = LearningCurveCollector::new();
    assert_eq!(c.len(), 0);
    assert!(c.points().is_empty());
    assert!(c.points_for(ArtifactRef(new_id())).is_empty());
}

#[test]
fn non_decreasing_compares_as_floats() {
    let a = ArtifactRef(new_id());
    // -0.0 then 0.0 is a plateau, not a rise or a drop.
    let mut c = LearningCurveCollector::new();
    c.record(point(1, 0.0, 1.0, a));
    c.record(point(2, -0.0, 1.0, a));
    c.record(point(3, 0.0, 1.0, a));
    assert!(c.strictly_non_decreasing(a));
    // Any drop, however small, counts.
    let mut d = LearningCurveCollector::new();
    d.record(point(1, 0.6, 1.0, a));
    d.record(point(2, 0.5999999, 1.0, a));
    assert!(!d.strictly_non_decreasing(a));
    // A single point is trivially non-decreasing, whatever its score.
    let mut e = LearningCurveCollector::new();
    e.record(point(1, -5.0, 1.0, a));
    assert!(e.strictly_non_decreasing(a));
}

#[test]
fn points_compare_their_scores_as_floats() {
    let a = ArtifactRef(new_id());
    assert_eq!(point(1, 0.0, 1.0, a), point(1, -0.0, 1.0, a));
    assert_ne!(point(1, f32::NAN, 1.0, a), point(1, f32::NAN, 1.0, a));
    assert_ne!(point(1, 0.5, 1.0, a), point(2, 0.5, 1.0, a));
    assert_ne!(point(1, 0.5, 1.0, a), point(1, 0.5, 0.5, a));
    assert_eq!(point(3, 0.25, 1.0, a), point(3, 0.25, 1.0, a));
}

#[test]
fn one_bits_are_one() {
    assert_eq!(f32::from_bits(F32_ONE_BITS), 1.0f32);
}

#[test]
fn safety_clean_needs_exactly_one() {
    let a = ArtifactRef(new_id());
    let mut c = LearningCurveCollector::new();
    c.record(point(1, 0.5, 1.0, a));
    assert!(c.safety_clean());
    for rate in [1.0 - 1e-6, 0.9999995, 999_999.0 / 1_000_000.0, 0.999998, 0.0, -1.0, 1.5, f32::NAN] {
        let mut d = LearningCurveCollector::new();
        d.record(point(1, 0.5, 1.0, a));
        d.record(point(2, 0.5, rate, a));
        assert!(!d.safety_clean(), "rate {rate:?} must trip the flag");
    }
}

#[test]
fn points_for_keeps_arrival_order_and_other_curves_apart() {
    let a1 = ArtifactRef(new_id());
    let a2 = ArtifactRef(new_id());
    let mut c = LearningCurveCollector::new();
    c.record(point(1, 0.1, 1.0, a1));
    c.record(point(1, 0.2, 1.0, a2));
    c.record(point(2, 0.3, 1.0, a1));
    c.record(point(3, 0.4, 1.0, a1));
    let before_a2 = c.points_for(a2);
    c.record(point(4, 0.5, 1.0, a1));
    assert_eq!(c.points_for(a2), before_a2);
    let v: Vec<u32> = c.points_for(a1).iter().map(|p| p.version).collect();
    assert_eq!(v, vec![1, 2, 3, 4]);
    assert_eq!(c.len(), 5);
    assert_eq!(c.points()[1].artifact_id, a2);
}
