use mneme::event::{ChangeSet, EvalReport};
use mneme::float_bits::{f32_bits_eq, f32_bits_is_nonnegative, f32_bits_lt};

fn report(passed: u32, total: u32, safety: bool, delta: f32) -> EvalReport {
    EvalReport {
        canaries_passed: passed,
        canaries_total: total,
        replay_success_rate_bits: 1.0f32.to_bits(),
        safety_probe_passed: safety,
        objective_delta_bits: delta.to_bits(),
    }
}

#[test]
fn committable_needs_every_gate() {
    assert!(report(5, 5, true, 0.0).is_committable());
    assert!(report(5, 5, true, 0.25).is_committable());
    assert!(report(0, 0, true, 0.0).is_committable());
    assert!(!report(4, 5, true, 0.25).is_committable());
    assert!(!report(5, 5, false, 0.25).is_committable());
    assert!(!report(5, 5, true, -0.01).is_committable());
    assert!(!report(5, 5, true, f32::NAN).is_committable());
    assert!(report(5, 5, true, -0.0).is_committable());
    assert!(report(5, 5, true, f32::INFINITY).is_committable());
    assert!(!report(5, 5, true, f32::NEG_INFINITY).is_committable());
}

fn samples() -> Vec<f32> {
    vec![
        0.0, -0.0, 1.0, -1.0, 0.15, 0.999999, 0.9999989, 1.0 - 1e-6, 1e-45, -1e-45, 1e-38,
        f32::MIN_POSITIVE, f32::MAX, f32::MIN, f32::INFINITY, f32::NEG_INFINITY, f32::NAN,
        -f32::NAN, f32::from_bits(0x7FC0_0001), f32::from_bits(0xFFFF_FFFF), 3.5, -2.25, 0.5,
    ]
}

#[test]
fn nonnegative_bits_agree_with_float_comparison() {
    for x in samples() {
        assert_eq!(f32_bits_is_nonnegative(x.to_bits()), x >= 0.0, "x = {x:?}");
    }
}

#[test]
fn eq_and_lt_bits_agree_with_float_comparison() {
    for x in samples() {
        for y in samples() {
            assert_eq!(f32_bits_eq(x.to_bits(), y.to_bits()), x == y, "x = {x:?}, y = {y:?}");
            assert_eq!(f32_bits_lt(x.to_bits(), y.to_bits()), x < y, "x = {x:?}, y = {y:?}");
        }
    }
}

#[test]
fn change_set_holds_its_diff() {
    let c = ChangeSet {
        keywords_added: vec!["rust".into()],
        keywords_removed: vec![],
        tags_added: vec!["lang".into()],
        tags_removed: vec!["old".into()],
        context_rewritten: true,
    };
    let d = c.clone();
    assert_eq!(d.keywords_added, vec!["rust".to_string()]);
    assert!(d.context_rewritten);
}
