use mneme::types::{new_id, ArtifactRef, BiTemporal};

#[test]
fn fresh_stamp_is_live_now_and_current() {
    let b = BiTemporal::now();
    assert_eq!(b.valid_from, b.tx_from);
    assert_eq!(b.valid_to, None);
    assert_eq!(b.tx_to, None);
    assert!(b.is_live(b.valid_from));
    assert!(b.is_live(b.valid_from + 1_000_000_000));
    assert!(!b.is_live(b.valid_from - 1));
}

#[test]
fn validity_interval_is_half_open() {
    let b = BiTemporal { valid_from: 100, valid_to: Some(200), tx_from: 150, tx_to: None };
    assert!(!b.is_live(99));
    assert!(b.is_live(100));
    assert!(b.is_live(199));
    assert!(!b.is_live(200));
}

#[test]
fn superseded_fact_is_never_live() {
    let b = BiTemporal { valid_from: 100, valid_to: None, tx_from: 100, tx_to: Some(150) };
    assert!(!b.is_live(100));
    assert!(!b.is_live(120));
    assert!(!b.is_live(1_000_000));
}

#[test]
fn ids_are_fresh_and_time_ordered() {
    let a = new_id();
    let b = new_id();
    assert_ne!(a, b);
    // The top 48 bits are the millisecond timestamp.
    assert!((a >> 80) <= (b >> 80));
    assert_eq!(ArtifactRef(a), ArtifactRef(a));
    assert_ne!(ArtifactRef(a), ArtifactRef(b));
}

#[test]
fn recorded_at_stamps_both_times() {
    let b = BiTemporal::recorded_at(1_700_000_000_000_000_000);
    assert_eq!(b, BiTemporal { valid_from: 1_700_000_000_000_000_000, valid_to: None, tx_from: 1_700_000_000_000_000_000, tx_to: None });
    assert!(b.is_live(1_700_000_000_000_000_000));
}
