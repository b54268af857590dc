use rusty_notepad::stats::{ram_usage, Percentage, Throttled, SYSTEM_INFO_REFRESH_MS};

fn percent(p: Percentage) -> f64 {
    p.numerator as f64 / p.denominator as f64
}

#[test]
fn ram_usage_with_zero_total_is_zero() {
    let p = ram_usage(0, 0);
    assert_eq!(p, Percentage { numerator: 0, denominator: 1 });
    assert_eq!(percent(p), 0.0);
    assert_eq!(percent(ram_usage(5, 0)), 0.0);
}

#[test]
fn ram_usage_is_used_over_total() {
    let p = ram_usage(4, 8);
    assert_eq!(p, Percentage { numerator: 400, denominator: 8 });
    assert_eq!(percent(p), 50.0);
    assert_eq!(percent(ram_usage(8, 8)), 100.0);
    assert_eq!(percent(ram_usage(u64::MAX, u64::MAX)), 100.0);
}

#[test]
fn refresh_within_interval_keeps_cached_value() {
    let mut cache = Throttled::new(SYSTEM_INFO_REFRESH_MS, 0u32);
    assert!(cache.is_due(0));
    assert!(cache.refresh(5_000, || 1u32));
    assert_eq!(*cache.current(), 1);
    assert!(!cache.refresh(5_999, || 2u32));
    assert_eq!(*cache.current(), 1);
    assert_eq!(cache.last_refresh, Some(5_000));
    assert!(cache.refresh(6_000, || 3u32));
    assert_eq!(*cache.current(), 3);
    assert_eq!(cache.last_refresh, Some(6_000));
}

#[test]
fn cached_snapshot_is_bit_identical() {
    let mut cache = Throttled::new(1000, (0.0f32, Some(0.0f32)));
    cache.refresh(100, || (12.5f32, Some(42.25f32)));
    let first = *cache.current();
    cache.refresh(900, || (99.0f32, None));
    let second = *cache.current();
    assert_eq!(first.0.to_bits(), second.0.to_bits());
    assert_eq!(first.1.map(f32::to_bits), second.1.map(f32::to_bits));
}

#[test]
fn clock_going_back_is_not_due() {
    let mut cache = Throttled::new(1000, 0u8);
    cache.refresh(10_000, || 1u8);
    assert!(!cache.is_due(5_000));
    assert!(cache.is_due(11_000));
}
