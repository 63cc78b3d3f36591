use sentinel_pool::metrics::Metrics;

#[test]
fn fresh_record_has_no_recycle() {
    let m = Metrics::new(42);
    assert_eq!(m, Metrics { created: 42, recycled: None, recycle_count: 0 });
}

#[test]
fn age_is_the_time_since_creation() {
    let m = Metrics::new(1_000);
    assert_eq!(m.age(1_000), 0);
    assert_eq!(m.age(1_250), 250);
    assert_eq!(m.age(u64::MAX), u64::MAX - 1_000);
}

#[test]
fn age_before_creation_is_zero() {
    let m = Metrics::new(1_000);
    assert_eq!(m.age(999), 0);
    assert_eq!(m.age(0), 0);
}

#[test]
fn last_used_counts_from_creation_until_recycled() {
    let mut m = Metrics::new(100);
    assert_eq!(m.last_used(130), 30);
    m.mark_recycled(120);
    assert_eq!(m.last_used(130), 10);
    assert_eq!(m.age(130), 30);
    assert_eq!(m.last_used(110), 0);
}

#[test]
fn recycling_updates_the_record() {
    let mut m = Metrics::new(7);
    m.mark_recycled(9);
    assert_eq!(m, Metrics { created: 7, recycled: Some(9), recycle_count: 1 });
    m.mark_recycled(11);
    assert_eq!(m, Metrics { created: 7, recycled: Some(11), recycle_count: 2 });
}

#[test]
fn recycle_count_stops_at_its_ceiling() {
    let mut m = Metrics { created: 0, recycled: None, recycle_count: usize::MAX - 1 };
    m.mark_recycled(1);
    assert_eq!(m.recycle_count, usize::MAX);
    m.mark_recycled(2);
    assert_eq!(m.recycle_count, usize::MAX);
    assert_eq!(m.recycled, Some(2));
}
