use ctc_server::storage::poller::{sensor_for_addr, sensor_parameter, sensor_register};
use ctc_server::storage::{
    daily_key, legacy_cycle_secs, parse_date_yyyymmdd, plan_legacy_import, recent_cycle_picks,
    unix_secs, Accumulators, CycleSequencer, DirtyState, Sensor, SeriesRing,
    StepEventCache, MAX_STEP_EVENTS, SERIES_RETENTION_SECS,
};

#[test]
fn empty_store_has_default_accumulators() {
    let acc = Accumulators::default();
    assert_eq!(acc.tracking_started_unix_secs, 0);
    assert_eq!(acc.total_starts, 0);
    assert_eq!(acc.total_operating_secs, 0);
    assert!(!acc.is_initialized());
    let ring: SeriesRing<f32> = SeriesRing::new(SERIES_RETENTION_SECS);
    assert!(ring.range(0, i64::MAX).is_empty());
}

#[test]
fn record_sample_serves_from_ram() {
    let mut ring: SeriesRing<f32> = SeriesRing::new(SERIES_RETENTION_SECS);
    let s = 1_700_000_000_i64;
    ring.record(s, 21.5);
    let pts = ring.range(s - 1, s + 1);
    assert_eq!(pts.len(), 1);
    assert!((pts[0].1 - 21.5).abs() < f32::EPSILON);
}

#[test]
fn latest_sample_returns_most_recent() {
    let mut room: SeriesRing<f32> = SeriesRing::new(SERIES_RETENTION_SECS);
    let outdoor: SeriesRing<f32> = SeriesRing::new(SERIES_RETENTION_SECS);
    assert!(room.latest().is_none());
    let t0 = 1_700_000_000_i64;
    let t1 = t0 + 5;
    room.record(t0, 19.0);
    room.record(t1, 20.5);
    let (ts, v) = room.latest().unwrap();
    assert_eq!(ts, t1);
    assert!((v - 20.5).abs() < f32::EPSILON);
    assert!(outdoor.latest().is_none());
}

#[test]
fn ring_drops_older_than_retention() {
    let mut ring: SeriesRing<f32> = SeriesRing::new(SERIES_RETENTION_SECS);
    let now = 1_700_000_000_i64;
    let old = now - 25 * 3600;
    ring.record(old, 10.0);
    ring.record(now, 20.0);
    let pts = ring.range(0, i64::MAX);
    assert_eq!(pts.len(), 1, "old sample should have been evicted");
    assert!((pts[0].1 - 20.0).abs() < f32::EPSILON);
}

#[test]
fn ring_retains_sample_exactly_at_retention_boundary() {
    let mut ring: SeriesRing<f32> = SeriesRing::new(SERIES_RETENTION_SECS);
    let now = 1_700_000_000_i64;
    let boundary = now - SERIES_RETENTION_SECS;
    ring.record(boundary, 7.5);
    ring.record(now, 8.0);
    let pts = ring.range(0, i64::MAX);
    assert_eq!(pts.len(), 2, "boundary sample must be retained");
    assert!((pts[0].1 - 7.5).abs() < f32::EPSILON);
}

#[test]
fn range_is_half_open() {
    let mut ring: SeriesRing<u32> = SeriesRing::new(100);
    ring.record(10, 1);
    ring.record(20, 2);
    ring.record(30, 3);
    assert_eq!(ring.range(10, 30), vec![(10, 1), (20, 2)]);
}

#[test]
fn flush_is_idempotent_when_clean() {
    let d = DirtyState::new();
    assert_eq!(d.begin_flush(), None);
    assert_eq!(d.begin_flush(), None);
}

#[test]
fn write_during_commit_keeps_state_dirty() {
    let mut d = DirtyState::new();
    d.mark_dirty();
    let snap = d.begin_flush().expect("dirty");
    d.mark_dirty();
    d.commit_done(snap);
    assert!(d.dirty);
    let snap2 = d.begin_flush().unwrap();
    d.commit_done(snap2);
    assert!(!d.dirty);
}

#[test]
fn two_cycles_same_second_both_survive_flush_reopen() {
    let mut seq = CycleSequencer::new();
    let a = seq.next_key(1_700_000_000);
    let b = seq.next_key(1_700_000_000);
    assert_eq!(a, (1_700_000_000, 0));
    assert_eq!(b, (1_700_000_000, 1));
    let mut reopened = CycleSequencer::new();
    reopened.observe(1_700_000_000, 1);
    assert_eq!(reopened.next_key(1_700_000_000), (1_700_000_000, 2));
    assert_eq!(reopened.next_key(1_700_000_001), (1_700_000_001, 0));
}

#[test]
fn step_event_cache_keeps_newest_first_and_caps() {
    let mut cache: StepEventCache<u32> = StepEventCache::new();
    for i in 0..60u32 {
        cache.record(i);
    }
    assert_eq!(cache.events.len(), MAX_STEP_EVENTS);
    let recent = cache.recent(3);
    assert_eq!(recent, vec![&59, &58, &57]);
    assert_eq!(cache.recent(1000).len(), MAX_STEP_EVENTS);
}

#[test]
fn parse_date_yyyymmdd_rejects_calendar_invalid() {
    assert_eq!(parse_date_yyyymmdd("2025-02-28"), Some(20_250_228));
    assert_eq!(parse_date_yyyymmdd("2024-02-29"), Some(20_240_229));
    assert_eq!(parse_date_yyyymmdd("2025-02-31"), None);
    assert_eq!(parse_date_yyyymmdd("2023-02-29"), None);
    assert_eq!(parse_date_yyyymmdd("2025-04-31"), None);
    assert_eq!(parse_date_yyyymmdd("2025-13-01"), None);
    assert_eq!(parse_date_yyyymmdd("not-a-date"), None);
}

#[test]
fn unix_secs_rejects_out_of_range_clock() {
    assert_eq!(unix_secs(Some(42)), Some(42));
    assert_eq!(unix_secs(None), None);
    assert_eq!(unix_secs(Some(u64::MAX)), None);
}

#[test]
fn sensor_slugs_accept_both_separators() {
    assert_eq!(Sensor::from_slug("flow_sp"), Some(Sensor::FlowSp));
    assert_eq!(Sensor::from_slug("flow-sp"), Some(Sensor::FlowSp));
    assert_eq!(Sensor::from_slug("room"), Some(Sensor::Room));
    assert_eq!(Sensor::from_slug("nope"), None);
    assert_eq!(Sensor::HpStatus.as_u16(), 19);
    assert_eq!(Sensor::all().len(), 19);
}

#[test]
fn sensor_for_addr_maps_polled_registers() {
    assert_eq!(sensor_for_addr(62203), Some(Sensor::Room));
    assert_eq!(sensor_for_addr(62017), Some(Sensor::HpStatus));
    assert_eq!(sensor_for_addr(1100), None);
    for s in Sensor::all() {
        assert_eq!(sensor_for_addr(sensor_register(s)), Some(s));
    }
    let p = sensor_parameter(Sensor::Room).expect("room temperature is cataloged");
    assert_eq!(p.id, 62203);
}

#[test]
fn daily_key_packs_and_refuses_negative_years() {
    assert_eq!(daily_key(Some((2025, 2, 28))), Some(20_250_228));
    assert_eq!(daily_key(Some((-1, 1, 1))), None);
    assert_eq!(daily_key(Some((500_000, 1, 1))), None);
    assert_eq!(daily_key(None), None);
}

fn legacy_counters() -> Accumulators {
    Accumulators {
        tracking_started_unix_secs: 1_700_000_000,
        total_starts: 99,
        total_operating_secs: 86_400,
    }
}

#[test]
fn migrate_from_legacy_json() {
    let stamps = vec!["2026-05-10T15:00:00+00:00".to_string()];
    let dates = vec!["2026-05-10".to_string()];
    let plan = plan_legacy_import(&Accumulators::default(), legacy_counters(), &stamps, &dates)
        .expect("an empty store takes the import");
    assert_eq!(plan.accumulators.total_starts, 99);
    assert_eq!(plan.accumulators.total_operating_secs, 86_400);
    assert_eq!(plan.cycle_secs, vec![1_778_425_200]);
    assert_eq!(plan.daily_keys, vec![20_260_510]);
}

#[test]
fn migrate_skips_when_tracking_started_set_alone() {
    let current = Accumulators { tracking_started_unix_secs: 999, total_starts: 0, total_operating_secs: 0 };
    assert!(plan_legacy_import(&current, legacy_counters(), &Vec::new(), &Vec::new()).is_none());
}

#[test]
fn migrate_skips_when_store_already_populated() {
    let current = Accumulators { tracking_started_unix_secs: 0, total_starts: 1, total_operating_secs: 0 };
    let stamps = vec!["2026-05-10T15:00:00Z".to_string()];
    assert!(plan_legacy_import(&current, legacy_counters(), &stamps, &Vec::new()).is_none());
}

#[test]
fn legacy_import_files_unreadable_entries_under_zero() {
    let stamps = vec![
        "2026-05-10T17:00:00+02:00".to_string(),
        "not a time".to_string(),
        "1969-12-31T23:59:59Z".to_string(),
    ];
    let dates = vec!["2025-02-31".to_string(), "2024-02-29".to_string()];
    let plan = plan_legacy_import(&Accumulators::default(), legacy_counters(), &stamps, &dates).unwrap();
    assert_eq!(plan.cycle_secs, vec![1_778_425_200, 0, 0]);
    assert_eq!(plan.daily_keys, vec![0, 20_240_229]);
    assert_eq!(legacy_cycle_secs("1970-01-01T00:01:40.5Z"), 100);
}

#[test]
fn recent_cycle_picks_newest_first_within_limit() {
    let secs = vec![100, 50, 300, 200, 400];
    let (picks, more) = recent_cycle_picks(&secs, 150, 2);
    assert_eq!(picks, vec![4, 3]);
    assert_eq!(more, 0);
    let (picks, more) = recent_cycle_picks(&secs, 150, 10);
    assert_eq!(picks, vec![4, 3, 2]);
    assert_eq!(more, 7);
    let (picks, more) = recent_cycle_picks(&secs, 1_000, 0);
    assert!(picks.is_empty());
    assert_eq!(more, 1);
}

#[test]
fn out_of_order_sample_is_still_the_newest_entry() {
    let mut ring: SeriesRing<f32> = SeriesRing::new(100);
    ring.record(1_000, 1.0);
    ring.record(1_050, 2.0);
    ring.record(990, 3.0);
    assert_eq!(ring.latest(), Some((990, 3.0)));
    assert_eq!(ring.range(0, i64::MAX).len(), 3);
    ring.record(1_200, 4.0);
    assert_eq!(ring.range(0, i64::MAX), vec![(1_200, 4.0)]);
}
